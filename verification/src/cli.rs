//! The options of a run as the command line gives them, and how they are
//! combined with a configuration file into the configuration.

use crate::config::{
    builder_outcome, with_settings, BuilderModel, Config, ConfigBuilder, Settings,
};
use crate::config_file::{option_views, ConfigFile};
use crate::error::{config_error, option_view, ErrorModel, Result};
use vstd::prelude::*;

verus! {

/// The options of a run, each present if the command line gives it.
#[derive(Debug, Clone)]
pub struct CliOptions {
    /// The media file to censor.
    pub input: Option<String>,
    /// Where the censored file goes.
    pub output: Option<String>,
    /// The name of the transcription model.
    pub model: Option<String>,
    /// The volume during censoring, in thousandths of full volume.
    pub volume: Option<u64>,
    /// The length of a fade, in milliseconds.
    pub fade: Option<u64>,
    /// The block-list.
    pub words: Option<Vec<String>>,
    /// The profile of the configuration file to apply.
    pub profile: Option<String>,
}

/// The error for a command line without input file.
pub open spec fn input_missing() -> ErrorModel {
    ErrorModel::Config { field: "input"@, message: "Input file is required"@ }
}

impl CliOptions {
    /// The four settings that the command line gives.
    pub open spec fn settings(&self) -> Settings {
        Settings {
            whisper_model: option_view(self.model),
            censor_volume: self.volume,
            fade_duration: self.fade,
            swear_words: option_views(self.words),
        }
    }
}

/// The builder with only the input file set.
pub open spec fn starting_with(input: Seq<char>) -> BuilderModel {
    BuilderModel {
        input_file: Some(input),
        output_file: None,
        whisper_model: None,
        censor_volume: None,
        fade_duration: None,
        swear_words: None,
    }
}

/// The builder after the configuration file is applied, if there is one:
/// the profile that the command line names, or else the settings of the
/// file itself.
pub open spec fn with_file(
    builder: BuilderModel,
    file: Option<ConfigFile>,
    profile: Option<Seq<char>>,
) -> std::result::Result<BuilderModel, ErrorModel> {
    match file {
        None => Ok(builder),
        Some(file) => match profile {
            Some(name) => file.with_profile(name, builder),
            None => with_settings(builder, file.settings()),
        },
    }
}

/// What the options and the configuration file give: the input file is
/// required; the file comes first, then the output file of the command
/// line, then its four settings, which override those of the file. The
/// first setting that is rejected decides.
pub open spec fn configured(options: CliOptions, file: Option<ConfigFile>) -> std::result::Result<
    BuilderModel,
    ErrorModel,
> {
    match options.input {
        None => Err(input_missing()),
        Some(input) => match with_file(starting_with(input@), file, option_view(options.profile)) {
            Err(e) => Err(e),
            Ok(builder) => with_settings(
                match options.output {
                    Some(output) => BuilderModel { output_file: Some(output@), ..builder },
                    None => builder,
                },
                options.settings(),
            ),
        },
    }
}

/// Collects the values of the configuration from the command line and the
/// configuration file, without building it.
pub fn configure(options: &CliOptions, config_file: &Option<ConfigFile>) -> (r: Result<
    ConfigBuilder,
>)
    ensures
        builder_outcome(r, configured(*options, *config_file)),
{
    let input = match &options.input {
        Some(input) => input.clone(),
        None => {
            return Err(config_error("input", "Input file is required"));
        },
    };
    let mut builder = ConfigBuilder::new().input_file(input);
    match config_file {
        Some(file) => {
            match &options.profile {
                Some(name) => {
                    builder = file.apply_profile_to_builder(name.as_str(), builder)?;
                },
                None => {
                    builder = file.apply_to_builder(builder)?;
                },
            }
        },
        None => {},
    }
    match &options.output {
        Some(output) => {
            builder = builder.output_file(output.clone());
        },
        None => {},
    }
    builder.apply_settings(&options.model, options.volume, options.fade, &options.words)
}

/// Builds the configuration of a run from the command line and the
/// configuration file, validated against the file system.
pub fn parse_config(options: &CliOptions, config_file: &Option<ConfigFile>) -> (r: Result<Config>)
    ensures
        configured(*options, *config_file) matches Err(error) ==> (r matches Err(e) && e@
            == error),
        r matches Ok(config) ==> config.rejection(true, true) is None && config.output_file
            is Some,
{
    let builder = configure(options, config_file)?;
    builder.build()
}

} // verus!
