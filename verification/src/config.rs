//! The configuration of a run and its validation.

use crate::error::{config_error, BabymodeError, ErrorModel, Result};
use crate::paths::{path_exists, path_extension, path_file_stem, path_is_file, path_with_file_name};
use crate::text::{
    chars_of, lowercase, push_shortest3, shortest3, string_of, trim_bounds, trimmed, views,
    CharClass,
};
use vstd::prelude::*;
use vstd::string::*;

verus! {

/// The sizes of the transcription model.
#[derive(Debug, Clone, Copy, PartialEq, Eq, Structural)]
pub enum WhisperModel {
    Tiny,
    Base,
    Small,
    Medium,
    Large,
}

/// The model that a name stands for, whatever its case.
pub open spec fn model_named(name: Seq<char>) -> Option<WhisperModel> {
    let lower = lowercase(name);
    if lower == "tiny"@ {
        Some(WhisperModel::Tiny)
    } else if lower == "base"@ {
        Some(WhisperModel::Base)
    } else if lower == "small"@ {
        Some(WhisperModel::Small)
    } else if lower == "medium"@ {
        Some(WhisperModel::Medium)
    } else if lower == "large"@ {
        Some(WhisperModel::Large)
    } else {
        None
    }
}

/// The error for a name that stands for no model.
pub open spec fn invalid_model(name: Seq<char>) -> ErrorModel {
    ErrorModel::Config {
        field: "whisper_model"@,
        message: "Invalid model '"@ + name
            + "'. Valid options: tiny, base, small, medium, large"@,
    }
}

impl WhisperModel {
    /// The name of the model.
    pub open spec fn name(self) -> Seq<char> {
        match self {
            WhisperModel::Tiny => "tiny"@,
            WhisperModel::Base => "base"@,
            WhisperModel::Small => "small"@,
            WhisperModel::Medium => "medium"@,
            WhisperModel::Large => "large"@,
        }
    }

    /// The name of the model, as the transcription engine takes it.
    pub fn as_str(&self) -> (name: &'static str)
        ensures
            name@ == self.name(),
    {
        match self {
            WhisperModel::Tiny => "tiny",
            WhisperModel::Base => "base",
            WhisperModel::Small => "small",
            WhisperModel::Medium => "medium",
            WhisperModel::Large => "large",
        }
    }

    /// The model that `name` stands for, whatever its case.
    pub fn parse(name: &str) -> (r: Result<WhisperModel>)
        ensures
            match model_named(name@) {
                Some(model) => r == Ok::<WhisperModel, BabymodeError>(model),
                None => r matches Err(e) && e@ == invalid_model(name@),
            },
    {
        let lower = name.to_lowercase();
        if lower == "tiny".to_string() {
            Ok(WhisperModel::Tiny)
        } else if lower == "base".to_string() {
            Ok(WhisperModel::Base)
        } else if lower == "small".to_string() {
            Ok(WhisperModel::Small)
        } else if lower == "medium".to_string() {
            Ok(WhisperModel::Medium)
        } else if lower == "large".to_string() {
            Ok(WhisperModel::Large)
        } else {
            let mut message = "Invalid model '".to_string();
            message.append(name);
            message.append("'. Valid options: tiny, base, small, medium, large");
            Err(BabymodeError::Config { field: "whisper_model".to_string(), message })
        }
    }
}

impl std::str::FromStr for WhisperModel {
    type Err = BabymodeError;

    /// The model that `s` stands for, whatever its case.
    fn from_str(s: &str) -> (r: Result<WhisperModel>)
        ensures
            match model_named(s@) {
                Some(model) => r == Ok::<WhisperModel, BabymodeError>(model),
                None => r matches Err(e) && e@ == invalid_model(s@),
            },
    {
        WhisperModel::parse(s)
    }
}

/// The configuration of a run.
#[derive(Debug, Clone)]
pub struct Config {
    /// The media file to censor.
    pub input_file: String,
    /// Where the censored file goes.
    pub output_file: Option<String>,
    /// The size of the transcription model.
    pub whisper_model: WhisperModel,
    /// The volume during censoring, in thousandths of full volume.
    pub censor_volume: u64,
    /// The length of a fade, in milliseconds.
    pub fade_duration: u64,
    /// The block-list.
    pub swear_words: Vec<String>,
}

/// The largest volume, in thousandths: full volume.
pub const MAX_CENSOR_VOLUME: u64 = 1000;

/// The longest fade, in milliseconds.
pub const MAX_FADE: u64 = 5000;

/// The block-list of a configuration that names none.
pub open spec fn default_swear_words() -> Seq<Seq<char>> {
    seq!["fuck"@, "shit"@, "damn"@, "hell"@, "ass"@, "bitch"@, "bastard"@]
}

/// The error for a volume out of range.
pub open spec fn volume_out_of_range(volume: u64) -> ErrorModel {
    ErrorModel::Config {
        field: "censor_volume"@,
        message: "Volume must be between 0.0 and 1.0, got "@ + shortest3(volume as nat),
    }
}

/// The error for a fade out of range.
pub open spec fn fade_out_of_range(duration: u64) -> ErrorModel {
    ErrorModel::Config {
        field: "fade_duration"@,
        message: "Fade duration must be between 0.0 and 5.0 seconds, got "@ + shortest3(
            duration as nat,
        ),
    }
}

/// Whether `r` is the outcome that `rejection` calls for: the error if
/// there is one, success otherwise.
pub open spec fn outcome_is(r: Result<()>, rejection: Option<ErrorModel>) -> bool {
    match rejection {
        Some(error) => r matches Err(e) && e@ == error,
        None => r is Ok,
    }
}

/// Builds the error for a volume out of range.
fn volume_error(volume: u64) -> (e: BabymodeError)
    ensures
        e@ == volume_out_of_range(volume),
{
    let mut message = "Volume must be between 0.0 and 1.0, got ".to_string();
    push_shortest3(&mut message, volume as u128);
    BabymodeError::Config { field: "censor_volume".to_string(), message }
}

/// Builds the error for a fade out of range.
fn fade_error(duration: u64) -> (e: BabymodeError)
    ensures
        e@ == fade_out_of_range(duration),
{
    let mut message = "Fade duration must be between 0.0 and 5.0 seconds, got ".to_string();
    push_shortest3(&mut message, duration as u128);
    BabymodeError::Config { field: "fade_duration".to_string(), message }
}

/// The name of the censored copy of a file with the given stem and
/// extension; a file without extension gets `mp4`.
pub open spec fn censored_name(stem: Seq<char>, extension: Option<Seq<char>>) -> Seq<char> {
    stem + "_censored."@ + match extension {
        Some(extension) => extension,
        None => "mp4"@,
    }
}

/// The name of the censored copy of a file with the given stem and
/// extension.
pub fn censored_file_name(stem: &str, extension: &Option<String>) -> (name: String)
    ensures
        name@ == censored_name(stem@, crate::error::option_view(*extension)),
{
    let mut name = stem.to_string();
    name.append("_censored.");
    match extension {
        Some(extension) => name.append(extension.as_str()),
        None => name.append("mp4"),
    }
    name
}

/// The error for an input path without a file name.
pub open spec fn missing_file_name() -> ErrorModel {
    ErrorModel::Config { field: "input_file"@, message: "Invalid filename"@ }
}

/// The name of the censored copy of an input file, given the stem and the
/// extension of the input: `<stem>_censored.<ext>`, with `mp4` where the
/// input has no extension. An input without a stem is rejected.
pub fn output_file_name(stem: &Option<String>, extension: &Option<String>) -> (r: Result<String>)
    ensures
        match *stem {
            Some(stem) => r matches Ok(name) && name@ == censored_name(
                stem@,
                crate::error::option_view(*extension),
            ),
            None => r matches Err(e) && e@ == missing_file_name(),
        },
{
    match stem {
        Some(stem) => Ok(censored_file_name(stem.as_str(), extension)),
        None => Err(config_error("input_file", "Invalid filename")),
    }
}

impl Config {
    /// What is wrong with the configuration, if anything, given whether the
    /// input file exists and whether it is a regular file. The first
    /// failing check decides: the file, the volume, the fade, the block-list.
    pub open spec fn rejection(&self, present: bool, regular: bool) -> Option<ErrorModel> {
        if !present {
            Some(
                ErrorModel::Config {
                    field: "input_file"@,
                    message: "Input file does not exist: "@ + self.input_file@,
                },
            )
        } else if !regular {
            Some(
                ErrorModel::Config {
                    field: "input_file"@,
                    message: "Input path is not a file: "@ + self.input_file@,
                },
            )
        } else if self.censor_volume > MAX_CENSOR_VOLUME {
            Some(volume_out_of_range(self.censor_volume))
        } else if self.fade_duration > MAX_FADE {
            Some(fade_out_of_range(self.fade_duration))
        } else if self.swear_words@.len() == 0 {
            Some(
                ErrorModel::Config {
                    field: "swear_words"@,
                    message: "Swear words list cannot be empty"@,
                },
            )
        } else {
            None
        }
    }

    /// A builder without any value set.
    pub fn builder() -> (builder: ConfigBuilder)
        ensures
            builder == ConfigBuilder::unset(),
    {
        ConfigBuilder::new()
    }

    /// Validates the configuration, given whether the input file exists
    /// and whether it is a regular file.
    pub fn validate_with(&self, present: bool, regular: bool) -> (r: Result<()>)
        ensures
            outcome_is(r, self.rejection(present, regular)),
    {
        if !present {
            let mut message = "Input file does not exist: ".to_string();
            message.append(self.input_file.as_str());
            return Err(BabymodeError::Config { field: "input_file".to_string(), message });
        }
        if !regular {
            let mut message = "Input path is not a file: ".to_string();
            message.append(self.input_file.as_str());
            return Err(BabymodeError::Config { field: "input_file".to_string(), message });
        }
        if self.censor_volume > MAX_CENSOR_VOLUME {
            return Err(volume_error(self.censor_volume));
        }
        if self.fade_duration > MAX_FADE {
            return Err(fade_error(self.fade_duration));
        }
        if self.swear_words.len() == 0 {
            return Err(config_error("swear_words", "Swear words list cannot be empty"));
        }
        Ok(())
    }

    /// Validates the configuration against the file system as it is at the
    /// moment of the call.
    pub fn validate(&self) -> (r: Result<()>)
        ensures
            exists|present: bool, regular: bool| outcome_is(r, self.rejection(present, regular)),
    {
        let present = path_exists(self.input_file.as_str());
        let regular = path_is_file(self.input_file.as_str());
        let r = self.validate_with(present, regular);
        r
    }

    /// Sets the output file, if none is set, to `<stem>_censored.<ext>`
    /// beside the input file, as the platform reads the input path. An
    /// input path without a file name is rejected.
    pub fn ensure_output_file(&mut self) -> (r: Result<()>)
        ensures
            final(self).input_file == old(self).input_file,
            final(self).whisper_model == old(self).whisper_model,
            final(self).censor_volume == old(self).censor_volume,
            final(self).fade_duration == old(self).fade_duration,
            final(self).swear_words == old(self).swear_words,
            old(self).output_file is Some ==> r is Ok && final(self).output_file == old(
                self,
            ).output_file,
            r is Ok ==> final(self).output_file is Some,
            r matches Err(e) ==> final(self).output_file is None && e@ == missing_file_name(),
    {
        if self.output_file.is_some() {
            return Ok(());
        }
        let stem = path_file_stem(self.input_file.as_str());
        let extension = path_extension(self.input_file.as_str());
        let name = output_file_name(&stem, &extension)?;
        self.output_file = Some(path_with_file_name(self.input_file.as_str(), name.as_str()));
        Ok(())
    }
}

impl Default for Config {
    /// No input, the base model, a tenth of full volume, fades of 200 ms and
    /// the default block-list.
    fn default() -> (config: Self)
        ensures
            config.input_file@ == Seq::<char>::empty(),
            config.output_file is None,
            config.whisper_model == WhisperModel::Base,
            config.censor_volume == 100,
            config.fade_duration == 200,
            views(config.swear_words@) == default_swear_words(),
    {
        let swear_words = default_block_list();
        Config {
            input_file: String::new(),
            output_file: None,
            whisper_model: WhisperModel::Base,
            censor_volume: 100,
            fade_duration: 200,
            swear_words,
        }
    }
}

/// The block-list of a configuration that names none.
pub fn default_block_list() -> (words: Vec<String>)
    ensures
        views(words@) == default_swear_words(),
{
    let words = crate::tool::owned(&["fuck", "shit", "damn", "hell", "ass", "bitch", "bastard"]);
    words
}

/// Collects the values of a configuration step by step.
#[derive(Debug)]
pub struct ConfigBuilder {
    pub input_file: Option<String>,
    pub output_file: Option<String>,
    pub whisper_model: Option<WhisperModel>,
    pub censor_volume: Option<u64>,
    pub fade_duration: Option<u64>,
    pub swear_words: Option<Vec<String>>,
}

/// The normal form of a block-list entry: without surrounding whitespace,
/// in lowercase.
pub open spec fn normalized_entry(word: Seq<char>) -> Seq<char> {
    lowercase(trimmed(word, CharClass::Whitespace))
}

/// The normal forms of the entries, without those that are empty.
pub open spec fn normalized_entries(words: Seq<Seq<char>>) -> Seq<Seq<char>>
    decreases words.len(),
{
    if words.len() == 0 {
        Seq::empty()
    } else {
        let before = normalized_entries(words.drop_last());
        let entry = normalized_entry(words.last());
        if entry.len() == 0 {
            before
        } else {
            before.push(entry)
        }
    }
}

/// Normalizes the entries of a block-list and drops those that are empty.
pub fn normalize_entries(words: &Vec<String>) -> (normalized: Vec<String>)
    ensures
        views(normalized@) == normalized_entries(views(words@)),
{
    let mut normalized: Vec<String> = Vec::new();
    let mut i: usize = 0;
    while i < words.len()
        invariant
            i <= words@.len(),
            views(normalized@) == normalized_entries(views(words@).take(i as int)),
        decreases words@.len() - i,
    {
        let chars = chars_of(words[i].as_str());
        assert(chars@.subrange(0, chars@.len() as int) =~= chars@);
        let (from, to) = trim_bounds(&chars, 0, chars.len(), CharClass::Whitespace);
        let entry = string_of(&chars, from, to).as_str().to_lowercase();
        proof {
            assert(views(words@).take(i + 1).drop_last() =~= views(words@).take(i as int));
        }
        if entry.as_str().unicode_len() != 0 {
            normalized.push(entry);
        }
        i = i + 1;
    }
    assert(views(words@).take(words@.len() as int) =~= views(words@));
    normalized
}

impl ConfigBuilder {
    /// The builder without any value set.
    pub open spec fn unset() -> ConfigBuilder {
        ConfigBuilder {
            input_file: None,
            output_file: None,
            whisper_model: None,
            censor_volume: None,
            fade_duration: None,
            swear_words: None,
        }
    }

    /// A builder without any value set.
    pub fn new() -> (builder: Self)
        ensures
            builder == Self::unset(),
    {
        ConfigBuilder {
            input_file: None,
            output_file: None,
            whisper_model: None,
            censor_volume: None,
            fade_duration: None,
            swear_words: None,
        }
    }

    /// Sets the input file.
    pub fn input_file(self, path: String) -> (builder: Self)
        ensures
            builder == (ConfigBuilder { input_file: Some(path), ..self }),
    {
        ConfigBuilder { input_file: Some(path), ..self }
    }

    /// Sets the output file.
    pub fn output_file(self, path: String) -> (builder: Self)
        ensures
            builder == (ConfigBuilder { output_file: Some(path), ..self }),
    {
        ConfigBuilder { output_file: Some(path), ..self }
    }

    /// Sets the transcription model.
    pub fn whisper_model(self, model: WhisperModel) -> (builder: Self)
        ensures
            builder == (ConfigBuilder { whisper_model: Some(model), ..self }),
    {
        ConfigBuilder { whisper_model: Some(model), ..self }
    }

    /// Sets the volume during censoring, in thousandths of full volume. A
    /// volume above full volume is rejected.
    pub fn censor_volume(self, volume: u64) -> (r: Result<Self>)
        ensures
            volume <= MAX_CENSOR_VOLUME ==> r == Ok::<ConfigBuilder, BabymodeError>(
                ConfigBuilder { censor_volume: Some(volume), ..self },
            ),
            volume > MAX_CENSOR_VOLUME ==> (r matches Err(e) && e@ == volume_out_of_range(volume)),
    {
        if volume > MAX_CENSOR_VOLUME {
            return Err(volume_error(volume));
        }
        Ok(ConfigBuilder { censor_volume: Some(volume), ..self })
    }

    /// Sets the length of a fade, in milliseconds. A fade of more than five
    /// seconds is rejected.
    pub fn fade_duration(self, duration: u64) -> (r: Result<Self>)
        ensures
            duration <= MAX_FADE ==> r == Ok::<ConfigBuilder, BabymodeError>(
                ConfigBuilder { fade_duration: Some(duration), ..self },
            ),
            duration > MAX_FADE ==> (r matches Err(e) && e@ == fade_out_of_range(duration)),
    {
        if duration > MAX_FADE {
            return Err(fade_error(duration));
        }
        Ok(ConfigBuilder { fade_duration: Some(duration), ..self })
    }

    /// Sets the block-list to the normal forms of `words`. An empty list is
    /// rejected, and so is a list with nothing but blank entries.
    pub fn swear_words(self, words: Vec<String>) -> (r: Result<Self>)
        ensures
            words@.len() == 0 ==> (r matches Err(e) && e@ == (ErrorModel::Config {
                field: "swear_words"@,
                message: "Swear words list cannot be empty"@,
            })),
            words@.len() > 0 && normalized_entries(views(words@)).len() == 0 ==> (r matches Err(e)
                && e@ == (ErrorModel::Config {
                field: "swear_words"@,
                message: "No valid words provided"@,
            })),
            normalized_entries(views(words@)).len() > 0 ==> (r matches Ok(builder)
                && builder.input_file == self.input_file && builder.output_file == self.output_file
                && builder.whisper_model == self.whisper_model && builder.censor_volume
                == self.censor_volume && builder.fade_duration == self.fade_duration
                && (builder.swear_words matches Some(list) && views(list@) == normalized_entries(
                views(words@),
            ))),
    {
        if words.len() == 0 {
            return Err(config_error("swear_words", "Swear words list cannot be empty"));
        }
        let normalized = normalize_entries(&words);
        if normalized.len() == 0 {
            return Err(config_error("swear_words", "No valid words provided"));
        }
        Ok(ConfigBuilder { swear_words: Some(normalized), ..self })
    }
}

/// The error for a builder without input file.
pub open spec fn input_required() -> ErrorModel {
    ErrorModel::Config { field: "input_file"@, message: "Input file is required"@ }
}

impl ConfigBuilder {
    /// Whether `config` holds the values of the builder, with the default
    /// for each value that is not set; the output file is left aside.
    pub open spec fn gives(&self, config: &Config) -> bool {
        &&& self.input_file == Some(config.input_file)
        &&& config.whisper_model == match self.whisper_model {
            Some(model) => model,
            None => WhisperModel::Base,
        }
        &&& config.censor_volume == match self.censor_volume {
            Some(volume) => volume,
            None => 100,
        }
        &&& config.fade_duration == match self.fade_duration {
            Some(duration) => duration,
            None => 200,
        }
        &&& views(config.swear_words@) == match self.swear_words {
            Some(words) => views(words@),
            None => default_swear_words(),
        }
    }

    /// The configuration with the values of the builder, before any check
    /// but that of the input file being set.
    pub fn assemble(self) -> (r: Result<Config>)
        ensures
            self.input_file is None ==> (r matches Err(e) && e@ == input_required()),
            self.input_file is Some ==> (r matches Ok(config) && self.gives(&config)
                && config.output_file == self.output_file),
    {
        let input_file = match self.input_file {
            Some(path) => path,
            None => {
                return Err(config_error("input_file", "Input file is required"));
            },
        };
        let whisper_model = match self.whisper_model {
            Some(model) => model,
            None => WhisperModel::Base,
        };
        let censor_volume: u64 = match self.censor_volume {
            Some(volume) => volume,
            None => 100,
        };
        let fade_duration: u64 = match self.fade_duration {
            Some(duration) => duration,
            None => 200,
        };
        let swear_words = match self.swear_words {
            Some(words) => words,
            None => default_block_list(),
        };
        Ok(
            Config {
                input_file,
                output_file: self.output_file,
                whisper_model,
                censor_volume,
                fade_duration,
                swear_words,
            },
        )
    }

    /// Builds the configuration: the values of the builder with the default
    /// for each value that is not set, validated against the file system,
    /// and with the output file set beside the input file if none was given.
    pub fn build(self) -> (r: Result<Config>)
        ensures
            self.input_file is None ==> (r matches Err(e) && e@ == input_required()),
            r matches Ok(config) ==> {
                &&& self.gives(&config)
                &&& config.rejection(true, true) is None
                &&& config.output_file is Some
                &&& self.output_file is Some ==> config.output_file == self.output_file
            },
            r matches Err(e) ==> e@ is Config,
    {
        let mut config = self.assemble()?;
        let checked = config.validate();
        proof {
            let (present, regular) = choose|present: bool, regular: bool|
                outcome_is(checked, config.rejection(present, regular));
        }
        match checked {
            Err(e) => {
                return Err(e);
            },
            Ok(_) => {},
        }
        match config.ensure_output_file() {
            Err(e) => {
                return Err(e);
            },
            Ok(_) => {},
        }
        Ok(config)
    }
}

/// The mathematical model of a [`ConfigBuilder`].
pub struct BuilderModel {
    pub input_file: Option<Seq<char>>,
    pub output_file: Option<Seq<char>>,
    pub whisper_model: Option<WhisperModel>,
    pub censor_volume: Option<u64>,
    pub fade_duration: Option<u64>,
    pub swear_words: Option<Seq<Seq<char>>>,
}

impl View for ConfigBuilder {
    type V = BuilderModel;

    open spec fn view(&self) -> BuilderModel {
        BuilderModel {
            input_file: crate::error::option_view(self.input_file),
            output_file: crate::error::option_view(self.output_file),
            whisper_model: self.whisper_model,
            censor_volume: self.censor_volume,
            fade_duration: self.fade_duration,
            swear_words: match self.swear_words {
                Some(words) => Some(views(words@)),
                None => None,
            },
        }
    }
}

/// Four settings that a configuration file, a profile or the command line
/// may give: the name of the model, the volume, the fade and the
/// block-list.
pub struct Settings {
    pub whisper_model: Option<Seq<char>>,
    pub censor_volume: Option<u64>,
    pub fade_duration: Option<u64>,
    pub swear_words: Option<Seq<Seq<char>>>,
}

/// The builder after the model name is applied, if one is given.
pub open spec fn with_model(builder: BuilderModel, name: Option<Seq<char>>) -> std::result::Result<
    BuilderModel,
    ErrorModel,
> {
    match name {
        None => Ok(builder),
        Some(name) => match model_named(name) {
            Some(model) => Ok(BuilderModel { whisper_model: Some(model), ..builder }),
            None => Err(invalid_model(name)),
        },
    }
}

/// The builder after the volume is applied, if one is given.
pub open spec fn with_volume(builder: BuilderModel, volume: Option<u64>) -> std::result::Result<
    BuilderModel,
    ErrorModel,
> {
    match volume {
        None => Ok(builder),
        Some(volume) => if volume <= MAX_CENSOR_VOLUME {
            Ok(BuilderModel { censor_volume: Some(volume), ..builder })
        } else {
            Err(volume_out_of_range(volume))
        },
    }
}

/// The builder after the fade is applied, if one is given.
pub open spec fn with_fade(builder: BuilderModel, duration: Option<u64>) -> std::result::Result<
    BuilderModel,
    ErrorModel,
> {
    match duration {
        None => Ok(builder),
        Some(duration) => if duration <= MAX_FADE {
            Ok(BuilderModel { fade_duration: Some(duration), ..builder })
        } else {
            Err(fade_out_of_range(duration))
        },
    }
}

/// The builder after the block-list is applied, if one is given.
pub open spec fn with_words(builder: BuilderModel, words: Option<Seq<Seq<char>>>)
    -> std::result::Result<BuilderModel, ErrorModel> {
    match words {
        None => Ok(builder),
        Some(words) => if words.len() == 0 {
            Err(
                ErrorModel::Config {
                    field: "swear_words"@,
                    message: "Swear words list cannot be empty"@,
                },
            )
        } else if normalized_entries(words).len() == 0 {
            Err(ErrorModel::Config { field: "swear_words"@, message: "No valid words provided"@ })
        } else {
            Ok(BuilderModel { swear_words: Some(normalized_entries(words)), ..builder })
        },
    }
}

/// The builder after the four settings are applied in turn: the model, the
/// volume, the fade, the block-list. The first setting that is rejected
/// decides.
pub open spec fn with_settings(builder: BuilderModel, settings: Settings) -> std::result::Result<
    BuilderModel,
    ErrorModel,
> {
    match with_model(builder, settings.whisper_model) {
        Err(e) => Err(e),
        Ok(builder) => match with_volume(builder, settings.censor_volume) {
            Err(e) => Err(e),
            Ok(builder) => match with_fade(builder, settings.fade_duration) {
                Err(e) => Err(e),
                Ok(builder) => with_words(builder, settings.swear_words),
            },
        },
    }
}

/// Whether `r` is the outcome `expected`: the builder with that model, or
/// that error.
pub open spec fn builder_outcome(
    r: Result<ConfigBuilder>,
    expected: std::result::Result<BuilderModel, ErrorModel>,
) -> bool {
    match expected {
        Ok(model) => r matches Ok(builder) && builder@ == model,
        Err(error) => r matches Err(e) && e@ == error,
    }
}

impl ConfigBuilder {
    /// Applies up to four settings to the builder, in this order: the name
    /// of the model, the volume, the fade, the block-list. The first
    /// setting that is rejected ends it.
    pub fn apply_settings(
        self,
        whisper_model: &Option<String>,
        censor_volume: Option<u64>,
        fade_duration: Option<u64>,
        swear_words: &Option<Vec<String>>,
    ) -> (r: Result<ConfigBuilder>)
        ensures
            builder_outcome(
                r,
                with_settings(
                    self@,
                    Settings {
                        whisper_model: crate::error::option_view(*whisper_model),
                        censor_volume,
                        fade_duration,
                        swear_words: match *swear_words {
                            Some(words) => Some(views(words@)),
                            None => None,
                        },
                    },
                ),
            ),
    {
        let mut builder = self;
        match whisper_model {
            Some(name) => {
                let model = WhisperModel::parse(name.as_str())?;
                builder = builder.whisper_model(model);
            },
            None => {},
        }
        match censor_volume {
            Some(volume) => {
                builder = builder.censor_volume(volume)?;
            },
            None => {},
        }
        match fade_duration {
            Some(duration) => {
                builder = builder.fade_duration(duration)?;
            },
            None => {},
        }
        match swear_words {
            Some(words) => {
                let copy = copy_strings(words);
                builder = builder.swear_words(copy)?;
            },
            None => {},
        }
        Ok(builder)
    }
}

/// A copy of a list of strings.
pub fn copy_strings(strings: &Vec<String>) -> (copy: Vec<String>)
    ensures
        views(copy@) == views(strings@),
{
    let mut copy: Vec<String> = Vec::new();
    let mut i: usize = 0;
    while i < strings.len()
        invariant
            i <= strings@.len(),
            views(copy@) == views(strings@).take(i as int),
        decreases strings@.len() - i,
    {
        let ghost before = views(copy@);
        copy.push(strings[i].clone());
        assert(views(copy@) =~= before.push(strings@[i as int]@));
        i = i + 1;
    }
    copy
}

} // verus!
