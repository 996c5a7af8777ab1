//! Configuration files: the settings that a file gives, its named
//! profiles, and how both are applied to a configuration builder.

use crate::config::{
    builder_outcome, with_settings, BuilderModel, ConfigBuilder, Settings,
};
use crate::error::{option_view, BabymodeError, ErrorModel, Result};
use crate::paths::{path_extension, path_join};
use crate::text::views;
use crate::tool::owned;
use vstd::prelude::*;
use vstd::string::*;

verus! {

/// The settings of one named profile.
#[derive(Debug, Clone)]
pub struct ProfileConfig {
    /// The name of the transcription model.
    pub whisper_model: Option<String>,
    /// The volume during censoring, in thousandths of full volume.
    pub censor_volume: Option<u64>,
    /// The length of a fade, in milliseconds.
    pub fade_duration: Option<u64>,
    /// The block-list.
    pub swear_words: Option<Vec<String>>,
    /// What the profile is for.
    pub description: Option<String>,
}

/// What a configuration file holds.
#[derive(Debug, Clone)]
pub struct ConfigFile {
    /// The name of the transcription model.
    pub whisper_model: Option<String>,
    /// The volume during censoring, in thousandths of full volume.
    pub censor_volume: Option<u64>,
    /// The length of a fade, in milliseconds.
    pub fade_duration: Option<u64>,
    /// The block-list.
    pub swear_words: Option<Vec<String>>,
    /// The directory for output files.
    pub output_directory: Option<String>,
    /// Whether progress is shown.
    pub show_progress: Option<bool>,
    /// The language of the audio.
    pub language: Option<String>,
    /// The profiles by name. A name stands for the first profile that
    /// carries it.
    pub profiles: Option<Vec<(String, ProfileConfig)>>,
}

/// The characters of an optional list of strings.
pub open spec fn option_views(list: Option<Vec<String>>) -> Option<Seq<Seq<char>>> {
    match list {
        Some(list) => Some(views(list@)),
        None => None,
    }
}

impl ProfileConfig {
    /// The four settings of the profile.
    pub open spec fn settings(&self) -> Settings {
        Settings {
            whisper_model: option_view(self.whisper_model),
            censor_volume: self.censor_volume,
            fade_duration: self.fade_duration,
            swear_words: option_views(self.swear_words),
        }
    }
}

/// The formats of a configuration file.
#[derive(Debug, Clone, Copy, PartialEq, Eq, Structural)]
pub enum ConfigFormat {
    Yaml,
    Json,
}

/// The format that an extension stands for, or the error for a file name
/// that stands for none.
pub open spec fn format_for(extension: Option<Seq<char>>) -> std::result::Result<
    ConfigFormat,
    ErrorModel,
> {
    match extension {
        Some(extension) => if extension == "yaml"@ || extension == "yml"@ {
            Ok(ConfigFormat::Yaml)
        } else if extension == "json"@ {
            Ok(ConfigFormat::Json)
        } else {
            Err(
                ErrorModel::UnsupportedFormat {
                    extension,
                    supported: seq!["yaml"@, "yml"@, "json"@],
                },
            )
        },
        None => Err(
            ErrorModel::Config {
                field: "config_file"@,
                message: "Config file must have .yaml, .yml, or .json extension"@,
            },
        ),
    }
}

/// Whether `r` is what the extension calls for: the format, or the error.
pub open spec fn format_outcome(r: Result<ConfigFormat>, extension: Option<Seq<char>>) -> bool {
    match format_for(extension) {
        Ok(format) => r == Ok::<ConfigFormat, BabymodeError>(format),
        Err(error) => r matches Err(e) && e@ == error,
    }
}

/// The places where a configuration file is looked for, in order: three
/// names in the working directory, then the place under the configuration
/// directory and the place under the home directory.
pub open spec fn config_places(config_place: Seq<char>, home_place: Seq<char>) -> Seq<Seq<char>> {
    seq![".babymode.yaml"@, ".babymode.yml"@, ".babymode.json"@, config_place, home_place]
}

/// Whether position `i` of `profiles` holds the first profile named
/// `name`.
pub open spec fn profile_at(profiles: Seq<(String, ProfileConfig)>, name: Seq<char>, i: int)
    -> bool {
    &&& 0 <= i < profiles.len()
    &&& profiles[i].0@ == name
    &&& forall|k: int| 0 <= k < i ==> (#[trigger] profiles[k]).0@ != name
}

/// The names of the profiles, in order.
pub open spec fn profile_names(profiles: Seq<(String, ProfileConfig)>) -> Seq<Seq<char>> {
    profiles.map_values(|p: (String, ProfileConfig)| p.0@)
}

/// The error for a file without profiles.
pub open spec fn no_profiles() -> ErrorModel {
    ErrorModel::Config { field: "profiles"@, message: "No profiles defined"@ }
}

/// The error for a profile that the file does not hold.
pub open spec fn profile_not_found(name: Seq<char>) -> ErrorModel {
    ErrorModel::Config { field: "profile"@, message: "Profile '"@ + name + "' not found"@ }
}

impl ConfigFile {
    /// The four settings of the file itself.
    pub open spec fn settings(&self) -> Settings {
        Settings {
            whisper_model: option_view(self.whisper_model),
            censor_volume: self.censor_volume,
            fade_duration: self.fade_duration,
            swear_words: option_views(self.swear_words),
        }
    }

    /// What applying the profile `name` gives: the error for a file
    /// without profiles or without this one, else the settings of the file
    /// and then those of the profile, applied to the builder.
    pub open spec fn with_profile(&self, name: Seq<char>, builder: BuilderModel)
        -> std::result::Result<BuilderModel, ErrorModel> {
        match self.profiles {
            None => Err(no_profiles()),
            Some(profiles) => if exists|i: int| profile_at(profiles@, name, i) {
                let profile = profiles@[choose|i: int| profile_at(profiles@, name, i)].1;
                match with_settings(builder, self.settings()) {
                    Err(e) => Err(e),
                    Ok(builder) => with_settings(builder, profile.settings()),
                }
            } else {
                Err(profile_not_found(name))
            },
        }
    }

    /// Decides the format of the configuration file at `path` by the
    /// extension that the platform reads from the path.
    pub fn format_of(path: &str) -> (r: Result<ConfigFormat>)
        ensures
            exists|extension: Option<Seq<char>>| format_outcome(r, extension),
    {
        let extension = path_extension(path);
        let r = Self::format_for_extension(&extension);
        r
    }

    /// Decides the format of a configuration file by its extension: `yaml`
    /// and `yml` stand for YAML, `json` for JSON.
    pub fn format_for_extension(extension: &Option<String>) -> (r: Result<ConfigFormat>)
        ensures
            format_outcome(r, option_view(*extension)),
    {
        match extension {
            Some(extension) => {
                if *extension == "yaml".to_string() || *extension == "yml".to_string() {
                    Ok(ConfigFormat::Yaml)
                } else if *extension == "json".to_string() {
                    Ok(ConfigFormat::Json)
                } else {
                    let args = ["yaml", "yml", "json"];
                    assert(args@.map_values(|p: &str| p@) =~= seq!["yaml"@, "yml"@, "json"@]);
                    Err(
                        BabymodeError::UnsupportedFormat {
                            extension: extension.clone(),
                            supported: owned(&args),
                        },
                    )
                }
            },
            None => Err(
                BabymodeError::Config {
                    field: "config_file".to_string(),
                    message: "Config file must have .yaml, .yml, or .json extension".to_string(),
                },
            ),
        }
    }

    /// The error for a configuration file that cannot be parsed; `detail`
    /// is the report of the parser.
    pub fn parse_failure(format: ConfigFormat, detail: &str) -> (e: BabymodeError)
        ensures
            e@ == (ErrorModel::Config {
                field: "config_file"@,
                message: match format {
                    ConfigFormat::Yaml => "Failed to parse YAML config: "@,
                    ConfigFormat::Json => "Failed to parse JSON config: "@,
                } + detail@,
            }),
    {
        let mut message = match format {
            ConfigFormat::Yaml => "Failed to parse YAML config: ".to_string(),
            ConfigFormat::Json => "Failed to parse JSON config: ".to_string(),
        };
        message.append(detail);
        BabymodeError::Config { field: "config_file".to_string(), message }
    }

    /// The error for a configuration that cannot be written out; `detail`
    /// is the report of the serializer.
    pub fn serialize_failure(format: ConfigFormat, detail: &str) -> (e: BabymodeError)
        ensures
            e@ == (ErrorModel::Config {
                field: "config_file"@,
                message: match format {
                    ConfigFormat::Yaml => "Failed to serialize config to YAML: "@,
                    ConfigFormat::Json => "Failed to serialize config to JSON: "@,
                } + detail@,
            }),
    {
        let mut message = match format {
            ConfigFormat::Yaml => "Failed to serialize config to YAML: ".to_string(),
            ConfigFormat::Json => "Failed to serialize config to JSON: ".to_string(),
        };
        message.append(detail);
        BabymodeError::Config { field: "config_file".to_string(), message }
    }

    /// The places where a configuration file is looked for, given the two
    /// that depend on the user.
    pub fn config_paths_in(config_place: String, home_place: String) -> (paths: Vec<String>)
        ensures
            views(paths@) == config_places(config_place@, home_place@),
    {
        let mut paths: Vec<String> = Vec::new();
        paths.push(".babymode.yaml".to_string());
        paths.push(".babymode.yml".to_string());
        paths.push(".babymode.json".to_string());
        paths.push(config_place);
        paths.push(home_place);
        paths
    }

    /// The places where a configuration file is looked for, in order:
    /// three names in the working directory, then `babymode/config.yaml`
    /// under the configuration directory of the user and
    /// `.config/babymode.yaml` under the home directory, as the
    /// environment gives the two directories and the platform joins paths;
    /// the working directory stands in for a directory that is not known.
    pub fn default_config_paths() -> (paths: Vec<String>)
        ensures
            exists|config_place: Seq<char>, home_place: Seq<char>|
                views(paths@) == config_places(config_place, home_place),
    {
        let config_base = match config_dir() {
            Some(dir) => dir,
            None => ".".to_string(),
        };
        let home_base = match home_dir() {
            Some(dir) => dir,
            None => ".".to_string(),
        };
        let config_place = path_join(
            path_join(config_base.as_str(), "babymode").as_str(),
            "config.yaml",
        );
        let home_place = path_join(
            path_join(home_base.as_str(), ".config").as_str(),
            "babymode.yaml",
        );
        let paths = Self::config_paths_in(config_place, home_place);
        paths
    }

    /// Applies the settings of the file to `builder`.
    pub fn apply_to_builder(&self, builder: ConfigBuilder) -> (r: Result<ConfigBuilder>)
        ensures
            builder_outcome(r, with_settings(builder@, self.settings())),
    {
        builder.apply_settings(
            &self.whisper_model,
            self.censor_volume,
            self.fade_duration,
            &self.swear_words,
        )
    }

    /// The position of the first profile named `name`.
    fn find_profile(profiles: &Vec<(String, ProfileConfig)>, name: &str) -> (at: Option<usize>)
        ensures
            match at {
                Some(i) => profile_at(profiles@, name@, i as int),
                None => forall|i: int| !profile_at(profiles@, name@, i),
            },
    {
        let wanted = name.to_string();
        let mut i: usize = 0;
        while i < profiles.len()
            invariant
                i <= profiles@.len(),
                wanted@ == name@,
                forall|k: int| 0 <= k < i ==> (#[trigger] profiles@[k]).0@ != name@,
            decreases profiles@.len() - i,
        {
            if profiles[i].0 == wanted {
                return Some(i);
            }
            i = i + 1;
        }
        None
    }

    /// Applies the settings of the file, and then those of the profile
    /// `profile_name`, to `builder`. A file without profiles is an error,
    /// and so is a name that no profile carries.
    pub fn apply_profile_to_builder(&self, profile_name: &str, builder: ConfigBuilder) -> (r:
        Result<ConfigBuilder>)
        ensures
            builder_outcome(r, self.with_profile(profile_name@, builder@)),
    {
        let profiles = match &self.profiles {
            Some(profiles) => profiles,
            None => {
                return Err(
                    BabymodeError::Config {
                        field: "profiles".to_string(),
                        message: "No profiles defined".to_string(),
                    },
                );
            },
        };
        let at = match Self::find_profile(profiles, profile_name) {
            Some(at) => at,
            None => {
                let mut message = "Profile '".to_string();
                message.append(profile_name);
                message.append("' not found");
                return Err(BabymodeError::Config { field: "profile".to_string(), message });
            },
        };
        let profile = &profiles[at].1;
        let builder = self.apply_to_builder(builder)?;
        builder.apply_settings(
            &profile.whisper_model,
            profile.censor_volume,
            profile.fade_duration,
            &profile.swear_words,
        )
    }

    /// The names of the profiles, in the order of the file.
    pub fn list_profiles(&self) -> (names: Vec<String>)
        ensures
            views(names@) == match self.profiles {
                Some(profiles) => profile_names(profiles@),
                None => Seq::empty(),
            },
    {
        let mut names: Vec<String> = Vec::new();
        match &self.profiles {
            Some(profiles) => {
                let mut i: usize = 0;
                while i < profiles.len()
                    invariant
                        i <= profiles@.len(),
                        views(names@) == profile_names(profiles@.take(i as int)),
                    decreases profiles@.len() - i,
                {
                    let ghost before = views(names@);
                    names.push(profiles[i].0.clone());
                    assert(views(names@) =~= before.push(profiles@[i as int].0@));
                    i = i + 1;
                }
            },
            None => {
            },
        }
        names
    }
}

/// `dirs::config_dir`: the configuration directory of the user, as the
/// environment gives it at the moment of the call.
#[verifier::external_body]
fn config_dir() -> Option<String> {
    dirs::config_dir().map(|p| p.to_string_lossy().into_owned())
}

/// `dirs::home_dir`: the home directory of the user, as the environment
/// gives it at the moment of the call.
#[verifier::external_body]
fn home_dir() -> Option<String> {
    dirs::home_dir().map(|p| p.to_string_lossy().into_owned())
}

/// The settings of the default profile number `i`: `strict`, `mild` and
/// `family`.
pub open spec fn default_profile_settings(i: int) -> Settings {
    if i == 0 {
        Settings {
            whisper_model: Some("base"@),
            censor_volume: Some(0),
            fade_duration: Some(100),
            swear_words: Some(
                seq![
                    "fuck"@,
                    "shit"@,
                    "damn"@,
                    "hell"@,
                    "ass"@,
                    "bitch"@,
                    "bastard"@,
                    "crap"@,
                    "piss"@,
                ],
            ),
        }
    } else if i == 1 {
        Settings {
            whisper_model: Some("tiny"@),
            censor_volume: Some(300),
            fade_duration: Some(300),
            swear_words: Some(seq!["fuck"@, "shit"@]),
        }
    } else {
        Settings {
            whisper_model: Some("small"@),
            censor_volume: Some(50),
            fade_duration: Some(200),
            swear_words: Some(
                seq!["fuck"@, "shit"@, "damn"@, "hell"@, "ass"@, "bitch"@, "bastard"@],
            ),
        }
    }
}

/// The description of the default profile number `i`.
pub open spec fn default_profile_description(i: int) -> Seq<char> {
    if i == 0 {
        "Strict censoring with complete silence"@
    } else if i == 1 {
        "Mild censoring for minor profanity only"@
    } else {
        "Family-friendly censoring profile"@
    }
}

/// Builds a profile.
fn profile(model: &str, volume: u64, fade: u64, words: &[&str], description: &str) -> (p:
    ProfileConfig)
    ensures
        p.settings() == (Settings {
            whisper_model: Some(model@),
            censor_volume: Some(volume),
            fade_duration: Some(fade),
            swear_words: Some(words@.map_values(|w: &str| w@)),
        }),
        option_view(p.description) == Some(description@),
{
    ProfileConfig {
        whisper_model: Some(model.to_string()),
        censor_volume: Some(volume),
        fade_duration: Some(fade),
        swear_words: Some(owned(words)),
        description: Some(description.to_string()),
    }
}

impl Default for ConfigFile {
    /// The base model, a tenth of full volume, fades of 200 ms, progress
    /// shown, English, and the three profiles `strict`, `mild` and
    /// `family`.
    fn default() -> (file: Self)
        ensures
            file.settings() == (Settings {
                whisper_model: Some("base"@),
                censor_volume: Some(100),
                fade_duration: Some(200),
                swear_words: None,
            }),
            file.output_directory is None,
            file.show_progress == Some(true),
            option_view(file.language) == Some("en"@),
            file.profiles matches Some(profiles) && profile_names(profiles@) == seq![
                "strict"@,
                "mild"@,
                "family"@,
            ] && forall|i: int|
                0 <= i < 3 ==> (#[trigger] profiles@[i]).1.settings() == default_profile_settings(i)
                    && option_view(profiles@[i].1.description) == Some(
                    default_profile_description(i),
                ),
    {
        let strict_words = [
            "fuck",
            "shit",
            "damn",
            "hell",
            "ass",
            "bitch",
            "bastard",
            "crap",
            "piss",
        ];
        let mild_words = ["fuck", "shit"];
        let family_words = ["fuck", "shit", "damn", "hell", "ass", "bitch", "bastard"];
        proof {
            assert(strict_words@.map_values(|w: &str| w@) =~= default_profile_settings(
                0,
            ).swear_words->0);
            assert(mild_words@.map_values(|w: &str| w@) =~= default_profile_settings(
                1,
            ).swear_words->0);
            assert(family_words@.map_values(|w: &str| w@) =~= default_profile_settings(
                2,
            ).swear_words->0);
        }
        let strict = profile(
            "base",
            0,
            100,
            &strict_words,
            "Strict censoring with complete silence",
        );
        let mild = profile("tiny", 300, 300, &mild_words, "Mild censoring for minor profanity only");
        let family = profile("small", 50, 200, &family_words, "Family-friendly censoring profile");
        let mut profiles: Vec<(String, ProfileConfig)> = Vec::new();
        profiles.push(("strict".to_string(), strict));
        profiles.push(("mild".to_string(), mild));
        profiles.push(("family".to_string(), family));
        ConfigFile {
            whisper_model: Some("base".to_string()),
            censor_volume: Some(100),
            fade_duration: Some(200),
            swear_words: None,
            output_directory: None,
            show_progress: Some(true),
            language: Some("en".to_string()),
            profiles: Some(profiles),
        }
    }
}

} // verus!
