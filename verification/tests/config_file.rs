use babymode::cli::{configure, parse_config, CliOptions};
use babymode::config::{ConfigBuilder, WhisperModel};
use babymode::config_file::{ConfigFile, ConfigFormat, ProfileConfig};
use babymode::BabymodeError;

fn words(list: &[&str]) -> Vec<String> {
    list.iter().map(|w| w.to_string()).collect()
}

fn empty_file() -> ConfigFile {
    ConfigFile {
        whisper_model: None,
        censor_volume: None,
        fade_duration: None,
        swear_words: None,
        output_directory: None,
        show_progress: None,
        language: None,
        profiles: None,
    }
}

fn no_options() -> CliOptions {
    CliOptions {
        input: Some(String::from("movie.mp4")),
        output: None,
        model: None,
        volume: None,
        fade: None,
        words: None,
        profile: None,
    }
}

#[test]
fn test_profile_listing() {
    let config = ConfigFile::default();
    let profiles = config.list_profiles();

    assert!(profiles.contains(&"strict".to_string()));
    assert!(profiles.contains(&"mild".to_string()));
    assert!(profiles.contains(&"family".to_string()));
}

#[test]
fn test_apply_profile() {
    let config = ConfigFile::default();
    let builder = ConfigBuilder::new();

    // Apply strict profile
    let result = config.apply_profile_to_builder("strict", builder);
    assert!(result.is_ok());
}

#[test]
fn default_file() {
    let file = ConfigFile::default();
    assert_eq!(file.whisper_model.as_deref(), Some("base"));
    assert_eq!(file.censor_volume, Some(100));
    assert_eq!(file.fade_duration, Some(200));
    assert_eq!(file.swear_words, None);
    assert_eq!(file.output_directory, None);
    assert_eq!(file.show_progress, Some(true));
    assert_eq!(file.language.as_deref(), Some("en"));
    assert_eq!(file.list_profiles(), vec!["strict", "mild", "family"]);
    let profiles = file.profiles.unwrap();
    let (_, strict) = &profiles[0];
    assert_eq!(strict.censor_volume, Some(0));
    assert_eq!(strict.fade_duration, Some(100));
    assert_eq!(strict.whisper_model.as_deref(), Some("base"));
    assert_eq!(
        strict.swear_words,
        Some(words(&["fuck", "shit", "damn", "hell", "ass", "bitch", "bastard", "crap", "piss"]))
    );
    assert_eq!(strict.description.as_deref(), Some("Strict censoring with complete silence"));
    let (_, mild) = &profiles[1];
    assert_eq!(mild.censor_volume, Some(300));
    assert_eq!(mild.fade_duration, Some(300));
    assert_eq!(mild.whisper_model.as_deref(), Some("tiny"));
    assert_eq!(mild.swear_words, Some(words(&["fuck", "shit"])));
    assert_eq!(mild.description.as_deref(), Some("Mild censoring for minor profanity only"));
    let (_, family) = &profiles[2];
    assert_eq!(family.censor_volume, Some(50));
    assert_eq!(family.fade_duration, Some(200));
    assert_eq!(family.whisper_model.as_deref(), Some("small"));
    assert_eq!(
        family.swear_words,
        Some(words(&["fuck", "shit", "damn", "hell", "ass", "bitch", "bastard"]))
    );
    assert_eq!(family.description.as_deref(), Some("Family-friendly censoring profile"));
    assert!(empty_file().list_profiles().is_empty());
}

#[test]
fn format_by_extension() {
    let format = |e: Option<&str>| ConfigFile::format_for_extension(&e.map(|e| e.to_string()));
    assert_eq!(format(Some("yaml")).unwrap(), ConfigFormat::Yaml);
    assert_eq!(format(Some("yml")).unwrap(), ConfigFormat::Yaml);
    assert_eq!(format(Some("json")).unwrap(), ConfigFormat::Json);
    assert_eq!(
        format(Some("toml")).unwrap_err().to_string(),
        "Unsupported file format 'toml'. Supported formats: yaml, yml, json"
    );
    assert!(matches!(
        format(Some("YAML")).unwrap_err(),
        BabymodeError::UnsupportedFormat { ref extension, .. } if extension == "YAML"
    ));
    assert_eq!(
        format(None).unwrap_err().to_string(),
        "Configuration error in 'config_file': Config file must have .yaml, .yml, or .json extension"
    );
    assert_eq!(ConfigFile::format_of("/etc/babymode/config.yaml").unwrap(), ConfigFormat::Yaml);
    assert_eq!(ConfigFile::format_of(".babymode.json").unwrap(), ConfigFormat::Json);
    assert!(ConfigFile::format_of(".babymode").is_err());
    assert!(ConfigFile::format_of("config.yaml.bak").is_err());
}

#[test]
fn failures_of_parser_and_serializer() {
    assert_eq!(
        ConfigFile::parse_failure(ConfigFormat::Yaml, "line 3").to_string(),
        "Configuration error in 'config_file': Failed to parse YAML config: line 3"
    );
    assert_eq!(
        ConfigFile::parse_failure(ConfigFormat::Json, "eof").to_string(),
        "Configuration error in 'config_file': Failed to parse JSON config: eof"
    );
    assert_eq!(
        ConfigFile::serialize_failure(ConfigFormat::Yaml, "x").to_string(),
        "Configuration error in 'config_file': Failed to serialize config to YAML: x"
    );
    assert_eq!(
        ConfigFile::serialize_failure(ConfigFormat::Json, "x").to_string(),
        "Configuration error in 'config_file': Failed to serialize config to JSON: x"
    );
}

#[test]
fn places_of_the_configuration_file() {
    assert_eq!(
        ConfigFile::config_paths_in(String::from("/c/babymode/config.yaml"), String::from("/h")),
        vec![".babymode.yaml", ".babymode.yml", ".babymode.json", "/c/babymode/config.yaml", "/h"]
    );
    let paths = ConfigFile::default_config_paths();
    assert_eq!(paths.len(), 5);
    assert_eq!(&paths[..3], &[".babymode.yaml", ".babymode.yml", ".babymode.json"]);
    let sep = std::path::MAIN_SEPARATOR;
    assert!(paths[3].ends_with(&format!("babymode{}config.yaml", sep)));
    assert!(paths[4].ends_with(&format!(".config{}babymode.yaml", sep)));
}

#[test]
fn settings_of_the_file_are_applied_in_order() {
    let file = ConfigFile {
        whisper_model: Some(String::from("LARGE")),
        censor_volume: Some(250),
        fade_duration: Some(1000),
        swear_words: Some(words(&[" Darn ", "  "])),
        ..empty_file()
    };
    let builder = file.apply_to_builder(ConfigBuilder::new()).unwrap();
    assert_eq!(builder.whisper_model, Some(WhisperModel::Large));
    assert_eq!(builder.censor_volume, Some(250));
    assert_eq!(builder.fade_duration, Some(1000));
    assert_eq!(builder.swear_words, Some(words(&["darn"])));
    assert_eq!(builder.input_file, None);

    let builder = empty_file().apply_to_builder(ConfigBuilder::new().censor_volume(7).unwrap());
    let builder = builder.unwrap();
    assert_eq!(builder.censor_volume, Some(7));
    assert_eq!(builder.whisper_model, None);

    let all_bad = ConfigFile {
        whisper_model: Some(String::from("huge")),
        censor_volume: Some(2000),
        fade_duration: Some(9000),
        swear_words: Some(Vec::new()),
        ..empty_file()
    };
    let error = |file: &ConfigFile| {
        file.apply_to_builder(ConfigBuilder::new()).unwrap_err().to_string()
    };
    assert!(error(&all_bad).starts_with("Configuration error in 'whisper_model': Invalid model 'huge'"));
    let file = ConfigFile { whisper_model: None, ..all_bad };
    assert!(error(&file).starts_with("Configuration error in 'censor_volume'"));
    let file = ConfigFile { censor_volume: None, ..file };
    assert!(error(&file).starts_with("Configuration error in 'fade_duration'"));
    let file = ConfigFile { fade_duration: None, ..file };
    assert_eq!(error(&file), "Configuration error in 'swear_words': Swear words list cannot be empty");
    let file = ConfigFile { swear_words: Some(words(&[" "])), ..file };
    assert_eq!(error(&file), "Configuration error in 'swear_words': No valid words provided");
}

#[test]
fn a_profile_overrides_the_file() {
    let file = ConfigFile::default();
    let builder = file.apply_profile_to_builder("mild", ConfigBuilder::new()).unwrap();
    assert_eq!(builder.whisper_model, Some(WhisperModel::Tiny));
    assert_eq!(builder.censor_volume, Some(300));
    assert_eq!(builder.fade_duration, Some(300));
    assert_eq!(builder.swear_words, Some(words(&["fuck", "shit"])));

    let partial = ProfileConfig {
        whisper_model: None,
        censor_volume: Some(1),
        fade_duration: None,
        swear_words: None,
        description: None,
    };
    let shadowed = ProfileConfig { censor_volume: Some(2), ..partial.clone() };
    let file = ConfigFile {
        profiles: Some(vec![
            (String::from("quiet"), partial),
            (String::from("quiet"), shadowed),
        ]),
        ..ConfigFile::default()
    };
    let builder = file.apply_profile_to_builder("quiet", ConfigBuilder::new()).unwrap();
    assert_eq!(builder.whisper_model, Some(WhisperModel::Base));
    assert_eq!(builder.censor_volume, Some(1));
    assert_eq!(builder.fade_duration, Some(200));
    assert_eq!(builder.swear_words, None);
    assert_eq!(file.list_profiles(), vec!["quiet", "quiet"]);
}

#[test]
fn profile_errors() {
    assert_eq!(
        empty_file().apply_profile_to_builder("strict", ConfigBuilder::new()).unwrap_err().to_string(),
        "Configuration error in 'profiles': No profiles defined"
    );
    assert_eq!(
        ConfigFile::default()
            .apply_profile_to_builder("Strict", ConfigBuilder::new())
            .unwrap_err()
            .to_string(),
        "Configuration error in 'profile': Profile 'Strict' not found"
    );
    // a missing profile is reported before a bad setting of the file
    let file = ConfigFile { censor_volume: Some(5000), ..ConfigFile::default() };
    assert_eq!(
        file.apply_profile_to_builder("none", ConfigBuilder::new()).unwrap_err().to_string(),
        "Configuration error in 'profile': Profile 'none' not found"
    );
    // and a bad setting of the file before the profile is applied
    assert!(file
        .apply_profile_to_builder("strict", ConfigBuilder::new())
        .unwrap_err()
        .to_string()
        .starts_with("Configuration error in 'censor_volume'"));
    let bad_profile = ProfileConfig {
        whisper_model: Some(String::from("giant")),
        censor_volume: None,
        fade_duration: None,
        swear_words: None,
        description: None,
    };
    let file = ConfigFile {
        profiles: Some(vec![(String::from("p"), bad_profile)]),
        ..ConfigFile::default()
    };
    assert!(file
        .apply_profile_to_builder("p", ConfigBuilder::new())
        .unwrap_err()
        .to_string()
        .starts_with("Configuration error in 'whisper_model': Invalid model 'giant'"));
}

#[test]
fn the_command_line_overrides_the_file() {
    let options = CliOptions {
        output: Some(String::from("clean.mp4")),
        model: Some(String::from("medium")),
        volume: Some(0),
        words: Some(words(&["Heck"])),
        ..no_options()
    };
    let builder = configure(&options, &Some(ConfigFile::default())).unwrap();
    assert_eq!(builder.input_file.as_deref(), Some("movie.mp4"));
    assert_eq!(builder.output_file.as_deref(), Some("clean.mp4"));
    assert_eq!(builder.whisper_model, Some(WhisperModel::Medium));
    assert_eq!(builder.censor_volume, Some(0));
    assert_eq!(builder.fade_duration, Some(200));
    assert_eq!(builder.swear_words, Some(words(&["heck"])));

    let builder = configure(&no_options(), &None).unwrap();
    assert_eq!(builder.input_file.as_deref(), Some("movie.mp4"));
    assert_eq!(builder.output_file, None);
    assert_eq!(builder.whisper_model, None);
    assert_eq!(builder.censor_volume, None);
    assert_eq!(builder.fade_duration, None);
    assert_eq!(builder.swear_words, None);

    let options = CliOptions { profile: Some(String::from("family")), fade: Some(50), ..no_options() };
    let builder = configure(&options, &Some(ConfigFile::default())).unwrap();
    assert_eq!(builder.whisper_model, Some(WhisperModel::Small));
    assert_eq!(builder.censor_volume, Some(50));
    assert_eq!(builder.fade_duration, Some(50));
    // without a file the profile is not looked up
    let builder = configure(&options, &None).unwrap();
    assert_eq!(builder.whisper_model, None);
    assert_eq!(builder.fade_duration, Some(50));
}

#[test]
fn command_line_errors() {
    let options = CliOptions { input: None, volume: Some(9999), ..no_options() };
    assert_eq!(
        configure(&options, &Some(ConfigFile::default())).unwrap_err().to_string(),
        "Configuration error in 'input': Input file is required"
    );
    assert_eq!(
        parse_config(&options, &None).unwrap_err().to_string(),
        "Configuration error in 'input': Input file is required"
    );
    let options = CliOptions { profile: Some(String::from("none")), volume: Some(9999), ..no_options() };
    assert_eq!(
        configure(&options, &Some(ConfigFile::default())).unwrap_err().to_string(),
        "Configuration error in 'profile': Profile 'none' not found"
    );
    assert_eq!(
        configure(&options, &None).unwrap_err().to_string(),
        "Configuration error in 'censor_volume': Volume must be between 0.0 and 1.0, got 9.999"
    );
    let options = CliOptions { model: Some(String::from("x")), ..no_options() };
    assert!(configure(&options, &None).is_err());
    let options = CliOptions { input: Some(String::from("/nonexistent/dir/a.mp4")), ..no_options() };
    assert_eq!(
        parse_config(&options, &None).unwrap_err().to_string(),
        "Configuration error in 'input_file': Input file does not exist: /nonexistent/dir/a.mp4"
    );
}

#[test]
fn a_run_is_configured_from_an_existing_file() {
    let temp_dir = tempfile::tempdir().unwrap();
    let input =
        tempfile::Builder::new().prefix("movie").suffix(".mkv").tempfile_in(temp_dir.path()).unwrap();
    let path = input.path().to_str().unwrap().to_string();
    let options = CliOptions {
        input: Some(path.clone()),
        model: Some(String::from("base")),
        volume: Some(100),
        fade: Some(200),
        ..no_options()
    };
    let config = parse_config(&options, &Some(ConfigFile::default())).unwrap();
    assert_eq!(config.input_file, path);
    assert_eq!(config.output_file, Some(path.replace(".mkv", "_censored.mkv")));
    assert_eq!(config.whisper_model, WhisperModel::Base);
    assert_eq!(config.censor_volume, 100);
    assert_eq!(config.fade_duration, 200);
    assert_eq!(config.swear_words.len(), 7);
}
