use babymode::config::{Config, ConfigBuilder, WhisperModel};
use babymode::BabymodeError;

fn thousandths(value: f64) -> u64 {
    (value * 1000.0).round() as u64
}

#[test]
fn test_whisper_model_parsing() {
    assert_eq!("tiny".parse::<WhisperModel>().unwrap(), WhisperModel::Tiny);
    assert_eq!("BASE".parse::<WhisperModel>().unwrap(), WhisperModel::Base);
    assert!("invalid".parse::<WhisperModel>().is_err());
}

#[test]
fn test_config_builder() {
    let temp_dir = tempfile::tempdir().unwrap();
    let input =
        tempfile::Builder::new().prefix("test").suffix(".mp4").tempfile_in(temp_dir.path()).unwrap();
    let input_path = input.path().to_str().unwrap().to_string();

    let config = Config::builder()
        .input_file(input_path)
        .censor_volume(thousandths(0.2))
        .unwrap()
        .fade_duration(thousandths(0.5))
        .unwrap()
        .build()
        .unwrap();

    assert_eq!(config.censor_volume, thousandths(0.2));
    assert_eq!(config.fade_duration, thousandths(0.5));
}

#[test]
fn build_checks_the_file_system() {
    let temp_dir = tempfile::tempdir().unwrap();
    let dir = temp_dir.path().to_str().unwrap().to_string();
    assert_eq!(
        Config::builder().input_file(dir.clone()).build().unwrap_err().to_string(),
        format!("Configuration error in 'input_file': Input path is not a file: {}", dir)
    );
    let input =
        tempfile::Builder::new().prefix("clip").suffix(".mov").tempfile_in(temp_dir.path()).unwrap();
    let path = input.path().to_str().unwrap().to_string();
    let config = Config { input_file: path.clone(), ..Default::default() };
    assert!(config.validate().is_ok());
    let config = Config::builder()
        .input_file(path.clone())
        .output_file(String::from("elsewhere.mov"))
        .build()
        .unwrap();
    assert_eq!(config.output_file.as_deref(), Some("elsewhere.mov"));
    let config = Config::builder().input_file(path.clone()).build().unwrap();
    assert_eq!(config.output_file, Some(path.replace(".mov", "_censored.mov")));
    assert_eq!(config.whisper_model, WhisperModel::Base);
}

#[test]
fn test_config_validation() {
    let config = Config {
        input_file: String::from("/nonexistent/file.mp4"),
        censor_volume: thousandths(1.5), // Invalid
        ..Default::default()
    };

    assert!(config.validate().is_err());
}

#[test]
fn model_names_round_trip() {
    for model in [
        WhisperModel::Tiny,
        WhisperModel::Base,
        WhisperModel::Small,
        WhisperModel::Medium,
        WhisperModel::Large,
    ] {
        assert_eq!(WhisperModel::parse(model.as_str()).unwrap(), model);
        assert_eq!(WhisperModel::parse(&model.as_str().to_uppercase()).unwrap(), model);
    }
    assert_eq!(WhisperModel::Medium.as_str(), "medium");
    let error = WhisperModel::parse("huge").unwrap_err();
    assert_eq!(
        error.to_string(),
        "Configuration error in 'whisper_model': Invalid model 'huge'. Valid options: tiny, base, small, medium, large"
    );
}

#[test]
fn validation_reports_the_first_failing_check() {
    let config = Config {
        input_file: String::from("in.mp4"),
        censor_volume: thousandths(1.5),
        fade_duration: 6000,
        swear_words: Vec::new(),
        ..Default::default()
    };
    assert_eq!(
        config.validate_with(false, false).unwrap_err().to_string(),
        "Configuration error in 'input_file': Input file does not exist: in.mp4"
    );
    assert_eq!(
        config.validate_with(true, false).unwrap_err().to_string(),
        "Configuration error in 'input_file': Input path is not a file: in.mp4"
    );
    assert_eq!(
        config.validate_with(true, true).unwrap_err().to_string(),
        "Configuration error in 'censor_volume': Volume must be between 0.0 and 1.0, got 1.5"
    );
    let config = Config { censor_volume: 1000, ..config };
    assert_eq!(
        config.validate_with(true, true).unwrap_err().to_string(),
        "Configuration error in 'fade_duration': Fade duration must be between 0.0 and 5.0 seconds, got 6"
    );
    let config = Config { fade_duration: 5000, ..config };
    assert_eq!(
        config.validate_with(true, true).unwrap_err().to_string(),
        "Configuration error in 'swear_words': Swear words list cannot be empty"
    );
    let config = Config { swear_words: vec![String::from("damn")], ..config };
    assert!(config.validate_with(true, true).is_ok());
}

#[test]
fn default_config_has_the_default_block_list() {
    let config = Config::default();
    assert_eq!(config.input_file, "");
    assert_eq!(config.output_file, None);
    assert_eq!(config.whisper_model, WhisperModel::Base);
    assert_eq!(config.censor_volume, 100);
    assert_eq!(config.fade_duration, 200);
    assert_eq!(
        config.swear_words,
        vec!["fuck", "shit", "damn", "hell", "ass", "bitch", "bastard"]
    );
}

#[test]
fn builder_checks_ranges() {
    assert!(ConfigBuilder::new().censor_volume(0).is_ok());
    assert!(ConfigBuilder::new().censor_volume(1000).is_ok());
    let error = ConfigBuilder::new().censor_volume(1001).unwrap_err();
    assert!(matches!(error, BabymodeError::Config { ref field, .. } if field == "censor_volume"));
    assert_eq!(
        error.to_string(),
        "Configuration error in 'censor_volume': Volume must be between 0.0 and 1.0, got 1.001"
    );
    assert!(ConfigBuilder::new().fade_duration(5000).is_ok());
    assert_eq!(
        ConfigBuilder::new().fade_duration(5250).unwrap_err().to_string(),
        "Configuration error in 'fade_duration': Fade duration must be between 0.0 and 5.0 seconds, got 5.25"
    );
}

#[test]
fn builder_normalizes_the_block_list() {
    let builder = ConfigBuilder::new()
        .swear_words(vec![
            String::from("  Fuck "),
            String::from("   "),
            String::from("SHIT"),
            String::new(),
        ])
        .unwrap();
    assert_eq!(builder.swear_words, Some(vec![String::from("fuck"), String::from("shit")]));
    assert_eq!(
        ConfigBuilder::new().swear_words(Vec::new()).unwrap_err().to_string(),
        "Configuration error in 'swear_words': Swear words list cannot be empty"
    );
    assert_eq!(
        ConfigBuilder::new().swear_words(vec![String::from(" \t")]).unwrap_err().to_string(),
        "Configuration error in 'swear_words': No valid words provided"
    );
}

#[test]
fn builder_requires_an_input_file() {
    assert_eq!(
        ConfigBuilder::new().build().unwrap_err().to_string(),
        "Configuration error in 'input_file': Input file is required"
    );
    assert_eq!(
        Config::builder().assemble().unwrap_err().to_string(),
        "Configuration error in 'input_file': Input file is required"
    );
    let config = Config::builder()
        .input_file(String::from("clip.mkv"))
        .whisper_model(WhisperModel::Small)
        .censor_volume(250)
        .unwrap()
        .assemble()
        .unwrap();
    assert_eq!(config.input_file, "clip.mkv");
    assert_eq!(config.output_file, None);
    assert_eq!(config.whisper_model, WhisperModel::Small);
    assert_eq!(config.censor_volume, 250);
    assert_eq!(config.fade_duration, 200);
    assert_eq!(config.swear_words, Config::default().swear_words);
}

#[test]
fn build_rejects_a_missing_input_file() {
    let error = Config::builder()
        .input_file(String::from("/nonexistent/dir/file.mp4"))
        .build()
        .unwrap_err();
    assert_eq!(
        error.to_string(),
        "Configuration error in 'input_file': Input file does not exist: /nonexistent/dir/file.mp4"
    );
}

#[test]
fn output_file_is_derived_from_the_input_file() {
    let mut config =
        Config { input_file: String::from("/videos/holiday.mov"), ..Default::default() };
    config.ensure_output_file().unwrap();
    assert_eq!(config.output_file.as_deref(), Some("/videos/holiday_censored.mov"));

    let mut config = Config { input_file: String::from("clip"), ..Default::default() };
    config.ensure_output_file().unwrap();
    assert_eq!(config.output_file.as_deref(), Some("clip_censored.mp4"));

    let mut config = Config {
        input_file: String::from("a.mp4"),
        output_file: Some(String::from("b.mp4")),
        ..Default::default()
    };
    config.ensure_output_file().unwrap();
    assert_eq!(config.output_file.as_deref(), Some("b.mp4"));

    let mut config = Config { input_file: String::from("/"), ..Default::default() };
    assert_eq!(
        config.ensure_output_file().unwrap_err().to_string(),
        "Configuration error in 'input_file': Invalid filename"
    );
    assert_eq!(config.output_file, None);
}

#[test]
fn parsing_a_model_from_text_is_the_same_as_parse() {
    for name in ["tiny", "Base", "SMALL", "medium", "large", "huge", "", " base"] {
        match (name.parse::<WhisperModel>(), WhisperModel::parse(name)) {
            (Ok(a), Ok(b)) => assert_eq!(a, b),
            (Err(a), Err(b)) => assert_eq!(a.to_string(), b.to_string()),
            (a, b) => panic!("{:?} and {:?} differ for {:?}", a, b, name),
        }
    }
    assert_eq!("Large".parse::<WhisperModel>().unwrap(), WhisperModel::Large);
    assert_eq!(
        "huge".parse::<WhisperModel>().unwrap_err().to_string(),
        "Configuration error in 'whisper_model': Invalid model 'huge'. Valid options: tiny, base, small, medium, large"
    );
}
