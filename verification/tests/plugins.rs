use babymode::audio::AudioSegment;
use babymode::plugins::{
    BeepStrategy, BuiltinStrategy, CensoringConfig, CensoringStrategy, NamedStrategy,
    ReverseAudioStrategy, SilenceStrategy, StrategyRegistry, VolumeReductionStrategy,
};
use babymode::tool::AudioJob;
use babymode::BabymodeError;

fn ms(seconds: f64) -> u64 {
    (seconds * 1000.0).round() as u64
}

fn hz(frequency: f64) -> u64 {
    (frequency * 1000.0).round() as u64
}

fn run_args(job: &AudioJob) -> Vec<String> {
    match job {
        AudioJob::Run(step) => {
            assert_eq!(step.command.program, "ffmpeg");
            step.command.args.clone()
        }
        AudioJob::Copy(_) => panic!("expected a run of the media tool"),
    }
}

#[test]
fn test_strategy_registry() {
    let registry = StrategyRegistry::new();

    assert!(registry.get_strategy("silence").is_some());
    assert!(registry.get_strategy("volume_reduction").is_some());
    assert!(registry.get_strategy("beep").is_some());
    assert!(registry.get_strategy("reverse").is_some());
    assert!(registry.get_strategy("nonexistent").is_none());

    let strategies = registry.list_strategies();
    assert!(!strategies.is_empty());

    // Check that we have expected strategies
    let strategy_names: Vec<&str> = strategies.iter().map(|(name, _)| *name).collect();
    assert!(strategy_names.contains(&"silence"));
    assert!(strategy_names.contains(&"beep"));
}

#[test]
fn test_censoring_config_validation() {
    let beep_strategy = BeepStrategy;

    // Valid config
    let valid_config = CensoringConfig { beep_frequency: Some(hz(1000.0)), ..Default::default() };
    assert!(beep_strategy.validate_config(&valid_config).is_ok());

    // Invalid frequency
    let invalid_config = CensoringConfig {
        beep_frequency: Some(hz(50000.0)), // Too high
        ..Default::default()
    };
    assert!(beep_strategy.validate_config(&invalid_config).is_err());
}

#[test]
fn test_strategy_registry_apply() {
    let registry = StrategyRegistry::new();
    let config = CensoringConfig::default();
    let segments = vec![AudioSegment::new(ms(1.0), ms(2.0))];

    let result =
        registry.apply_strategy("nonexistent", "dummy.wav", "output.wav", &segments, &config);

    // Should fail with unknown strategy error
    assert!(result.is_err());
    assert!(result.unwrap_err().to_string().contains("Unknown censoring strategy"));
}

#[test]
fn unknown_strategy_is_reported_by_name_and_plans_nothing() {
    let registry = StrategyRegistry::new();
    let error = registry
        .apply_strategy("nonexistent", "in.wav", "out.wav", &[], &CensoringConfig::default())
        .unwrap_err();
    assert!(matches!(error, BabymodeError::UnknownStrategy { ref name } if name == "nonexistent"));
    assert_eq!(error.to_string(), "Processing error: Unknown censoring strategy: nonexistent");
}

#[test]
fn beep_frequency_is_checked_before_anything_is_planned() {
    let registry = StrategyRegistry::new();
    let segments = vec![AudioSegment::new(1000, 2000)];
    let config = CensoringConfig { beep_frequency: Some(hz(50000.0)), ..Default::default() };
    let error =
        registry.apply_strategy("beep", "in.wav", "out.wav", &segments, &config).unwrap_err();
    assert_eq!(
        error.to_string(),
        "Configuration error in 'beep_frequency': Beep frequency must be between 100 and 10000 Hz"
    );
    // the strategies that do not use the frequency accept the same settings
    assert!(registry.apply_strategy("silence", "in.wav", "out.wav", &segments, &config).is_ok());
    assert!(registry.apply_strategy("reverse", "in.wav", "out.wav", &segments, &config).is_ok());

    let beep = BeepStrategy;
    for (frequency, accepted) in [
        (hz(100.0), true),
        (hz(99.999), false),
        (hz(10000.0), true),
        (hz(10000.001), false),
        (0, false),
    ] {
        let config = CensoringConfig { beep_frequency: Some(frequency), ..Default::default() };
        assert_eq!(beep.validate_config(&config).is_ok(), accepted, "{}", frequency);
    }
    let config = CensoringConfig { beep_frequency: None, ..Default::default() };
    assert!(beep.validate_config(&config).is_ok());
}

#[test]
fn volume_reduction_checks_volume_and_fade() {
    let strategy = VolumeReductionStrategy;
    assert!(strategy.validate_config(&CensoringConfig::default()).is_ok());
    let config = CensoringConfig { volume: 1000, fade_duration: 5000, ..Default::default() };
    assert!(strategy.validate_config(&config).is_ok());
    let config = CensoringConfig { volume: 1001, fade_duration: 5001, ..Default::default() };
    assert_eq!(
        strategy.validate_config(&config).unwrap_err().to_string(),
        "Configuration error in 'volume': Volume must be between 0.0 and 1.0"
    );
    let config = CensoringConfig { volume: 0, fade_duration: 5001, ..Default::default() };
    assert_eq!(
        strategy.validate_config(&config).unwrap_err().to_string(),
        "Configuration error in 'fade_duration': Fade duration must be between 0.0 and 5.0 seconds"
    );
    assert!(SilenceStrategy.validate_config(&config).is_ok());
    assert!(ReverseAudioStrategy.validate_config(&config).is_ok());
}

#[test]
fn default_settings() {
    let config = CensoringConfig::default();
    assert_eq!(config.volume, 100);
    assert_eq!(config.fade_duration, 200);
    assert_eq!(config.replacement_audio, None);
    assert_eq!(config.beep_frequency, Some(1_000_000));
    assert!(config.custom_params.is_empty());
}

#[test]
fn names_and_descriptions() {
    let registry = StrategyRegistry::new();
    assert_eq!(
        registry.list_strategies(),
        vec![
            ("silence", "Replace profanity with complete silence"),
            ("volume_reduction", "Reduce volume during profanity with smooth fading"),
            ("beep", "Replace profanity with beep sounds"),
            ("reverse", "Play profanity segments in reverse"),
        ]
    );
    assert_eq!(StrategyRegistry::default().list_strategies(), registry.list_strategies());
    assert_eq!(registry.get_strategy("beep").unwrap().name(), "beep");
    assert_eq!(
        registry.get_strategy("reverse").unwrap().description(),
        "Play profanity segments in reverse"
    );
}

#[test]
fn every_strategy_copies_when_there_is_nothing_to_censor() {
    let registry = StrategyRegistry::new();
    for name in ["silence", "volume_reduction", "beep", "reverse"] {
        let job = registry
            .apply_strategy(name, "in.wav", "out.wav", &[], &CensoringConfig::default())
            .unwrap();
        match job {
            AudioJob::Copy(step) => {
                assert_eq!(step.from, "in.wav");
                assert_eq!(step.to, "out.wav");
                assert_eq!(step.failure, "Failed to copy audio");
                assert!(step.detail);
            }
            AudioJob::Run(_) => panic!("{} should copy", name),
        }
    }
}

#[test]
fn silence_mutes_each_window() {
    let segments = vec![AudioSegment::new(1000, 2500), AudioSegment::new(10_000, 11_000)];
    let job =
        SilenceStrategy.apply_censoring("in.wav", "out.wav", &segments, &CensoringConfig::default());
    assert_eq!(
        run_args(&job),
        vec![
            "-i",
            "in.wav",
            "-af",
            "volume=enable='between(t,1.000,2.500)':volume=0,volume=enable='between(t,10.000,11.000)':volume=0",
            "-c:a",
            "pcm_s16le",
            "-y",
            "out.wav",
        ]
    );
    match job {
        AudioJob::Run(step) => {
            assert_eq!(step.spawn_failure, "FFmpeg failed");
            assert!(step.spawn_detail);
            assert_eq!(step.exit_failure, "FFmpeg failed with silence strategy: ");
        }
        AudioJob::Copy(_) => unreachable!(),
    }
}

#[test]
fn silence_plans_the_same_job_every_time_and_whatever_the_settings() {
    let segments = vec![AudioSegment::new(9800, 11_200), AudioSegment::new(0, 700)];
    let plain = CensoringConfig::default();
    let other = CensoringConfig {
        volume: 900,
        fade_duration: 4000,
        replacement_audio: Some(String::from("x.wav")),
        beep_frequency: Some(1),
        custom_params: vec![(String::from("a"), String::from("1"))],
    };
    let first = run_args(&SilenceStrategy.apply_censoring("a", "b", &segments, &plain));
    let second = run_args(&SilenceStrategy.apply_censoring("a", "b", &segments, &plain));
    let third = run_args(&SilenceStrategy.apply_censoring("a", "b", &segments, &other));
    assert_eq!(first, second);
    assert_eq!(first, third);
    assert_eq!(
        first[3],
        "volume=enable='between(t,9.800,11.200)':volume=0,volume=enable='between(t,0.000,0.700)':volume=0"
    );
}

#[test]
fn volume_reduction_fades_in_and_out_where_the_window_is_long_enough() {
    let segments = vec![AudioSegment::new(1000, 2500), AudioSegment::new(10_000, 10_300)];
    let config = CensoringConfig { volume: 100, fade_duration: 200, ..Default::default() };
    let job = VolumeReductionStrategy.apply_censoring("in.wav", "out.wav", &segments, &config);
    let args = run_args(&job);
    assert_eq!(args[2], "-af");
    assert_eq!(
        args[3],
        "volume=enable='between(t,1.000,2.500)':volume='if(lt(t,1.200),(t-1.000)/0.200*0.100,0.100)',\
         volume=enable='between(t,2.300,2.500)':volume='if(gt(t,2.300),(2.500-t)/0.200*0.100+1-0.100,0.100)',\
         volume=enable='between(t,10.000,10.300)':volume='if(lt(t,10.200),(t-10.000)/0.200*0.100,0.100)'"
    );
    // a window of exactly two fades has no room for the fade out
    let segments = vec![AudioSegment::new(1000, 1400)];
    let job = VolumeReductionStrategy.apply_censoring("in.wav", "out.wav", &segments, &config);
    assert_eq!(
        run_args(&job)[3],
        "volume=enable='between(t,1.000,1.400)':volume='if(lt(t,1.200),(t-1.000)/0.200*0.100,0.100)'"
    );
    // a fade longer than the window ends
    let config = CensoringConfig { volume: 0, fade_duration: 5000, ..Default::default() };
    let job = VolumeReductionStrategy.apply_censoring("in.wav", "out.wav", &segments, &config);
    assert_eq!(
        run_args(&job)[3],
        "volume=enable='between(t,1.000,1.400)':volume='if(lt(t,6.000),(t-1.000)/5.000*0.000,0.000)'"
    );
}

#[test]
fn beep_replaces_each_window_by_a_tone() {
    let segments = vec![AudioSegment::new(1000, 2500), AudioSegment::new(3000, 3250)];
    let config = CensoringConfig { beep_frequency: Some(hz(1000.0)), ..Default::default() };
    let job = BeepStrategy.apply_censoring("in.wav", "out.wav", &segments, &config);
    let args = run_args(&job);
    assert_eq!(args[2], "-filter_complex");
    assert_eq!(
        args[3],
        "[0:a]sine=frequency=1000:duration=1.5[beep0];\
         [sine=frequency=1000:duration=1.5[beep0]][beep0]amix=inputs=2:duration=first:dropout_transition=0,volume=enable='between(t,1.000,2.500)':volume=0[out0];\
         sine=frequency=1000:duration=0.25[beep1];\
         [sine=frequency=1000:duration=0.25[beep1]][beep1]amix=inputs=2:duration=first:dropout_transition=0,volume=enable='between(t,3.000,3.250)':volume=0[out1]"
    );
    // without a configured frequency the tone has 1000 Hz
    let config = CensoringConfig { beep_frequency: None, ..Default::default() };
    let job = BeepStrategy.apply_censoring("in.wav", "out.wav", &segments[..1], &config);
    assert!(run_args(&job)[3].starts_with("[0:a]sine=frequency=1000:duration=1.5[beep0];"));
    let config = CensoringConfig { beep_frequency: Some(hz(440.5)), ..Default::default() };
    let job = BeepStrategy.apply_censoring("in.wav", "out.wav", &segments[..1], &config);
    assert!(run_args(&job)[3].starts_with("[0:a]sine=frequency=440.5:duration=1.5[beep0];"));
}

#[test]
fn reverse_reverses_each_window() {
    let segments = vec![AudioSegment::new(0, 1), AudioSegment::new(61_001, 3_600_000)];
    let job = ReverseAudioStrategy.apply_censoring(
        "in.wav",
        "out.wav",
        &segments,
        &CensoringConfig::default(),
    );
    assert_eq!(
        run_args(&job)[3],
        "areverse=enable='between(t,0.000,0.001)',areverse=enable='between(t,61.001,3600.000)'"
    );
}

fn named(name: &str, description: &str, strategy: BuiltinStrategy) -> NamedStrategy<BuiltinStrategy> {
    NamedStrategy { name: name.to_string(), description: description.to_string(), strategy }
}

#[test]
fn registration_is_last_write_wins_and_keeps_the_order() {
    let silence = BuiltinStrategy::Silence(SilenceStrategy);
    let beep = BuiltinStrategy::Beep(BeepStrategy);
    let mut registry = StrategyRegistry::empty();
    assert!(registry.list_strategies().is_empty());
    assert!(registry.get_strategy("a").is_none());
    registry.register(named("a", "first a", silence));
    registry.register(named("b", "first b", silence));
    registry.register(named("c", "first c", silence));
    assert_eq!(registry.get_strategy("a").unwrap().description(), "first a");
    registry.register(named("a", "second a", beep));
    assert_eq!(
        registry.list_strategies(),
        vec![("a", "second a"), ("b", "first b"), ("c", "first c")]
    );
    assert_eq!(registry.get_strategy("a").unwrap().description(), "second a");
    assert_eq!(registry.get_strategy("b").unwrap().description(), "first b");
    registry.register(named("c", "second c", beep));
    registry.register(named("d", "first d", beep));
    assert_eq!(
        registry.list_strategies(),
        vec![("a", "second a"), ("b", "first b"), ("c", "second c"), ("d", "first d")]
    );

    // the replacement does the work from now on
    let segments = vec![AudioSegment::new(1000, 2000)];
    let bad = CensoringConfig { beep_frequency: Some(1), ..Default::default() };
    assert!(registry.apply_strategy("a", "in", "out", &segments, &bad).is_err());
    assert!(registry.apply_strategy("b", "in", "out", &segments, &bad).is_ok());
    let job = registry
        .apply_strategy("a", "in", "out", &segments, &CensoringConfig::default())
        .unwrap();
    assert_eq!(run_args(&job)[2], "-filter_complex");
}

#[test]
fn a_builtin_strategy_can_be_registered_again() {
    let mut registry = StrategyRegistry::new();
    registry.register(BuiltinStrategy::Beep(BeepStrategy));
    assert_eq!(registry.list_strategies().len(), 4);
    assert_eq!(registry.list_strategies()[2].0, "beep");
}
