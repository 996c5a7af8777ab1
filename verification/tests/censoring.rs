use babymode::audio::AudioSegment;
use babymode::censoring::{
    apply_beep_censoring, apply_censor_config, apply_censoring, apply_noise_censoring,
    apply_silence_censoring, apply_volume_censoring, censored_audio_name, get_censoring_stats,
    preview_censoring, CensorConfig, CensorStrategy,
};
use babymode::config::Config;
use babymode::tool::AudioJob;
use babymode::whisper::WordDetection;

fn thousandths(value: f64) -> u64 {
    (value * 1000.0).round() as u64
}

fn detection(start: u64, end: u64) -> WordDetection {
    WordDetection {
        word: String::from("damn"),
        start_time: start,
        end_time: end,
        confidence: 900,
        is_swear: true,
    }
}

fn filter_of(job: &AudioJob) -> (String, String) {
    match job {
        AudioJob::Run(step) => (step.command.args[2].clone(), step.command.args[3].clone()),
        AudioJob::Copy(_) => panic!("expected a run"),
    }
}

#[test]
fn test_censor_config_from_config() {
    let config = Config {
        censor_volume: thousandths(0.05),
        fade_duration: thousandths(0.3),
        ..Default::default()
    };

    let censor_config = CensorConfig::from(&config);

    match censor_config.strategy {
        CensorStrategy::VolumeReduction(volume) => {
            assert_eq!(volume, thousandths(0.05));
        }
        _ => panic!("Expected VolumeReduction strategy"),
    }

    assert_eq!(censor_config.fade_duration, thousandths(0.3));
}

#[test]
fn pipeline_settings() {
    let censor_config = CensorConfig::from(&Config::default());
    assert_eq!(
        censor_config,
        CensorConfig {
            strategy: CensorStrategy::VolumeReduction(100),
            fade_duration: 200,
            merge_gap: 500,
            padding: 100,
        }
    );
    assert_eq!(CensorStrategy::default(), CensorStrategy::VolumeReduction(100));
}

#[test]
fn preview_merges_and_pads() {
    let detections = vec![
        detection(10_000, 10_500),
        detection(11_000, 11_500),
        detection(12_001, 12_300),
        detection(50, 80),
    ];
    let segments = preview_censoring("in.wav", &detections, &Config::default());
    assert_eq!(
        segments,
        vec![
            AudioSegment::new(0, 180),
            AudioSegment::new(9900, 11_600),
            AudioSegment::new(11_901, 12_400),
        ]
    );
    assert!(preview_censoring("in.wav", &[], &Config::default()).is_empty());
}

#[test]
fn censoring_mutes_the_padded_segments() {
    let detections = vec![detection(10_000, 10_500), detection(11_000, 11_500)];
    let job = apply_censoring("in.wav", "out.wav", &detections, &Config::default());
    assert_eq!(
        filter_of(&job),
        (String::from("-af"), String::from("volume=enable='between(t,9.900,11.600)':volume=0"))
    );
    assert!(matches!(
        apply_censoring("in.wav", "out.wav", &[], &Config::default()),
        AudioJob::Copy(_)
    ));
    assert_eq!(censored_audio_name(4242), "babymode_censored_4242.wav");
}

#[test]
fn volume_and_silence_both_mute() {
    let segments = vec![AudioSegment::new(1000, 2000)];
    let expected =
        (String::from("-af"), String::from("volume=enable='between(t,1.000,2.000)':volume=0"));
    assert_eq!(
        filter_of(&apply_volume_censoring("in.wav", "out.wav", &segments, 100, 200)),
        expected
    );
    assert_eq!(filter_of(&apply_silence_censoring("in.wav", "out.wav", &segments, 200)), expected);
    for strategy in [CensorStrategy::VolumeReduction(300), CensorStrategy::Silence] {
        let config = CensorConfig { strategy, fade_duration: 200, merge_gap: 500, padding: 100 };
        assert_eq!(filter_of(&apply_censor_config("in.wav", "out.wav", &segments, &config)), expected);
    }
}

#[test]
fn beep_filter_graph() {
    let segments = vec![AudioSegment::new(1000, 2500), AudioSegment::new(4000, 4100)];
    let job = apply_beep_censoring("in.wav", "out.wav", &segments, 1_000_000, 200);
    assert_eq!(
        filter_of(&job),
        (
            String::from("-filter_complex"),
            String::from(
                "[0:a];sine=frequency=1000:duration=1.5:sample_rate=16000[beep0];\
                 [0:a][beep0]amix=inputs=2:duration=first:dropout_transition=0.2[mixed0];\
                 sine=frequency=1000:duration=0.1:sample_rate=16000[beep1];\
                 [0:a][beep1]amix=inputs=2:duration=first:dropout_transition=0.2[mixed1]"
            )
        )
    );
    match &job {
        AudioJob::Run(step) => {
            assert_eq!(step.spawn_failure, "Failed to execute ffmpeg for beep censoring");
            assert_eq!(step.exit_failure, "ffmpeg failed to apply beep censoring: ");
            assert!(!step.spawn_detail);
        }
        AudioJob::Copy(_) => unreachable!(),
    }
    let config = CensorConfig {
        strategy: CensorStrategy::Beep(1_000_000),
        fade_duration: 200,
        merge_gap: 500,
        padding: 100,
    };
    assert_eq!(
        filter_of(&apply_censor_config("in.wav", "out.wav", &segments, &config)),
        filter_of(&job)
    );
    match apply_beep_censoring("in.wav", "out.wav", &[], 1_000_000, 200) {
        AudioJob::Copy(step) => {
            assert_eq!(step.failure, "Failed to copy audio file");
            assert!(!step.detail);
        }
        AudioJob::Run(_) => panic!("expected a copy"),
    }
}

#[test]
fn noise_filter_graph() {
    let segments = vec![AudioSegment::new(1000, 2500), AudioSegment::new(4000, 4100)];
    let job = apply_noise_censoring("in.wav", "out.wav", &segments, 250, 0);
    assert_eq!(
        filter_of(&job),
        (
            String::from("-filter_complex"),
            String::from(
                "anoisesrc=duration=1.5:sample_rate=16000:amplitude=0.25[noise0];\
                 [0:a][noise0]amix=inputs=2:duration=first:dropout_transition=0:enable='between(t,1,2.5)'[mixed0];\
                 anoisesrc=duration=0.1:sample_rate=16000:amplitude=0.25[noise1];\
                 [0:a][noise1]amix=inputs=2:duration=first:dropout_transition=0:enable='between(t,4,4.1)'[mixed1]"
            )
        )
    );
    match &job {
        AudioJob::Run(step) => {
            assert_eq!(step.spawn_failure, "Failed to execute ffmpeg for noise censoring");
            assert_eq!(step.exit_failure, "ffmpeg failed to apply noise censoring: ");
        }
        AudioJob::Copy(_) => unreachable!(),
    }
    let config = CensorConfig {
        strategy: CensorStrategy::WhiteNoise(250),
        fade_duration: 0,
        merge_gap: 500,
        padding: 100,
    };
    assert_eq!(
        filter_of(&apply_censor_config("in.wav", "out.wav", &segments, &config)),
        filter_of(&job)
    );
    assert!(matches!(apply_noise_censoring("in.wav", "out.wav", &[], 250, 0), AudioJob::Copy(_)));
}

#[test]
fn statistics() {
    let detections = vec![
        detection(10_000, 10_500),
        detection(11_000, 11_500),
        detection(12_001, 12_300),
        detection(50, 80),
    ];
    let stats = get_censoring_stats(60_000, &detections, &Config::default());
    assert_eq!(stats.total_detections, 4);
    assert_eq!(stats.merged_segments, 3);
    assert_eq!(stats.total_censored_duration, 180 + 1700 + 499);
    assert_eq!(stats.percentage_censored, 3965);
    assert_eq!(stats.audio_duration, 60_000);

    let stats = get_censoring_stats(0, &detections, &Config::default());
    assert_eq!(stats.percentage_censored, 0);
    assert_eq!(stats.total_censored_duration, 2379);

    let stats = get_censoring_stats(60_000, &[], &Config::default());
    assert_eq!(stats.total_detections, 0);
    assert_eq!(stats.merged_segments, 0);
    assert_eq!(stats.total_censored_duration, 0);
    assert_eq!(stats.percentage_censored, 0);

    let stats = get_censoring_stats(1, &[detection(0, u64::MAX - 100)], &Config::default());
    assert_eq!(stats.total_censored_duration, u64::MAX);
    assert_eq!(stats.percentage_censored, u64::MAX as u128 * 100_000);
}
