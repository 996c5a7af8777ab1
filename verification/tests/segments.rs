use babymode::audio::{are_well_formed, AudioConfig, AudioSegment};
use babymode::censoring::{add_padding_to_segments, can_pad, censorable};
use babymode::whisper::{all_well_timed, merge_detected, merge_detections, WordDetection};

fn ms(seconds: f64) -> u64 {
    (seconds * 1000.0).round() as u64
}

fn seconds(ms: u64) -> f64 {
    ms as f64 / 1000.0
}

fn detection(word: &str, start: f64, end: f64, confidence: f64, is_swear: bool) -> WordDetection {
    WordDetection {
        word: word.to_string(),
        start_time: ms(start),
        end_time: ms(end),
        confidence: ms(confidence),
        is_swear,
    }
}

#[test]
fn test_audio_segment_creation() {
    let segment = AudioSegment::new(ms(10.5), ms(15.2));
    assert_eq!(seconds(segment.start_time), 10.5);
    assert_eq!(seconds(segment.end_time), 15.2);
    assert!((seconds(segment.duration) - 4.7).abs() < 1e-10);
}

#[test]
fn test_audio_config_default() {
    let config = AudioConfig::default();
    assert_eq!(config.sample_rate, 16000);
    assert_eq!(config.channels, 1);
    assert_eq!(config.format, "wav");
}

#[test]
fn test_merge_detections() {
    let detections = vec![
        detection("fuck", 10.0, 10.5, 0.9, true),
        detection("that", 10.6, 11.0, 0.8, false),
        detection("shit", 11.1, 11.5, 0.95, true),
    ];

    let swear_detections: Vec<WordDetection> =
        detections.into_iter().filter(|d| d.is_swear).collect();

    let segments = merge_detections(swear_detections, ms(1.0));
    assert_eq!(segments.len(), 1); // Should merge into one segment
    assert_eq!(seconds(segments[0].start_time), 10.0);
    assert_eq!(seconds(segments[0].end_time), 11.5);
}

#[test]
fn test_add_padding_to_segments() {
    let segments = vec![
        AudioSegment::new(ms(10.0), ms(11.0)),
        AudioSegment::new(ms(15.0), ms(16.5)),
    ];

    let padded = add_padding_to_segments(segments, ms(0.2));

    assert_eq!(padded.len(), 2);
    assert!((seconds(padded[0].start_time) - 9.8).abs() < 1e-6);
    assert!((seconds(padded[0].end_time) - 11.2).abs() < 1e-6);
    assert!((seconds(padded[1].start_time) - 14.8).abs() < 1e-6);
    assert!((seconds(padded[1].end_time) - 16.7).abs() < 1e-6);
}

#[test]
fn test_padding_prevents_negative_time() {
    let segments = vec![AudioSegment::new(ms(0.1), ms(0.5))];
    let padded = add_padding_to_segments(segments, ms(0.2));

    assert_eq!(seconds(padded[0].start_time), 0.0); // Should not go below 0
    assert!((seconds(padded[0].end_time) - 0.7).abs() < 1e-6);
}

#[test]
fn merge_of_nothing_is_nothing() {
    assert!(merge_detections(Vec::new(), 0).is_empty());
    assert!(merge_detections(Vec::new(), 1000).is_empty());
    assert!(merge_detections(Vec::new(), u64::MAX).is_empty());
}

#[test]
fn detections_farther_apart_than_the_gap_stay_apart() {
    let detections = vec![
        detection("fuck", 10.0, 10.5, 0.9, true),
        detection("shit", 11.1, 11.5, 0.95, true),
    ];
    let segments = merge_detections(detections, ms(0.3));
    assert_eq!(
        segments,
        vec![AudioSegment::new(10_000, 10_500), AudioSegment::new(11_100, 11_500)]
    );
}

#[test]
fn gap_is_inclusive() {
    let detections =
        vec![detection("a", 1.0, 2.0, 1.0, true), detection("b", 2.5, 3.0, 1.0, true)];
    assert_eq!(merge_detections(detections.clone(), 500), vec![AudioSegment::new(1000, 3000)]);
    assert_eq!(
        merge_detections(detections, 499),
        vec![AudioSegment::new(1000, 2000), AudioSegment::new(2500, 3000)]
    );
}

#[test]
fn merge_sorts_by_start_and_keeps_the_longest_end() {
    let detections = vec![
        detection("late", 20.0, 21.0, 1.0, true),
        detection("long", 1.0, 9.0, 1.0, true),
        detection("inside", 2.0, 3.0, 1.0, true),
        detection("touching", 9.0, 9.5, 1.0, true),
        detection("same start", 1.0, 1.5, 1.0, true),
    ];
    let segments = merge_detections(detections, 0);
    assert_eq!(segments, vec![AudioSegment::new(1000, 9500), AudioSegment::new(20_000, 21_000)]);
    assert_eq!(segments[0].duration, 8500);
}

#[test]
fn merged_segments_are_sorted_and_more_than_the_gap_apart() {
    let mut detections = Vec::new();
    let mut seed: u64 = 12345;
    for _ in 0..200 {
        seed = seed.wrapping_mul(6364136223846793005).wrapping_add(1442695040888963407);
        let start = (seed >> 33) % 100_000;
        let length = (seed >> 20) % 700;
        detections.push(WordDetection {
            word: String::from("w"),
            start_time: start,
            end_time: start + length,
            confidence: 900,
            is_swear: true,
        });
    }
    for gap in [0u64, 1, 250, 1000] {
        let segments = merge_detections(detections.clone(), gap);
        assert!(!segments.is_empty());
        for pair in segments.windows(2) {
            assert!(pair[1].start_time > pair[0].end_time + gap);
        }
        for segment in &segments {
            assert!(segment.start_time <= segment.end_time);
            assert_eq!(segment.duration, segment.end_time - segment.start_time);
        }
        for d in &detections {
            assert!(segments
                .iter()
                .any(|s| s.start_time <= d.start_time && d.end_time <= s.end_time));
        }
    }
}

#[test]
fn padding_keeps_order_and_count_and_does_not_merge() {
    let segments = vec![AudioSegment::new(1000, 2000), AudioSegment::new(2100, 2500)];
    let padded = add_padding_to_segments(segments, 300);
    assert_eq!(padded, vec![AudioSegment::new(700, 2300), AudioSegment::new(1800, 2800)]);
    assert!(add_padding_to_segments(Vec::new(), 300).is_empty());
    assert_eq!(
        add_padding_to_segments(vec![AudioSegment::new(5, 5)], 0),
        vec![AudioSegment::new(5, 5)]
    );
    assert_eq!(
        add_padding_to_segments(vec![AudioSegment::new(200, 500)], 200),
        vec![AudioSegment::new(0, 700)]
    );
}

#[test]
fn detection_gives_its_window() {
    let d = detection("fuck", 10.0, 10.5, 0.9, true);
    assert!(d.is_well_formed());
    assert_eq!(d.to_audio_segment(), AudioSegment::new(10_000, 10_500));
    let bad = WordDetection { start_time: 2, end_time: 1, ..d };
    assert!(!bad.is_well_formed());
}

#[test]
fn conditions_can_be_tested_before_a_call() {
    let good = AudioSegment::new(1000, 2000);
    let reversed = AudioSegment { start_time: 2, end_time: 1, duration: 0 };
    let wrong_duration = AudioSegment { start_time: 1, end_time: 2, duration: 2 };
    assert!(are_well_formed(&[]));
    assert!(are_well_formed(&[good, good]));
    assert!(!are_well_formed(&[good, reversed]));
    assert!(!are_well_formed(&[wrong_duration, good]));

    assert!(can_pad(&[good], u64::MAX - 2000));
    assert!(!can_pad(&[good], u64::MAX - 1999));
    assert!(can_pad(&[], u64::MAX));

    let fine = detection("a", 1.0, 2.0, 1.0, true);
    let backwards = WordDetection { start_time: 3000, end_time: 2999, ..fine.clone() };
    let late = WordDetection { start_time: 0, end_time: u64::MAX - 99, ..fine.clone() };
    let just_in_time = WordDetection { start_time: 0, end_time: u64::MAX - 100, ..fine.clone() };
    assert!(all_well_timed(&[fine.clone(), late.clone()]));
    assert!(!all_well_timed(&[fine.clone(), backwards.clone()]));
    assert!(censorable(&[fine.clone(), just_in_time]));
    assert!(!censorable(&[fine.clone(), late]));
    assert!(!censorable(&[backwards, fine.clone()]));
    assert!(censorable(&[]));
    assert_eq!(merge_detected(&[fine.clone()], 0), merge_detections(vec![fine], 0));
}
