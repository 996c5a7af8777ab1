//! The censoring pipeline: detections are merged into segments, the
//! segments are padded, and a strategy plans the job that rewrites the
//! audio.

use crate::audio::{
    all_well_formed, apply_smooth_censoring, isolation_job, plain_copy, AudioSegment,
};
use crate::config::Config;
use crate::text::{
    decimal, join, joined, push_decimal, push_shortest3, shortest3, views,
};
use crate::tool::{copy_step, step_model, tool_step, AudioJob, JobModel};
use crate::whisper::{
    all_timed, lemma_merge_detections, merge_detected, merge_detections_spec, separated,
    WordDetection,
};
use vstd::prelude::*;
use vstd::std_specs::convert::FromSpecImpl;
use vstd::string::*;

verus! {

/// `segment` widened by `margin` at both ends; the start is clamped at the
/// origin of the timeline.
pub open spec fn padded(segment: AudioSegment, margin: int) -> AudioSegment {
    AudioSegment::spanning(
        if segment.start_time - margin > 0 {
            segment.start_time - margin
        } else {
            0
        },
        segment.end_time + margin,
    )
}

/// Every segment widened by `margin`, in the same order.
pub open spec fn padded_all(segments: Seq<AudioSegment>, margin: int) -> Seq<AudioSegment> {
    segments.map_values(|s: AudioSegment| padded(s, margin))
}

/// Whether every segment can be widened by `margin` without leaving the
/// range of the timeline.
pub open spec fn paddable(segments: Seq<AudioSegment>, margin: int) -> bool {
    forall|i: int| 0 <= i < segments.len() ==> (#[trigger] segments[i]).end_time + margin <= u64::MAX
}

/// Decides whether every segment can be widened by `padding` without
/// leaving the range of the timeline.
pub fn can_pad(segments: &[AudioSegment], padding: u64) -> (r: bool)
    ensures
        r == paddable(segments@, padding as int),
{
    let mut i: usize = 0;
    while i < segments.len()
        invariant
            i <= segments@.len(),
            forall|k: int| 0 <= k < i ==> (#[trigger] segments@[k]).end_time + padding <= u64::MAX,
        decreases segments@.len() - i,
    {
        if segments[i].end_time > u64::MAX - padding {
            return false;
        }
        i = i + 1;
    }
    true
}

/// Widens every segment by `padding` milliseconds at both ends. A start
/// that would fall before the origin of the timeline becomes the origin.
/// Each segment is widened by itself: segments that come to overlap are
/// not merged, and the order and the number of the segments stay.
pub fn add_padding_to_segments(segments: Vec<AudioSegment>, padding: u64) -> (widened: Vec<
    AudioSegment,
>)
    requires
        all_well_formed(segments@),
        paddable(segments@, padding as int),
    ensures
        widened@ == padded_all(segments@, padding as int),
        widened@.len() == segments@.len(),
        all_well_formed(widened@),
        forall|i: int|
            0 <= i < segments@.len() ==> {
                &&& (#[trigger] widened@[i]).start_time == if segments@[i].start_time >= padding {
                    segments@[i].start_time - padding
                } else {
                    0
                }
                &&& widened@[i].end_time == segments@[i].end_time + padding
            },
{
    let mut widened: Vec<AudioSegment> = Vec::new();
    let mut i: usize = 0;
    while i < segments.len()
        invariant
            i <= segments@.len(),
            all_well_formed(segments@),
            paddable(segments@, padding as int),
            widened@ == padded_all(segments@.take(i as int), padding as int),
        decreases segments@.len() - i,
    {
        let segment = segments[i];
        let new_start: u64 = if segment.start_time >= padding {
            segment.start_time - padding
        } else {
            0
        };
        let new_end: u64 = segment.end_time + padding;
        widened.push(AudioSegment::new(new_start, new_end));
        i = i + 1;
    }
    assert forall|i: int| 0 <= i < widened@.len() implies (#[trigger] widened@[i]).well_formed() by {
    }
    widened
}

/// How a censored window is filled.
#[derive(Debug, Clone, Copy, PartialEq, Eq, Structural)]
pub enum CensorStrategy {
    /// The volume is reduced to the given level, in thousandths.
    VolumeReduction(u64),
    /// The window is silent.
    Silence,
    /// The window is a tone of the given frequency, in thousandths of a
    /// hertz.
    Beep(u64),
    /// The window is white noise of the given level, in thousandths.
    WhiteNoise(u64),
}

impl Default for CensorStrategy {
    /// A tenth of full volume.
    fn default() -> (strategy: Self)
        ensures
            strategy == CensorStrategy::VolumeReduction(100),
    {
        CensorStrategy::VolumeReduction(100)
    }
}

/// The settings of the pipeline.
#[derive(Debug, Clone, Copy, PartialEq, Eq, Structural)]
pub struct CensorConfig {
    /// How a censored window is filled.
    pub strategy: CensorStrategy,
    /// The length of a fade, in milliseconds.
    pub fade_duration: u64,
    /// Detections no farther apart than this, in milliseconds, are merged.
    pub merge_gap: u64,
    /// The margin around each segment, in milliseconds.
    pub padding: u64,
}

/// The gap within which detections are merged, in milliseconds.
pub const MERGE_GAP: u64 = 500;

/// The margin around each segment, in milliseconds.
pub const PADDING: u64 = 100;

/// The settings of the pipeline for a run: volume reduction to the
/// configured level, with the configured fade.
pub open spec fn settings_for(config: &Config) -> CensorConfig {
    CensorConfig {
        strategy: CensorStrategy::VolumeReduction(config.censor_volume),
        fade_duration: config.fade_duration,
        merge_gap: MERGE_GAP,
        padding: PADDING,
    }
}

impl From<&Config> for CensorConfig {
    /// The settings of the pipeline for a run: volume reduction to the
    /// configured level, with the configured fade.
    fn from(config: &Config) -> (censor_config: Self) {
        CensorConfig {
            strategy: CensorStrategy::VolumeReduction(config.censor_volume),
            fade_duration: config.fade_duration,
            merge_gap: MERGE_GAP,
            padding: PADDING,
        }
    }
}

impl FromSpecImpl<&Config> for CensorConfig {
    open spec fn obeys_from_spec() -> bool {
        true
    }

    open spec fn from_spec(config: &Config) -> Self {
        settings_for(config)
    }
}

/// The segments that a run censors: the detections merged within the
/// merge gap, each widened by the padding.
pub open spec fn censored_segments(detections: Seq<WordDetection>) -> Seq<AudioSegment> {
    padded_all(merge_detections_spec(detections, MERGE_GAP as int), PADDING as int)
}

/// Whether every detection ends early enough for the padding to fit in
/// the range of the timeline.
pub open spec fn all_paddable(detections: Seq<WordDetection>) -> bool {
    forall|i: int| 0 <= i < detections.len() ==> (#[trigger] detections[i]).end_time + PADDING <= u64::MAX
}

/// Padding keeps segments apart that lie more than two margins apart:
/// what was more than `gap` apart is more than `gap` less two margins apart
/// afterwards.
pub proof fn lemma_padded_separated(segments: Seq<AudioSegment>, gap: int, margin: int)
    requires
        margin >= 0,
        gap >= 2 * margin,
        separated(segments, gap),
    ensures
        separated(padded_all(segments, margin), gap - 2 * margin),
{
    let widened = padded_all(segments, margin);
    assert forall|i: int, j: int| 0 <= i < j < widened.len() implies (#[trigger] widened[i]).end_time
        + (gap - 2 * margin) < (#[trigger] widened[j]).start_time by {
    }
}

/// The sum of the durations of the segments.
pub open spec fn total_duration(segments: Seq<AudioSegment>) -> nat
    decreases segments.len(),
{
    if segments.len() == 0 {
        0
    } else {
        total_duration(segments.drop_last()) + segments.last().duration as nat
    }
}

/// The share of `total` in `whole`, in thousandths of a percent; zero
/// where the whole is nothing.
pub open spec fn percentage(total: nat, whole: nat) -> nat {
    if whole > 0 {
        total * 100_000 / whole
    } else {
        0
    }
}

/// What a run censors, in numbers.
#[derive(Debug, Clone, Copy, PartialEq, Eq, Structural)]
pub struct CensoringStats {
    /// The number of detections.
    pub total_detections: usize,
    /// The number of segments after merging.
    pub merged_segments: usize,
    /// The sum of the durations of the padded segments, in milliseconds.
    pub total_censored_duration: u64,
    /// The share of the censored duration in the duration of the audio,
    /// in thousandths of a percent.
    pub percentage_censored: u128,
    /// The duration of the audio, in milliseconds.
    pub audio_duration: u64,
}

/// Decides whether the detections can be censored: every timing is valid
/// and leaves room for the padding.
pub fn censorable(detections: &[WordDetection]) -> (r: bool)
    ensures
        r == (all_timed(detections@) && all_paddable(detections@)),
{
    let mut i: usize = 0;
    while i < detections.len()
        invariant
            i <= detections@.len(),
            forall|k: int| 0 <= k < i ==> (#[trigger] detections@[k]).well_formed(),
            forall|k: int| 0 <= k < i ==> (#[trigger] detections@[k]).end_time + PADDING <= u64::MAX,
        decreases detections@.len() - i,
    {
        let detection = &detections[i];
        if detection.start_time > detection.end_time || detection.end_time > u64::MAX - PADDING {
            return false;
        }
        i = i + 1;
    }
    true
}

/// The segments that a run censors, computed from the detections.
fn plan_segments(detections: &[WordDetection], censor_config: &CensorConfig) -> (segments: Vec<
    AudioSegment,
>)
    requires
        all_timed(detections@),
        all_paddable(detections@),
        censor_config.merge_gap == MERGE_GAP,
        censor_config.padding == PADDING,
    ensures
        segments@ == censored_segments(detections@),
        all_well_formed(segments@),
        segments@.len() == 0 <==> detections@.len() == 0,
        separated(segments@, MERGE_GAP - 2 * PADDING),
{
    let merged = merge_detected(detections, censor_config.merge_gap);
    proof {
        lemma_merge_detections(detections@, MERGE_GAP as int);
        assert forall|i: int| 0 <= i < merged@.len() implies (#[trigger] merged@[i]).end_time
            + PADDING <= u64::MAX by {
        }
        lemma_padded_separated(merged@, MERGE_GAP as int, PADDING as int);
    }
    add_padding_to_segments(merged, censor_config.padding)
}

/// Shows which segments a run would censor, without planning any job.
pub fn preview_censoring(_input_audio_path: &str, detections: &[WordDetection], config: &Config)
    -> (segments: Vec<AudioSegment>)
    requires
        all_timed(detections@),
        all_paddable(detections@),
    ensures
        segments@ == censored_segments(detections@),
        all_well_formed(segments@),
{
    let censor_config = CensorConfig::from(config);
    plan_segments(detections, &censor_config)
}

/// The job for the reduction of the volume and for silence alike: every
/// segment is muted; the target volume and the fade are not used.
pub open spec fn muting_job(input: Seq<char>, output: Seq<char>, segments: Seq<AudioSegment>)
    -> JobModel {
    isolation_job(input, output, segments)
}

/// The tone for segment number `index`.
pub open spec fn tone_source(segment: AudioSegment, frequency: u64, index: nat) -> Seq<char> {
    "sine=frequency="@ + shortest3(frequency as nat) + ":duration="@ + shortest3(
        segment.duration as nat,
    ) + ":sample_rate=16000[beep"@ + decimal(index) + "]"@
}

/// The mix of the audio with the source `label` number `index`.
pub open spec fn mix_with(label: Seq<char>, fade_duration: u64, index: nat) -> Seq<char> {
    "[0:a]["@ + label + decimal(index) + "]amix=inputs=2:duration=first:dropout_transition="@
        + shortest3(fade_duration as nat)
}

/// The filters of the first `n` segments of the beep: for each segment the
/// tone and its mix with the audio.
pub open spec fn tone_filters(
    segments: Seq<AudioSegment>,
    frequency: u64,
    fade_duration: u64,
    n: nat,
) -> Seq<Seq<char>>
    decreases n,
{
    if n == 0 {
        seq!["[0:a]"@]
    } else {
        tone_filters(segments, frequency, fade_duration, (n - 1) as nat).push(
            tone_source(segments[n - 1], frequency, (n - 1) as nat),
        ).push(
            mix_with("beep"@, fade_duration, (n - 1) as nat) + "[mixed"@ + decimal((n - 1) as nat)
                + "]"@,
        )
    }
}

/// The noise for segment number `index`.
pub open spec fn noise_source(segment: AudioSegment, volume: u64, index: nat) -> Seq<char> {
    "anoisesrc=duration="@ + shortest3(segment.duration as nat)
        + ":sample_rate=16000:amplitude="@ + shortest3(volume as nat) + "[noise"@ + decimal(index)
        + "]"@
}

/// The mix of the audio with the noise for segment number `index`, active
/// inside the segment.
pub open spec fn noise_mix(segment: AudioSegment, fade_duration: u64, index: nat) -> Seq<char> {
    mix_with("noise"@, fade_duration, index) + ":enable='between(t,"@ + shortest3(
        segment.start_time as nat,
    ) + ","@ + shortest3(segment.end_time as nat) + ")'[mixed"@ + decimal(index) + "]"@
}

/// The filters of the first `n` segments of the noise: for each segment
/// the noise and its mix with the audio.
pub open spec fn noise_filters(
    segments: Seq<AudioSegment>,
    volume: u64,
    fade_duration: u64,
    n: nat,
) -> Seq<Seq<char>>
    decreases n,
{
    if n == 0 {
        Seq::empty()
    } else {
        noise_filters(segments, volume, fade_duration, (n - 1) as nat).push(
            noise_source(segments[n - 1], volume, (n - 1) as nat),
        ).push(noise_mix(segments[n - 1], fade_duration, (n - 1) as nat))
    }
}

/// The job that runs the media tool with a filter graph.
pub open spec fn graph_job(
    input: Seq<char>,
    graph: Seq<char>,
    output: Seq<char>,
    spawn_failure: Seq<char>,
    exit_failure: Seq<char>,
) -> JobModel {
    JobModel::Run(
        step_model(
            "ffmpeg"@,
            seq!["-i"@, input, "-filter_complex"@, graph, "-c:a"@, "pcm_s16le"@, "-y"@, output],
            spawn_failure,
            false,
            exit_failure,
        ),
    )
}

/// The job that replaces the segments by a tone; without segments, the
/// job that copies the file.
pub open spec fn beep_job(
    input: Seq<char>,
    output: Seq<char>,
    segments: Seq<AudioSegment>,
    frequency: u64,
    fade_duration: u64,
) -> JobModel {
    if segments.len() == 0 {
        plain_copy(input, output)
    } else {
        graph_job(
            input,
            joined(tone_filters(segments, frequency, fade_duration, segments.len()), ";"@),
            output,
            "Failed to execute ffmpeg for beep censoring"@,
            "ffmpeg failed to apply beep censoring: "@,
        )
    }
}

/// The job that replaces the segments by white noise; without segments,
/// the job that copies the file.
pub open spec fn noise_job(
    input: Seq<char>,
    output: Seq<char>,
    segments: Seq<AudioSegment>,
    volume: u64,
    fade_duration: u64,
) -> JobModel {
    if segments.len() == 0 {
        plain_copy(input, output)
    } else {
        graph_job(
            input,
            joined(noise_filters(segments, volume, fade_duration, segments.len()), ";"@),
            output,
            "Failed to execute ffmpeg for noise censoring"@,
            "ffmpeg failed to apply noise censoring: "@,
        )
    }
}

/// The job that censors the segments as the settings say.
pub open spec fn censor_job(
    input: Seq<char>,
    output: Seq<char>,
    segments: Seq<AudioSegment>,
    censor_config: CensorConfig,
) -> JobModel {
    match censor_config.strategy {
        CensorStrategy::VolumeReduction(_) => muting_job(input, output, segments),
        CensorStrategy::Silence => muting_job(input, output, segments),
        CensorStrategy::Beep(frequency) => beep_job(
            input,
            output,
            segments,
            frequency,
            censor_config.fade_duration,
        ),
        CensorStrategy::WhiteNoise(volume) => noise_job(
            input,
            output,
            segments,
            volume,
            censor_config.fade_duration,
        ),
    }
}

/// Plans the reduction of the volume inside the segments.
pub fn apply_volume_censoring(
    input_path: &str,
    output_path: &str,
    segments: &[AudioSegment],
    target_volume: u64,
    fade_duration: u64,
) -> (job: AudioJob)
    ensures
        job@ == muting_job(input_path@, output_path@, segments@),
{
    apply_smooth_censoring(input_path, output_path, segments, target_volume, fade_duration)
}

/// Plans the silencing of the segments: a reduction of the volume to
/// nothing.
pub fn apply_silence_censoring(
    input_path: &str,
    output_path: &str,
    segments: &[AudioSegment],
    fade_duration: u64,
) -> (job: AudioJob)
    ensures
        job@ == muting_job(input_path@, output_path@, segments@),
{
    apply_smooth_censoring(input_path, output_path, segments, 0, fade_duration)
}

/// Builds the job that runs the media tool with a filter graph.
fn plan_graph(
    input_path: &str,
    graph: &str,
    output_path: &str,
    spawn_failure: &str,
    exit_failure: &str,
) -> (job: AudioJob)
    ensures
        job@ == graph_job(input_path@, graph@, output_path@, spawn_failure@, exit_failure@),
{
    let args = [
        "-i",
        input_path,
        "-filter_complex",
        graph,
        "-c:a",
        "pcm_s16le",
        "-y",
        output_path,
    ];
    assert(args@.map_values(|p: &str| p@) =~= seq![
        "-i"@,
        input_path@,
        "-filter_complex"@,
        graph@,
        "-c:a"@,
        "pcm_s16le"@,
        "-y"@,
        output_path@,
    ]);
    AudioJob::Run(tool_step("ffmpeg", &args, spawn_failure, false, exit_failure))
}

/// Builds the mix of the audio with the source `label` number `index`.
fn build_mix(label: &str, fade_duration: u64, index: usize) -> (mix: String)
    ensures
        mix@ == mix_with(label@, fade_duration, index as nat),
{
    let mut s = "[0:a][".to_string();
    s.append(label);
    push_decimal(&mut s, index as u128);
    s.append("]amix=inputs=2:duration=first:dropout_transition=");
    push_shortest3(&mut s, fade_duration as u128);
    s
}

/// Plans the replacement of the segments by a tone of `frequency`
/// thousandths of a hertz.
pub fn apply_beep_censoring(
    input_path: &str,
    output_path: &str,
    segments: &[AudioSegment],
    frequency: u64,
    fade_duration: u64,
) -> (job: AudioJob)
    ensures
        job@ == beep_job(input_path@, output_path@, segments@, frequency, fade_duration),
{
    if segments.len() == 0 {
        return AudioJob::Copy(
            copy_step(input_path, output_path, "Failed to copy audio file", false),
        );
    }
    let mut filters: Vec<String> = Vec::new();
    filters.push("[0:a]".to_string());
    let mut i: usize = 0;
    while i < segments.len()
        invariant
            i <= segments@.len(),
            views(filters@) == tone_filters(segments@, frequency, fade_duration, i as nat),
        decreases segments@.len() - i,
    {
        let segment = &segments[i];
        let mut source = "sine=frequency=".to_string();
        push_shortest3(&mut source, frequency as u128);
        source.append(":duration=");
        push_shortest3(&mut source, segment.duration as u128);
        source.append(":sample_rate=16000[beep");
        push_decimal(&mut source, i as u128);
        source.append("]");
        let mut mix = build_mix("beep", fade_duration, i);
        mix.append("[mixed");
        push_decimal(&mut mix, i as u128);
        mix.append("]");
        filters.push(source);
        filters.push(mix);
        i = i + 1;
    }
    let graph = join(&filters, ";");
    plan_graph(
        input_path,
        graph.as_str(),
        output_path,
        "Failed to execute ffmpeg for beep censoring",
        "ffmpeg failed to apply beep censoring: ",
    )
}

/// Plans the replacement of the segments by white noise of `noise_volume`
/// thousandths.
pub fn apply_noise_censoring(
    input_path: &str,
    output_path: &str,
    segments: &[AudioSegment],
    noise_volume: u64,
    fade_duration: u64,
) -> (job: AudioJob)
    ensures
        job@ == noise_job(input_path@, output_path@, segments@, noise_volume, fade_duration),
{
    if segments.len() == 0 {
        return AudioJob::Copy(
            copy_step(input_path, output_path, "Failed to copy audio file", false),
        );
    }
    let mut filters: Vec<String> = Vec::new();
    let mut i: usize = 0;
    while i < segments.len()
        invariant
            i <= segments@.len(),
            views(filters@) == noise_filters(segments@, noise_volume, fade_duration, i as nat),
        decreases segments@.len() - i,
    {
        let segment = &segments[i];
        let mut source = "anoisesrc=duration=".to_string();
        push_shortest3(&mut source, segment.duration as u128);
        source.append(":sample_rate=16000:amplitude=");
        push_shortest3(&mut source, noise_volume as u128);
        source.append("[noise");
        push_decimal(&mut source, i as u128);
        source.append("]");
        let mut mix = build_mix("noise", fade_duration, i);
        mix.append(":enable='between(t,");
        push_shortest3(&mut mix, segment.start_time as u128);
        mix.append(",");
        push_shortest3(&mut mix, segment.end_time as u128);
        mix.append(")'[mixed");
        push_decimal(&mut mix, i as u128);
        mix.append("]");
        filters.push(source);
        filters.push(mix);
        i = i + 1;
    }
    let graph = join(&filters, ";");
    plan_graph(
        input_path,
        graph.as_str(),
        output_path,
        "Failed to execute ffmpeg for noise censoring",
        "ffmpeg failed to apply noise censoring: ",
    )
}

/// Plans the censoring of the segments as the settings say.
pub fn apply_censor_config(
    input_path: &str,
    output_path: &str,
    segments: &[AudioSegment],
    censor_config: &CensorConfig,
) -> (job: AudioJob)
    ensures
        job@ == censor_job(input_path@, output_path@, segments@, *censor_config),
{
    match censor_config.strategy {
        CensorStrategy::VolumeReduction(volume) => apply_volume_censoring(
            input_path,
            output_path,
            segments,
            volume,
            censor_config.fade_duration,
        ),
        CensorStrategy::Silence => apply_silence_censoring(
            input_path,
            output_path,
            segments,
            censor_config.fade_duration,
        ),
        CensorStrategy::Beep(frequency) => apply_beep_censoring(
            input_path,
            output_path,
            segments,
            frequency,
            censor_config.fade_duration,
        ),
        CensorStrategy::WhiteNoise(volume) => apply_noise_censoring(
            input_path,
            output_path,
            segments,
            volume,
            censor_config.fade_duration,
        ),
    }
}

/// The name of the file that holds the censored audio of the process
/// `process_id`.
pub fn censored_audio_name(process_id: u32) -> (name: String)
    ensures
        name@ == "babymode_censored_"@ + decimal(process_id as nat) + ".wav"@,
{
    let mut name = "babymode_censored_".to_string();
    push_decimal(&mut name, process_id as u128);
    name.append(".wav");
    name
}

/// Plans the censoring of the audio at `input_audio_path` into
/// `output_path`: the detections are merged, the segments are padded, and
/// the volume inside them is reduced as `config` says.
pub fn apply_censoring(
    input_audio_path: &str,
    output_path: &str,
    detections: &[WordDetection],
    config: &Config,
) -> (job: AudioJob)
    requires
        all_timed(detections@),
        all_paddable(detections@),
    ensures
        job@ == censor_job(
            input_audio_path@,
            output_path@,
            censored_segments(detections@),
            settings_for(config),
        ),
        job@ == muting_job(input_audio_path@, output_path@, censored_segments(detections@)),
        detections@.len() == 0 ==> job@ == plain_copy(input_audio_path@, output_path@),
{
    let censor_config = CensorConfig::from(config);
    let segments = plan_segments(detections, &censor_config);
    apply_censor_config(input_audio_path, output_path, segments.as_slice(), &censor_config)
}

/// The numbers of a run on audio of `audio_duration` milliseconds: how
/// many detections and segments there are, how long the censored segments
/// last together, and what share of the audio that is.
pub fn get_censoring_stats(audio_duration: u64, detections: &[WordDetection], config: &Config)
    -> (stats: CensoringStats)
    requires
        all_timed(detections@),
        all_paddable(detections@),
    ensures
        stats.total_detections == detections@.len(),
        stats.merged_segments == censored_segments(detections@).len(),
        stats.total_censored_duration == total_duration(censored_segments(detections@)),
        stats.percentage_censored == percentage(
            total_duration(censored_segments(detections@)),
            audio_duration as nat,
        ),
        stats.audio_duration == audio_duration,
{
    let censor_config = CensorConfig::from(config);
    let segments = plan_segments(detections, &censor_config);
    let mut total: u64 = 0;
    let mut i: usize = 0;
    while i < segments.len()
        invariant
            i <= segments@.len(),
            all_well_formed(segments@),
            separated(segments@, MERGE_GAP - 2 * PADDING),
            total == total_duration(segments@.take(i as int)),
            i > 0 ==> total <= segments@[i - 1].end_time,
        decreases segments@.len() - i,
    {
        let segment = segments[i];
        proof {
            assert(segments@.take(i + 1).drop_last() =~= segments@.take(i as int));
        }
        total = total + segment.duration;
        i = i + 1;
    }
    assert(segments@.take(segments@.len() as int) =~= segments@);
    let percentage_censored: u128 = if audio_duration > 0 {
        total as u128 * 100_000 / audio_duration as u128
    } else {
        0
    };
    CensoringStats {
        total_detections: detections.len(),
        merged_segments: segments.len(),
        total_censored_duration: total,
        percentage_censored,
        audio_duration,
    }
}

} // verus!
