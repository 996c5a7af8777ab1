//! Censoring strategies: interchangeable algorithms that turn the segments
//! to censor into the job that rewrites the audio, and the registry that
//! holds them by name.

use crate::audio::{all_well_formed, AudioSegment};
use crate::error::{BabymodeError, ErrorModel, Result};
use crate::text::{
    decimal, fixed3, join, joined, push_decimal, push_fixed3, push_shortest3, shortest3, views,
};
use crate::tool::{copy_step, step_model, tool_step, AudioJob, CopyModel, JobModel};
use vstd::prelude::*;
use vstd::string::*;

verus! {

/// The settings shared by all strategies. Each strategy reads, and checks,
/// only the fields it uses.
#[derive(Debug, Clone)]
pub struct CensoringConfig {
    /// The volume inside a censored window, in thousandths of full volume.
    pub volume: u64,
    /// The length of a fade, in milliseconds.
    pub fade_duration: u64,
    /// The path of an audio file to play in place of a censored window.
    pub replacement_audio: Option<String>,
    /// The frequency of the beep tone, in thousandths of a hertz.
    pub beep_frequency: Option<u64>,
    /// Further parameters by name, each value as JSON text.
    pub custom_params: Vec<(String, String)>,
}

impl Default for CensoringConfig {
    /// A tenth of full volume, fades of 200 ms and a beep of 1000 Hz.
    fn default() -> (config: Self)
        ensures
            config.volume == 100,
            config.fade_duration == 200,
            config.replacement_audio is None,
            config.beep_frequency == Some(1_000_000u64),
            config.custom_params@.len() == 0,
    {
        CensoringConfig {
            volume: 100,
            fade_duration: 200,
            replacement_audio: None,
            beep_frequency: Some(1_000_000),
            custom_params: Vec::new(),
        }
    }
}

/// The job that copies the input to the output unchanged.
pub open spec fn copy_job(input: Seq<char>, output: Seq<char>) -> JobModel {
    JobModel::Copy(
        CopyModel { from: input, to: output, failure: "Failed to copy audio"@, detail: true },
    )
}

/// The job that runs the media tool on `input` with the filter `filter`,
/// given under the option `flag`, and writes 16-bit PCM to `output`.
pub open spec fn filter_job(
    input: Seq<char>,
    flag: Seq<char>,
    filter: Seq<char>,
    output: Seq<char>,
    exit_failure: Seq<char>,
) -> JobModel {
    JobModel::Run(
        step_model(
            "ffmpeg"@,
            seq!["-i"@, input, flag, filter, "-c:a"@, "pcm_s16le"@, "-y"@, output],
            "FFmpeg failed"@,
            true,
            exit_failure,
        ),
    )
}

/// The condition that holds while the time lies in the window of `segment`,
/// in seconds with three decimals.
pub open spec fn between(segment: AudioSegment) -> Seq<char> {
    "between(t,"@ + fixed3(segment.start_time as nat) + ","@ + fixed3(segment.end_time as nat)
        + ")"@
}

/// For each segment, `prefix`, the window of the segment and `suffix`.
pub open spec fn window_filters(segments: Seq<AudioSegment>, prefix: Seq<char>, suffix: Seq<char>)
    -> Seq<Seq<char>> {
    segments.map_values(|s: AudioSegment| prefix + between(s) + suffix)
}

/// The filter that mutes every window.
pub open spec fn silence_filter(segments: Seq<AudioSegment>) -> Seq<char> {
    joined(window_filters(segments, "volume=enable='"@, "':volume=0"@), ","@)
}

/// The filter that reverses every window.
pub open spec fn reverse_filter(segments: Seq<AudioSegment>) -> Seq<char> {
    joined(window_filters(segments, "areverse=enable='"@, "'"@), ","@)
}

/// Where the fade at the start of a window ends, in milliseconds.
pub open spec fn fade_in_end(segment: AudioSegment, config: &CensoringConfig) -> int {
    segment.start_time + config.fade_duration
}

/// Where the fade at the end of a window starts, in milliseconds.
pub open spec fn fade_out_start(segment: AudioSegment, config: &CensoringConfig) -> int {
    segment.end_time - config.fade_duration
}

/// Whether the window has room for a fade back to full volume: it is longer
/// than two fades.
pub open spec fn has_fade_out(segment: AudioSegment, config: &CensoringConfig) -> bool {
    fade_out_start(segment, config) > fade_in_end(segment, config)
}

/// The filter for the start of a window: a linear fade over the first
/// `fade_duration`, then the reduced volume up to the end of the window.
pub open spec fn fade_in_filter(segment: AudioSegment, config: &CensoringConfig) -> Seq<char> {
    "volume=enable='"@ + between(segment) + "':volume='if(lt(t,"@ + fixed3(
        fade_in_end(segment, config) as nat,
    ) + "),(t-"@ + fixed3(segment.start_time as nat) + ")/"@ + fixed3(config.fade_duration as nat)
        + "*"@ + fixed3(config.volume as nat) + ","@ + fixed3(config.volume as nat) + ")'"@
}

/// The filter for the end of a window: a linear fade back to full volume
/// over the last `fade_duration`.
pub open spec fn fade_out_filter(segment: AudioSegment, config: &CensoringConfig) -> Seq<char> {
    "volume=enable='between(t,"@ + fixed3(fade_out_start(segment, config) as nat) + ","@ + fixed3(
        segment.end_time as nat,
    ) + ")':volume='if(gt(t,"@ + fixed3(fade_out_start(segment, config) as nat) + "),("@ + fixed3(
        segment.end_time as nat,
    ) + "-t)/"@ + fixed3(config.fade_duration as nat) + "*"@ + fixed3(config.volume as nat)
        + "+1-"@ + fixed3(config.volume as nat) + ","@ + fixed3(config.volume as nat) + ")'"@
}

/// The filters that reduce the volume in every window: for each window the
/// filter of its start, followed by the filter of its end where the window
/// is longer than two fades.
pub open spec fn volume_filters(segments: Seq<AudioSegment>, config: &CensoringConfig) -> Seq<
    Seq<char>,
>
    decreases segments.len(),
{
    if segments.len() == 0 {
        Seq::empty()
    } else {
        let before = volume_filters(segments.drop_last(), config).push(
            fade_in_filter(segments.last(), config),
        );
        if has_fade_out(segments.last(), config) {
            before.push(fade_out_filter(segments.last(), config))
        } else {
            before
        }
    }
}

/// The tone that replaces window number `index`.
pub open spec fn beep_source(segment: AudioSegment, frequency: u64, index: nat) -> Seq<char> {
    "sine=frequency="@ + shortest3(frequency as nat) + ":duration="@ + shortest3(
        (segment.end_time - segment.start_time) as nat,
    ) + "[beep"@ + decimal(index) + "]"@
}

/// The two filters of window number `index`: the tone, and the mix that
/// mutes the audio of the file inside the window.
pub open spec fn beep_filters(segment: AudioSegment, frequency: u64, index: nat) -> Seq<char> {
    beep_source(segment, frequency, index) + ";["@ + beep_source(segment, frequency, index)
        + "][beep"@ + decimal(index)
        + "]amix=inputs=2:duration=first:dropout_transition=0,volume=enable='"@ + between(segment)
        + "':volume=0[out"@ + decimal(index) + "]"@
}

/// The filters of the first `n` windows.
pub open spec fn beep_parts(segments: Seq<AudioSegment>, frequency: u64, n: nat) -> Seq<Seq<char>>
    decreases n,
{
    if n == 0 {
        Seq::empty()
    } else {
        beep_parts(segments, frequency, (n - 1) as nat).push(
            beep_filters(segments[n - 1], frequency, (n - 1) as nat),
        )
    }
}

/// The filter graph that replaces every window by a tone.
pub open spec fn beep_filter(segments: Seq<AudioSegment>, frequency: u64) -> Seq<char> {
    "[0:a]"@ + joined(beep_parts(segments, frequency, segments.len()), ";"@)
}

/// The frequency of the tone: the configured one, or 1000 Hz.
pub open spec fn beep_frequency(config: &CensoringConfig) -> u64 {
    match config.beep_frequency {
        Some(frequency) => frequency,
        None => 1_000_000,
    }
}

/// Builds the job that copies the input to the output unchanged.
fn plan_copy(input_path: &str, output_path: &str) -> (job: AudioJob)
    ensures
        job@ == copy_job(input_path@, output_path@),
{
    AudioJob::Copy(copy_step(input_path, output_path, "Failed to copy audio", true))
}

/// Builds the job that runs the media tool with a filter.
fn plan_filter(
    input_path: &str,
    flag: &str,
    filter: &str,
    output_path: &str,
    exit_failure: &str,
) -> (job: AudioJob)
    ensures
        job@ == filter_job(input_path@, flag@, filter@, output_path@, exit_failure@),
{
    let args = ["-i", input_path, flag, filter, "-c:a", "pcm_s16le", "-y", output_path];
    assert(args@.map_values(|p: &str| p@) =~= seq![
        "-i"@,
        input_path@,
        flag@,
        filter@,
        "-c:a"@,
        "pcm_s16le"@,
        "-y"@,
        output_path@,
    ]);
    AudioJob::Run(tool_step("ffmpeg", &args, "FFmpeg failed", true, exit_failure))
}

/// Appends the window condition of `segment` to `s`.
fn push_between(s: &mut String, segment: &AudioSegment)
    ensures
        final(s)@ == old(s)@ + between(*segment),
{
    s.append("between(t,");
    push_fixed3(s, segment.start_time as u128);
    s.append(",");
    push_fixed3(s, segment.end_time as u128);
    s.append(")");
}

/// For each segment, `prefix`, the window of the segment and `suffix`.
pub(crate) fn build_window_filters(
    segments: &[AudioSegment],
    prefix: &str,
    suffix: &str,
) -> (filters: Vec<String>)
    ensures
        views(filters@) == window_filters(segments@, prefix@, suffix@),
{
    let mut filters: Vec<String> = Vec::new();
    let mut i: usize = 0;
    while i < segments.len()
        invariant
            i <= segments@.len(),
            views(filters@) == window_filters(segments@.take(i as int), prefix@, suffix@),
        decreases segments@.len() - i,
    {
        let mut filter = prefix.to_string();
        push_between(&mut filter, &segments[i]);
        filter.append(suffix);
        let ghost before = views(filters@);
        filters.push(filter);
        assert(views(filters@) =~= before.push(filter@));
        i = i + 1;
    }
    filters
}

/// Builds the filter for the start of a window.
fn build_fade_in(segment: &AudioSegment, config: &CensoringConfig) -> (filter: String)
    ensures
        filter@ == fade_in_filter(*segment, config),
{
    let mut s = "volume=enable='".to_string();
    push_between(&mut s, segment);
    s.append("':volume='if(lt(t,");
    push_fixed3(&mut s, segment.start_time as u128 + config.fade_duration as u128);
    s.append("),(t-");
    push_fixed3(&mut s, segment.start_time as u128);
    s.append(")/");
    push_fixed3(&mut s, config.fade_duration as u128);
    s.append("*");
    push_fixed3(&mut s, config.volume as u128);
    s.append(",");
    push_fixed3(&mut s, config.volume as u128);
    s.append(")'");
    s
}

/// Builds the filter for the end of a window.
fn build_fade_out(segment: &AudioSegment, config: &CensoringConfig) -> (filter: String)
    requires
        has_fade_out(*segment, config),
    ensures
        filter@ == fade_out_filter(*segment, config),
{
    let start: u64 = segment.end_time - config.fade_duration;
    let mut s = "volume=enable='between(t,".to_string();
    push_fixed3(&mut s, start as u128);
    s.append(",");
    push_fixed3(&mut s, segment.end_time as u128);
    s.append(")':volume='if(gt(t,");
    push_fixed3(&mut s, start as u128);
    s.append("),(");
    push_fixed3(&mut s, segment.end_time as u128);
    s.append("-t)/");
    push_fixed3(&mut s, config.fade_duration as u128);
    s.append("*");
    push_fixed3(&mut s, config.volume as u128);
    s.append("+1-");
    push_fixed3(&mut s, config.volume as u128);
    s.append(",");
    push_fixed3(&mut s, config.volume as u128);
    s.append(")'");
    s
}

/// Builds the filters that reduce the volume in every window.
fn build_volume_filters(segments: &[AudioSegment], config: &CensoringConfig) -> (filters: Vec<
    String,
>)
    ensures
        views(filters@) == volume_filters(segments@, config),
{
    let mut filters: Vec<String> = Vec::new();
    let mut i: usize = 0;
    while i < segments.len()
        invariant
            i <= segments@.len(),
            views(filters@) == volume_filters(segments@.take(i as int), config),
        decreases segments@.len() - i,
    {
        let segment = &segments[i];
        proof {
            assert(segments@.take(i + 1).drop_last() =~= segments@.take(i as int));
        }
        let fade_in = build_fade_in(segment, config);
        filters.push(fade_in);
        if segment.end_time >= config.fade_duration && (segment.end_time - config.fade_duration)
            as u128 > segment.start_time as u128 + config.fade_duration as u128 {
            let fade_out = build_fade_out(segment, config);
            filters.push(fade_out);
        }
        i = i + 1;
    }
    assert(segments@.take(segments@.len() as int) =~= segments@);
    filters
}

/// Appends the tone that replaces window number `index` to `s`.
fn push_beep_source(s: &mut String, segment: &AudioSegment, frequency: u64, index: usize)
    requires
        segment.well_formed(),
    ensures
        final(s)@ == old(s)@ + beep_source(*segment, frequency, index as nat),
{
    s.append("sine=frequency=");
    push_shortest3(s, frequency as u128);
    s.append(":duration=");
    push_shortest3(s, (segment.end_time - segment.start_time) as u128);
    s.append("[beep");
    push_decimal(s, index as u128);
    s.append("]");
}

/// Builds the two filters of window number `index`.
fn build_beep_filters(segment: &AudioSegment, frequency: u64, index: usize) -> (filter: String)
    requires
        segment.well_formed(),
    ensures
        filter@ == beep_filters(*segment, frequency, index as nat),
{
    let mut s = String::new();
    push_beep_source(&mut s, segment, frequency, index);
    s.append(";[");
    push_beep_source(&mut s, segment, frequency, index);
    s.append("][beep");
    push_decimal(&mut s, index as u128);
    s.append("]amix=inputs=2:duration=first:dropout_transition=0,volume=enable='");
    push_between(&mut s, segment);
    s.append("':volume=0[out");
    push_decimal(&mut s, index as u128);
    s.append("]");
    s
}

/// Builds the filter graph that replaces every window by a tone.
fn build_beep_filter(segments: &[AudioSegment], frequency: u64) -> (filter: String)
    requires
        all_well_formed(segments@),
    ensures
        filter@ == beep_filter(segments@, frequency),
{
    let mut parts: Vec<String> = Vec::new();
    let mut i: usize = 0;
    while i < segments.len()
        invariant
            i <= segments@.len(),
            all_well_formed(segments@),
            views(parts@) == beep_parts(segments@, frequency, i as nat),
        decreases segments@.len() - i,
    {
        let part = build_beep_filters(&segments[i], frequency, i);
        parts.push(part);
        i = i + 1;
    }
    let graph = join(&parts, ";");
    let mut filter = "[0:a]".to_string();
    filter.append(graph.as_str());
    filter
}

/// A censoring strategy: an algorithm that rewrites the audio inside the
/// given segments and leaves the rest untouched.
pub trait CensoringStrategy {
    /// The unique name under which the registry holds the strategy.
    spec fn name_spec(&self) -> Seq<char>;

    /// A summary for the reader.
    spec fn description_spec(&self) -> Seq<char>;

    /// The error with which the strategy rejects `config`, if it does.
    spec fn rejection(&self, config: &CensoringConfig) -> Option<ErrorModel>;

    /// The job that censors `segments` of the audio at `input` into
    /// `output`.
    spec fn job_spec(
        &self,
        input: Seq<char>,
        output: Seq<char>,
        segments: Seq<AudioSegment>,
        config: &CensoringConfig,
    ) -> JobModel;

    /// The name of the strategy.
    fn name(&self) -> (name: &str)
        ensures
            name@ == self.name_spec(),
    ;

    /// What the strategy does.
    fn description(&self) -> (description: &str)
        ensures
            description@ == self.description_spec(),
    ;

    /// Checks the fields of `config` that the strategy uses.
    fn validate_config(&self, config: &CensoringConfig) -> (r: Result<()>)
        ensures
            match self.rejection(config) {
                Some(error) => r matches Err(e) && e@ == error,
                None => r is Ok,
            },
    ;

    /// Plans the censoring of `segments`: the job that rewrites the audio at
    /// `input_path` into `output_path`. The input is never changed in place.
    fn apply_censoring(
        &self,
        input_path: &str,
        output_path: &str,
        segments: &[AudioSegment],
        config: &CensoringConfig,
    ) -> (job: AudioJob)
        requires
            all_well_formed(segments@),
        ensures
            job@ == self.job_spec(input_path@, output_path@, segments@, config),
    ;
}

/// Replaces profanity with complete silence.
#[derive(Debug, Clone, Copy)]
pub struct SilenceStrategy;

/// Reduces the volume during profanity, with fades at both ends.
#[derive(Debug, Clone, Copy)]
pub struct VolumeReductionStrategy;

/// Replaces profanity with a beep tone.
#[derive(Debug, Clone, Copy)]
pub struct BeepStrategy;

/// Plays profanity backwards.
#[derive(Debug, Clone, Copy)]
pub struct ReverseAudioStrategy;

impl CensoringStrategy for SilenceStrategy {
    open spec fn name_spec(&self) -> Seq<char> {
        "silence"@
    }

    open spec fn description_spec(&self) -> Seq<char> {
        "Replace profanity with complete silence"@
    }

    open spec fn rejection(&self, config: &CensoringConfig) -> Option<ErrorModel> {
        None
    }

    open spec fn job_spec(
        &self,
        input: Seq<char>,
        output: Seq<char>,
        segments: Seq<AudioSegment>,
        config: &CensoringConfig,
    ) -> JobModel {
        if segments.len() == 0 {
            copy_job(input, output)
        } else {
            filter_job(
                input,
                "-af"@,
                silence_filter(segments),
                output,
                "FFmpeg failed with silence strategy: "@,
            )
        }
    }

    fn name(&self) -> (name: &str) {
        "silence"
    }

    fn description(&self) -> (description: &str) {
        "Replace profanity with complete silence"
    }

    fn validate_config(&self, config: &CensoringConfig) -> (r: Result<()>) {
        Ok(())
    }

    fn apply_censoring(
        &self,
        input_path: &str,
        output_path: &str,
        segments: &[AudioSegment],
        config: &CensoringConfig,
    ) -> (job: AudioJob) {
        if segments.len() == 0 {
            return plan_copy(input_path, output_path);
        }
        let filters = build_window_filters(segments, "volume=enable='", "':volume=0");
        let filter = join(&filters, ",");
        plan_filter(
            input_path,
            "-af",
            filter.as_str(),
            output_path,
            "FFmpeg failed with silence strategy: ",
        )
    }
}

/// The job of the silence strategy depends on the paths and the segments
/// alone: whatever the settings, it is the same job.
pub proof fn lemma_silence_ignores_settings(
    input: Seq<char>,
    output: Seq<char>,
    segments: Seq<AudioSegment>,
    a: &CensoringConfig,
    b: &CensoringConfig,
)
    ensures
        SilenceStrategy.job_spec(input, output, segments, a) == SilenceStrategy.job_spec(
            input,
            output,
            segments,
            b,
        ),
        SilenceStrategy.rejection(a) is None,
{
}

/// Without segments every strategy of the library plans the copy of the
/// input, whatever the settings.
pub proof fn lemma_no_segments_is_copy(
    strategy: BuiltinStrategy,
    input: Seq<char>,
    output: Seq<char>,
    config: &CensoringConfig,
)
    ensures
        strategy.job_spec(input, output, Seq::empty(), config) == copy_job(input, output),
{
}

/// The largest volume, in thousandths: full volume.
pub const MAX_VOLUME: u64 = 1000;

/// The longest fade, in milliseconds.
pub const MAX_FADE_DURATION: u64 = 5000;

/// The lowest frequency of a beep, in thousandths of a hertz.
pub const MIN_BEEP_FREQUENCY: u64 = 100_000;

/// The highest frequency of a beep, in thousandths of a hertz.
pub const MAX_BEEP_FREQUENCY: u64 = 10_000_000;

impl CensoringStrategy for VolumeReductionStrategy {
    open spec fn name_spec(&self) -> Seq<char> {
        "volume_reduction"@
    }

    open spec fn description_spec(&self) -> Seq<char> {
        "Reduce volume during profanity with smooth fading"@
    }

    open spec fn rejection(&self, config: &CensoringConfig) -> Option<ErrorModel> {
        if config.volume > MAX_VOLUME {
            Some(
                ErrorModel::Config {
                    field: "volume"@,
                    message: "Volume must be between 0.0 and 1.0"@,
                },
            )
        } else if config.fade_duration > MAX_FADE_DURATION {
            Some(
                ErrorModel::Config {
                    field: "fade_duration"@,
                    message: "Fade duration must be between 0.0 and 5.0 seconds"@,
                },
            )
        } else {
            None
        }
    }

    open spec fn job_spec(
        &self,
        input: Seq<char>,
        output: Seq<char>,
        segments: Seq<AudioSegment>,
        config: &CensoringConfig,
    ) -> JobModel {
        if segments.len() == 0 {
            copy_job(input, output)
        } else {
            filter_job(
                input,
                "-af"@,
                joined(volume_filters(segments, config), ","@),
                output,
                "FFmpeg failed with volume reduction: "@,
            )
        }
    }

    fn name(&self) -> (name: &str) {
        "volume_reduction"
    }

    fn description(&self) -> (description: &str) {
        "Reduce volume during profanity with smooth fading"
    }

    fn validate_config(&self, config: &CensoringConfig) -> (r: Result<()>) {
        if config.volume > MAX_VOLUME {
            return Err(
                BabymodeError::Config {
                    field: "volume".to_string(),
                    message: "Volume must be between 0.0 and 1.0".to_string(),
                },
            );
        }
        if config.fade_duration > MAX_FADE_DURATION {
            return Err(
                BabymodeError::Config {
                    field: "fade_duration".to_string(),
                    message: "Fade duration must be between 0.0 and 5.0 seconds".to_string(),
                },
            );
        }
        Ok(())
    }

    fn apply_censoring(
        &self,
        input_path: &str,
        output_path: &str,
        segments: &[AudioSegment],
        config: &CensoringConfig,
    ) -> (job: AudioJob) {
        if segments.len() == 0 {
            return plan_copy(input_path, output_path);
        }
        let filters = build_volume_filters(segments, config);
        let filter = join(&filters, ",");
        plan_filter(
            input_path,
            "-af",
            filter.as_str(),
            output_path,
            "FFmpeg failed with volume reduction: ",
        )
    }
}

impl CensoringStrategy for BeepStrategy {
    open spec fn name_spec(&self) -> Seq<char> {
        "beep"@
    }

    open spec fn description_spec(&self) -> Seq<char> {
        "Replace profanity with beep sounds"@
    }

    open spec fn rejection(&self, config: &CensoringConfig) -> Option<ErrorModel> {
        match config.beep_frequency {
            Some(frequency) if frequency < MIN_BEEP_FREQUENCY || frequency > MAX_BEEP_FREQUENCY => {
                Some(
                    ErrorModel::Config {
                        field: "beep_frequency"@,
                        message: "Beep frequency must be between 100 and 10000 Hz"@,
                    },
                )
            },
            _ => None,
        }
    }

    open spec fn job_spec(
        &self,
        input: Seq<char>,
        output: Seq<char>,
        segments: Seq<AudioSegment>,
        config: &CensoringConfig,
    ) -> JobModel {
        if segments.len() == 0 {
            copy_job(input, output)
        } else {
            filter_job(
                input,
                "-filter_complex"@,
                beep_filter(segments, beep_frequency(config)),
                output,
                "FFmpeg failed with beep strategy: "@,
            )
        }
    }

    fn name(&self) -> (name: &str) {
        "beep"
    }

    fn description(&self) -> (description: &str) {
        "Replace profanity with beep sounds"
    }

    fn validate_config(&self, config: &CensoringConfig) -> (r: Result<()>) {
        match config.beep_frequency {
            Some(frequency) => {
                if frequency < MIN_BEEP_FREQUENCY || frequency > MAX_BEEP_FREQUENCY {
                    return Err(
                        BabymodeError::Config {
                            field: "beep_frequency".to_string(),
                            message: "Beep frequency must be between 100 and 10000 Hz".to_string(),
                        },
                    );
                }
            },
            None => {},
        }
        Ok(())
    }

    fn apply_censoring(
        &self,
        input_path: &str,
        output_path: &str,
        segments: &[AudioSegment],
        config: &CensoringConfig,
    ) -> (job: AudioJob) {
        if segments.len() == 0 {
            return plan_copy(input_path, output_path);
        }
        let frequency: u64 = match config.beep_frequency {
            Some(frequency) => frequency,
            None => 1_000_000,
        };
        let filter = build_beep_filter(segments, frequency);
        plan_filter(
            input_path,
            "-filter_complex",
            filter.as_str(),
            output_path,
            "FFmpeg failed with beep strategy: ",
        )
    }
}

impl CensoringStrategy for ReverseAudioStrategy {
    open spec fn name_spec(&self) -> Seq<char> {
        "reverse"@
    }

    open spec fn description_spec(&self) -> Seq<char> {
        "Play profanity segments in reverse"@
    }

    open spec fn rejection(&self, config: &CensoringConfig) -> Option<ErrorModel> {
        None
    }

    open spec fn job_spec(
        &self,
        input: Seq<char>,
        output: Seq<char>,
        segments: Seq<AudioSegment>,
        config: &CensoringConfig,
    ) -> JobModel {
        if segments.len() == 0 {
            copy_job(input, output)
        } else {
            filter_job(
                input,
                "-af"@,
                reverse_filter(segments),
                output,
                "FFmpeg failed with reverse strategy: "@,
            )
        }
    }

    fn name(&self) -> (name: &str) {
        "reverse"
    }

    fn description(&self) -> (description: &str) {
        "Play profanity segments in reverse"
    }

    fn validate_config(&self, config: &CensoringConfig) -> (r: Result<()>) {
        Ok(())
    }

    fn apply_censoring(
        &self,
        input_path: &str,
        output_path: &str,
        segments: &[AudioSegment],
        config: &CensoringConfig,
    ) -> (job: AudioJob) {
        if segments.len() == 0 {
            return plan_copy(input_path, output_path);
        }
        let filters = build_window_filters(segments, "areverse=enable='", "'");
        let filter = join(&filters, ",");
        plan_filter(
            input_path,
            "-af",
            filter.as_str(),
            output_path,
            "FFmpeg failed with reverse strategy: ",
        )
    }
}

/// One of the four strategies that the library brings.
#[derive(Debug, Clone, Copy)]
pub enum BuiltinStrategy {
    Silence(SilenceStrategy),
    VolumeReduction(VolumeReductionStrategy),
    Beep(BeepStrategy),
    Reverse(ReverseAudioStrategy),
}

impl CensoringStrategy for BuiltinStrategy {
    open spec fn name_spec(&self) -> Seq<char> {
        match *self {
            BuiltinStrategy::Silence(s) => s.name_spec(),
            BuiltinStrategy::VolumeReduction(s) => s.name_spec(),
            BuiltinStrategy::Beep(s) => s.name_spec(),
            BuiltinStrategy::Reverse(s) => s.name_spec(),
        }
    }

    open spec fn description_spec(&self) -> Seq<char> {
        match *self {
            BuiltinStrategy::Silence(s) => s.description_spec(),
            BuiltinStrategy::VolumeReduction(s) => s.description_spec(),
            BuiltinStrategy::Beep(s) => s.description_spec(),
            BuiltinStrategy::Reverse(s) => s.description_spec(),
        }
    }

    open spec fn rejection(&self, config: &CensoringConfig) -> Option<ErrorModel> {
        match *self {
            BuiltinStrategy::Silence(s) => s.rejection(config),
            BuiltinStrategy::VolumeReduction(s) => s.rejection(config),
            BuiltinStrategy::Beep(s) => s.rejection(config),
            BuiltinStrategy::Reverse(s) => s.rejection(config),
        }
    }

    open spec fn job_spec(
        &self,
        input: Seq<char>,
        output: Seq<char>,
        segments: Seq<AudioSegment>,
        config: &CensoringConfig,
    ) -> JobModel {
        match *self {
            BuiltinStrategy::Silence(s) => s.job_spec(input, output, segments, config),
            BuiltinStrategy::VolumeReduction(s) => s.job_spec(input, output, segments, config),
            BuiltinStrategy::Beep(s) => s.job_spec(input, output, segments, config),
            BuiltinStrategy::Reverse(s) => s.job_spec(input, output, segments, config),
        }
    }

    fn name(&self) -> (name: &str) {
        match self {
            BuiltinStrategy::Silence(s) => s.name(),
            BuiltinStrategy::VolumeReduction(s) => s.name(),
            BuiltinStrategy::Beep(s) => s.name(),
            BuiltinStrategy::Reverse(s) => s.name(),
        }
    }

    fn description(&self) -> (description: &str) {
        match self {
            BuiltinStrategy::Silence(s) => s.description(),
            BuiltinStrategy::VolumeReduction(s) => s.description(),
            BuiltinStrategy::Beep(s) => s.description(),
            BuiltinStrategy::Reverse(s) => s.description(),
        }
    }

    fn validate_config(&self, config: &CensoringConfig) -> (r: Result<()>) {
        match self {
            BuiltinStrategy::Silence(s) => s.validate_config(config),
            BuiltinStrategy::VolumeReduction(s) => s.validate_config(config),
            BuiltinStrategy::Beep(s) => s.validate_config(config),
            BuiltinStrategy::Reverse(s) => s.validate_config(config),
        }
    }

    fn apply_censoring(
        &self,
        input_path: &str,
        output_path: &str,
        segments: &[AudioSegment],
        config: &CensoringConfig,
    ) -> (job: AudioJob) {
        match self {
            BuiltinStrategy::Silence(s) => s.apply_censoring(
                input_path,
                output_path,
                segments,
                config,
            ),
            BuiltinStrategy::VolumeReduction(s) => s.apply_censoring(
                input_path,
                output_path,
                segments,
                config,
            ),
            BuiltinStrategy::Beep(s) => s.apply_censoring(input_path, output_path, segments, config),
            BuiltinStrategy::Reverse(s) => s.apply_censoring(
                input_path,
                output_path,
                segments,
                config,
            ),
        }
    }
}

/// A strategy under a name and a description of its own: what it checks
/// and what it plans are those of the strategy it wraps.
#[derive(Debug, Clone)]
pub struct NamedStrategy<S: CensoringStrategy> {
    /// The name under which the registry holds the strategy.
    pub name: String,
    /// A summary for the reader.
    pub description: String,
    /// The strategy that does the work.
    pub strategy: S,
}

impl<S: CensoringStrategy> CensoringStrategy for NamedStrategy<S> {
    open spec fn name_spec(&self) -> Seq<char> {
        self.name@
    }

    open spec fn description_spec(&self) -> Seq<char> {
        self.description@
    }

    open spec fn rejection(&self, config: &CensoringConfig) -> Option<ErrorModel> {
        self.strategy.rejection(config)
    }

    open spec fn job_spec(
        &self,
        input: Seq<char>,
        output: Seq<char>,
        segments: Seq<AudioSegment>,
        config: &CensoringConfig,
    ) -> JobModel {
        self.strategy.job_spec(input, output, segments, config)
    }

    fn name(&self) -> (name: &str) {
        self.name.as_str()
    }

    fn description(&self) -> (description: &str) {
        self.description.as_str()
    }

    fn validate_config(&self, config: &CensoringConfig) -> (r: Result<()>) {
        self.strategy.validate_config(config)
    }

    fn apply_censoring(
        &self,
        input_path: &str,
        output_path: &str,
        segments: &[AudioSegment],
        config: &CensoringConfig,
    ) -> (job: AudioJob) {
        self.strategy.apply_censoring(input_path, output_path, segments, config)
    }
}

/// Whether no two of the strategies have the same name.
pub open spec fn names_distinct<S: CensoringStrategy>(entries: Seq<S>) -> bool {
    forall|i: int, j: int|
        0 <= i < j < entries.len() ==> (#[trigger] entries[i]).name_spec() != (
        #[trigger] entries[j]).name_spec()
}

/// Whether position `i` of `entries` holds the strategy named `name`.
pub open spec fn named_at<S: CensoringStrategy>(entries: Seq<S>, name: Seq<char>, i: int) -> bool {
    0 <= i < entries.len() && entries[i].name_spec() == name
}

/// The strategy named `name` among `entries`, if there is one.
pub open spec fn lookup<S: CensoringStrategy>(entries: Seq<S>, name: Seq<char>) -> Option<S> {
    if exists|i: int| named_at(entries, name, i) {
        Some(entries[choose|i: int| named_at(entries, name, i)])
    } else {
        None
    }
}

/// `entries` after the registration of `strategy`: it takes the place of
/// the strategy with the same name, or comes last if there is none.
pub open spec fn registered<S: CensoringStrategy>(entries: Seq<S>, strategy: S) -> Seq<S> {
    if exists|i: int| named_at(entries, strategy.name_spec(), i) {
        entries.update(choose|i: int| named_at(entries, strategy.name_spec(), i), strategy)
    } else {
        entries.push(strategy)
    }
}

/// The name and the description of each strategy, in order.
pub open spec fn listing<S: CensoringStrategy>(entries: Seq<S>) -> Seq<(Seq<char>, Seq<char>)> {
    entries.map_values(|s: S| (s.name_spec(), s.description_spec()))
}

/// What `apply_strategy` returns: the error for an unknown name, else the
/// rejection of the configuration by the strategy, else its job.
pub open spec fn applied<S: CensoringStrategy>(
    entries: Seq<S>,
    name: Seq<char>,
    input: Seq<char>,
    output: Seq<char>,
    segments: Seq<AudioSegment>,
    config: &CensoringConfig,
) -> std::result::Result<JobModel, ErrorModel> {
    match lookup(entries, name) {
        None => Err(ErrorModel::UnknownStrategy { name }),
        Some(strategy) => match strategy.rejection(config) {
            Some(error) => Err(error),
            None => Ok(strategy.job_spec(input, output, segments, config)),
        },
    }
}

/// Among strategies with distinct names, the strategy at a position is the
/// one that its name looks up.
pub proof fn lemma_lookup_at<S: CensoringStrategy>(entries: Seq<S>, i: int)
    requires
        names_distinct(entries),
        0 <= i < entries.len(),
    ensures
        lookup(entries, entries[i].name_spec()) == Some(entries[i]),
{
    let name = entries[i].name_spec();
    assert(named_at(entries, name, i));
}

/// Registration is last-write-wins: afterwards the name of the strategy
/// looks up the strategy, every other name looks up what it did before, and
/// the names are still distinct.
pub proof fn lemma_registered<S: CensoringStrategy>(entries: Seq<S>, strategy: S, other: Seq<char>)
    requires
        names_distinct(entries),
    ensures
        names_distinct(registered(entries, strategy)),
        lookup(registered(entries, strategy), strategy.name_spec()) == Some(strategy),
        other != strategy.name_spec() ==> lookup(registered(entries, strategy), other) == lookup(
            entries,
            other,
        ),
{
    let name = strategy.name_spec();
    let after = registered(entries, strategy);
    let at = if exists|i: int| named_at(entries, name, i) {
        choose|i: int| named_at(entries, name, i)
    } else {
        entries.len() as int
    };
    assert forall|i: int, j: int| 0 <= i < j < after.len() implies (#[trigger] after[i]).name_spec()
        != (#[trigger] after[j]).name_spec() by {
        if j == at && at == entries.len() {
            assert(!named_at(entries, name, i));
        }
    }
    lemma_lookup_at(after, at);
    if other != name {
        if exists|i: int| named_at(entries, other, i) {
            let k = choose|i: int| named_at(entries, other, i);
            lemma_lookup_at(after, k);
        } else {
            assert forall|i: int| !named_at(after, other, i) by {
                if 0 <= i < after.len() && i != at {
                    assert(!named_at(entries, other, i));
                }
            }
        }
    }
}

/// The strategies by name. Registering a strategy under a name that is
/// taken replaces the earlier one.
pub struct StrategyRegistry<S: CensoringStrategy> {
    strategies: Vec<S>,
}

impl<S: CensoringStrategy> StrategyRegistry<S> {
    /// The strategies in the order of their first registration.
    pub closed spec fn entries(&self) -> Seq<S> {
        self.strategies@
    }

    /// The invariant of the registry: the names are distinct.
    pub open spec fn well_formed(&self) -> bool {
        names_distinct(self.entries())
    }

    /// A registry without strategies.
    pub fn empty() -> (registry: Self)
        ensures
            registry.well_formed(),
            registry.entries() == Seq::<S>::empty(),
    {
        StrategyRegistry { strategies: Vec::new() }
    }

    /// The position of the strategy named `name`.
    fn position(&self, name: &str) -> (at: Option<usize>)
        ensures
            match at {
                Some(i) => named_at(self.entries(), name@, i as int),
                None => forall|i: int| !named_at(self.entries(), name@, i),
            },
    {
        let wanted = name.to_string();
        let mut i: usize = 0;
        while i < self.strategies.len()
            invariant
                i <= self.strategies@.len(),
                wanted@ == name@,
                forall|k: int| 0 <= k < i ==> !named_at(self.strategies@, name@, k),
            decreases self.strategies@.len() - i,
        {
            if self.strategies[i].name().to_string() == wanted {
                return Some(i);
            }
            i = i + 1;
        }
        None
    }

    /// Registers `strategy` under its name. A strategy that was registered
    /// under the same name before is replaced.
    pub fn register(&mut self, strategy: S)
        requires
            old(self).well_formed(),
        ensures
            final(self).well_formed(),
            final(self).entries() == registered(old(self).entries(), strategy),
            lookup(final(self).entries(), strategy.name_spec()) == Some(strategy),
            forall|other: Seq<char>|
                other != strategy.name_spec() ==> #[trigger] lookup(final(self).entries(), other)
                    == lookup(old(self).entries(), other),
    {
        let ghost before = self.strategies@;
        let ghost name = strategy.name_spec();
        proof {
            assert forall|other: Seq<char>| other != name implies #[trigger] lookup(
                registered(before, strategy),
                other,
            ) == lookup(before, other) by {
                lemma_registered(before, strategy, other);
            }
            lemma_registered(before, strategy, name);
        }
        match self.position(strategy.name()) {
            Some(i) => {
                self.strategies.set(i, strategy);
            },
            None => {
                self.strategies.push(strategy);
            },
        }
    }

    /// The strategy registered under `name`.
    pub fn get_strategy(&self, name: &str) -> (found: Option<&S>)
        requires
            self.well_formed(),
        ensures
            match found {
                Some(strategy) => lookup(self.entries(), name@) == Some(*strategy),
                None => lookup(self.entries(), name@) is None,
            },
    {
        match self.position(name) {
            Some(i) => {
                proof {
                    lemma_lookup_at(self.strategies@, i as int);
                }
                Some(&self.strategies[i])
            },
            None => None,
        }
    }

    /// The name and the description of every strategy, in the order of
    /// their first registration.
    pub fn list_strategies(&self) -> (list: Vec<(&str, &str)>)
        ensures
            list@.map_values(|entry: (&str, &str)| (entry.0@, entry.1@)) == listing(self.entries()),
    {
        let mut list: Vec<(&str, &str)> = Vec::new();
        let mut i: usize = 0;
        while i < self.strategies.len()
            invariant
                i <= self.strategies@.len(),
                list@.map_values(|entry: (&str, &str)| (entry.0@, entry.1@)) == listing(
                    self.strategies@.take(i as int),
                ),
            decreases self.strategies@.len() - i,
        {
            let ghost before = list@.map_values(|entry: (&str, &str)| (entry.0@, entry.1@));
            let entry = (self.strategies[i].name(), self.strategies[i].description());
            list.push(entry);
            proof {
                assert(list@.map_values(|entry: (&str, &str)| (entry.0@, entry.1@)) =~= before.push(
                    (entry.0@, entry.1@),
                ));
            }
            i = i + 1;
        }
        list
    }

    /// Plans the censoring of `segments` by the strategy registered under
    /// `strategy_name`. An unknown name is an error, and so is a
    /// configuration that the strategy rejects; in both cases no job is
    /// planned and nothing touches the output.
    pub fn apply_strategy(
        &self,
        strategy_name: &str,
        input_path: &str,
        output_path: &str,
        segments: &[AudioSegment],
        config: &CensoringConfig,
    ) -> (r: Result<AudioJob>)
        requires
            self.well_formed(),
            all_well_formed(segments@),
        ensures
            match applied(
                self.entries(),
                strategy_name@,
                input_path@,
                output_path@,
                segments@,
                config,
            ) {
                Ok(job) => r matches Ok(j) && j@ == job,
                Err(error) => r matches Err(e) && e@ == error,
            },
            lookup(self.entries(), strategy_name@) is None ==> (r matches Err(e) && e@
                == (ErrorModel::UnknownStrategy { name: strategy_name@ })),
    {
        let strategy = match self.get_strategy(strategy_name) {
            Some(strategy) => strategy,
            None => {
                return Err(BabymodeError::UnknownStrategy { name: strategy_name.to_string() });
            },
        };
        match strategy.validate_config(config) {
            Err(e) => Err(e),
            Ok(_) => Ok(strategy.apply_censoring(input_path, output_path, segments, config)),
        }
    }
}

/// The four strategies that the library brings, in the order in which a
/// new registry holds them.
pub open spec fn builtin_strategies() -> Seq<BuiltinStrategy> {
    seq![
        BuiltinStrategy::Silence(SilenceStrategy),
        BuiltinStrategy::VolumeReduction(VolumeReductionStrategy),
        BuiltinStrategy::Beep(BeepStrategy),
        BuiltinStrategy::Reverse(ReverseAudioStrategy),
    ]
}

/// The names of the four strategies differ from one another.
pub proof fn lemma_builtin_names_distinct()
    ensures
        names_distinct(builtin_strategies()),
        "silence"@ != "volume_reduction"@,
        "silence"@ != "beep"@,
        "silence"@ != "reverse"@,
        "volume_reduction"@ != "beep"@,
        "volume_reduction"@ != "reverse"@,
        "beep"@ != "reverse"@,
{
    reveal_strlit("silence");
    reveal_strlit("volume_reduction");
    reveal_strlit("beep");
    reveal_strlit("reverse");
    assert("volume_reduction"@.len() == 16);
    assert("silence"@[0] != "reverse"@[0]);
}

impl StrategyRegistry<BuiltinStrategy> {
    /// A registry that holds the four strategies of the library: `silence`,
    /// `volume_reduction`, `beep` and `reverse`.
    pub fn new() -> (registry: Self)
        ensures
            registry.well_formed(),
            registry.entries() == builtin_strategies(),
    {
        let mut registry = Self::empty();
        proof {
            lemma_builtin_names_distinct();
        }
        let silence = BuiltinStrategy::Silence(SilenceStrategy);
        let volume = BuiltinStrategy::VolumeReduction(VolumeReductionStrategy);
        let beep = BuiltinStrategy::Beep(BeepStrategy);
        let reverse = BuiltinStrategy::Reverse(ReverseAudioStrategy);
        registry.register(silence);
        registry.register(volume);
        registry.register(beep);
        registry.register(reverse);
        registry
    }
}

impl Default for StrategyRegistry<BuiltinStrategy> {
    /// The registry of the four strategies of the library.
    fn default() -> (registry: Self)
        ensures
            registry.well_formed(),
            registry.entries() == builtin_strategies(),
    {
        Self::new()
    }
}

} // verus!
