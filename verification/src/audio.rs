//! Audio formats and time segments, and the jobs that extract, convert and
//! rewrite an audio track.

use crate::error::{processing_error, ErrorModel, Result};
use crate::plugins::{between, silence_filter};
use crate::resources::TempFile;
use crate::text::{decimal, join, joined, push_decimal, push_shortest3, shortest3, views};
use crate::tool::{
    copy_step, step_model, tool_step, AudioJob, CopyModel, JobModel, StepModel, ToolStep,
};
use crate::text::{parse_thousandths, parsed_thousandths};
use crate::tool::strict_text;
use vstd::prelude::*;
use vstd::string::*;
use vstd::utf8::valid_utf8;

verus! {

/// The audio format that the transcription engine is fed.
#[derive(Debug, Clone)]
pub struct AudioConfig {
    /// Samples per second.
    pub sample_rate: u32,
    /// Number of channels.
    pub channels: u8,
    /// Container format.
    pub format: String,
}

impl Default for AudioConfig {
    /// Mono, 16 kHz, WAV.
    fn default() -> (config: Self)
        ensures
            config.sample_rate == 16000,
            config.channels == 1,
            config.format@ == "wav"@,
    {
        AudioConfig { sample_rate: 16000, channels: 1, format: "wav".to_string() }
    }
}

/// A window of the timeline, in milliseconds from its origin.
#[derive(Debug, Clone, Copy, PartialEq, Eq, Structural)]
pub struct AudioSegment {
    /// Where the window begins.
    pub start_time: u64,
    /// Where the window ends.
    pub end_time: u64,
    /// The length of the window.
    pub duration: u64,
}

impl AudioSegment {
    /// The segment from `start` to `end`.
    pub open spec fn spanning(start: int, end: int) -> AudioSegment {
        AudioSegment {
            start_time: start as u64,
            end_time: end as u64,
            duration: (end - start) as u64,
        }
    }

    /// The invariant of a segment: it does not end before it starts, and its
    /// duration is the distance between the two.
    pub open spec fn well_formed(&self) -> bool {
        &&& self.start_time <= self.end_time
        &&& self.duration == self.end_time - self.start_time
    }

    /// The segment from `start_time` to `end_time`.
    pub fn new(start_time: u64, end_time: u64) -> (segment: Self)
        requires
            start_time <= end_time,
        ensures
            segment == Self::spanning(start_time as int, end_time as int),
            segment.well_formed(),
    {
        AudioSegment { start_time, end_time, duration: end_time - start_time }
    }
}

/// Whether every segment is well formed.
pub open spec fn all_well_formed(segments: Seq<AudioSegment>) -> bool {
    forall|i: int| 0 <= i < segments.len() ==> (#[trigger] segments[i]).well_formed()
}

/// Decides whether every segment is well formed.
pub fn are_well_formed(segments: &[AudioSegment]) -> (r: bool)
    ensures
        r == all_well_formed(segments@),
{
    let mut i: usize = 0;
    while i < segments.len()
        invariant
            i <= segments@.len(),
            forall|k: int| 0 <= k < i ==> (#[trigger] segments@[k]).well_formed(),
        decreases segments@.len() - i,
    {
        let segment = segments[i];
        if segment.start_time > segment.end_time || segment.duration != segment.end_time
            - segment.start_time {
            return false;
        }
        i = i + 1;
    }
    true
}

/// The decimal digits of `n` as a string.
pub fn decimal_string(n: u64) -> (s: String)
    ensures
        s@ == decimal(n as nat),
{
    let mut s = String::new();
    push_decimal(&mut s, n as u128);
    s
}

/// `n` thousandths as a string, with as few decimals as hold the value.
pub fn shortest_string(n: u64) -> (s: String)
    ensures
        s@ == shortest3(n as nat),
{
    let mut s = String::new();
    push_shortest3(&mut s, n as u128);
    s
}

/// The name of the file that holds the extracted audio of the process
/// `process_id`.
pub fn audio_file_name(process_id: u32) -> (name: String)
    ensures
        name@ == "babymode_audio_"@ + decimal(process_id as nat) + ".wav"@,
{
    let mut name = "babymode_audio_".to_string();
    push_decimal(&mut name, process_id as u128);
    name.append(".wav");
    name
}

/// The step that extracts the audio track of a video: mono, 16 kHz,
/// 16-bit PCM.
pub open spec fn extract_audio_step(video: Seq<char>, audio: Seq<char>) -> StepModel {
    step_model(
        "ffmpeg"@,
        seq![
            "-i"@,
            video,
            "-vn"@,
            "-acodec"@,
            "pcm_s16le"@,
            "-ar"@,
            decimal(16000),
            "-ac"@,
            decimal(1),
            "-y"@,
            audio,
        ],
        "Failed to execute ffmpeg"@,
        false,
        "ffmpeg failed to extract audio: "@,
    )
}

/// Plans the extraction of the audio track of `video_path` into
/// `audio_path`: mono, 16 kHz, 16-bit PCM.
pub fn extract_audio(video_path: &str, audio_path: &str) -> (step: ToolStep)
    ensures
        step@ == extract_audio_step(video_path@, audio_path@),
{
    let config = AudioConfig::default();
    let rate = decimal_string(config.sample_rate as u64);
    let channels = decimal_string(config.channels as u64);
    let args = [
        "-i",
        video_path,
        "-vn",
        "-acodec",
        "pcm_s16le",
        "-ar",
        rate.as_str(),
        "-ac",
        channels.as_str(),
        "-y",
        audio_path,
    ];
    assert(args@.map_values(|p: &str| p@) =~= extract_audio_step(
        video_path@,
        audio_path@,
    ).command.args);
    tool_step("ffmpeg", &args, "Failed to execute ffmpeg", false, "ffmpeg failed to extract audio: ")
}

/// The error for an extraction that left no file behind.
pub open spec fn audio_not_created() -> ErrorModel {
    ErrorModel::Processing { message: "Audio extraction failed - output file not created"@ }
}

/// Takes charge of the extracted audio at `audio_path`, given whether the
/// file is there. A missing file is an error.
pub fn extracted_audio_with(audio_path: String, present: bool) -> (r: Result<TempFile>)
    ensures
        present ==> (r matches Ok(file) && file.path_spec() == audio_path@ && file.owned()),
        !present ==> (r matches Err(e) && e@ == audio_not_created()),
{
    let file = TempFile::new(audio_path);
    if !present {
        return Err(processing_error("Audio extraction failed - output file not created"));
    }
    Ok(file)
}

/// Takes charge of the extracted audio at `audio_path` if the file is
/// there at the moment of the call.
pub fn extracted_audio(audio_path: String) -> (r: Result<TempFile>)
    ensures
        r matches Ok(file) ==> file.path_spec() == audio_path@ && file.owned(),
        r matches Err(e) ==> e@ == audio_not_created(),
{
    let present = crate::paths::path_exists(audio_path.as_str());
    extracted_audio_with(audio_path, present)
}

/// The step that asks the probe for the format of an audio file, as JSON.
pub open spec fn audio_probe_step(audio: Seq<char>) -> StepModel {
    step_model(
        "ffprobe"@,
        seq!["-v"@, "quiet"@, "-print_format"@, "json"@, "-show_format"@, audio],
        "Failed to execute ffprobe"@,
        false,
        "ffprobe failed: "@,
    )
}

/// Plans the probe of `audio_path` for its duration.
pub fn get_audio_duration(audio_path: &str) -> (step: ToolStep)
    ensures
        step@ == audio_probe_step(audio_path@),
{
    let args = ["-v", "quiet", "-print_format", "json", "-show_format", audio_path];
    assert(args@.map_values(|p: &str| p@) =~= audio_probe_step(audio_path@).command.args);
    tool_step("ffprobe", &args, "Failed to execute ffprobe", false, "ffprobe failed: ")
}

/// The error for a report without a readable duration.
pub open spec fn no_audio_duration() -> ErrorModel {
    ErrorModel::Processing { message: "Could not parse audio duration"@ }
}

/// Whether `r` is what the text of the duration gives: the duration in
/// milliseconds, or the error where there is no text or the text is no
/// decimal number that fits.
pub open spec fn duration_outcome(duration: Option<Seq<char>>, r: Result<u64>) -> bool {
    match duration {
        Some(text) => match parsed_thousandths(text) {
            Some(n) if n <= u64::MAX => r == Ok::<u64, crate::error::BabymodeError>(n as u64),
            _ => r matches Err(e) && e@ == no_audio_duration(),
        },
        None => r matches Err(e) && e@ == no_audio_duration(),
    }
}

/// The duration in milliseconds that the format section of a report
/// writes, given the text of its duration if it has one.
pub fn audio_duration_from(duration: &Option<String>) -> (r: Result<u64>)
    ensures
        duration_outcome(crate::error::option_view(*duration), r),
{
    let parsed = match duration {
        Some(text) => parse_thousandths(text.as_str()),
        None => None,
    };
    match parsed {
        Some(duration) => Ok(duration),
        None => Err(processing_error("Could not parse audio duration")),
    }
}

/// Reads the duration of an audio file, in milliseconds, out of what the
/// probe wrote. Output that is no UTF-8 is rejected, then output that is
/// no JSON, then a report without a readable duration in its format
/// section.
pub fn read_audio_duration(stdout: Vec<u8>) -> (r: Result<u64>)
    ensures
        if !valid_utf8(stdout@) {
            r matches Err(e) && e@ == (ErrorModel::Processing {
                message: "ffprobe output is not valid UTF-8"@,
            })
        } else {
            match crate::json::json_document(vstd::utf8::decode_utf8(stdout@)) {
                None => r matches Err(e) && e@ == (ErrorModel::Processing {
                    message: "Failed to parse ffprobe JSON output"@,
                }),
                Some(nodes) => duration_outcome(
                    crate::json::section_text(nodes, "format"@, "duration"@),
                    r,
                ),
            }
        },
{
    let text = match strict_text(stdout) {
        Some(text) => text,
        None => {
            return Err(processing_error("ffprobe output is not valid UTF-8"));
        },
    };
    let root = match crate::json::parse(text.as_str()) {
        Ok(root) => root,
        Err(_) => {
            return Err(processing_error("Failed to parse ffprobe JSON output"));
        },
    };
    let duration = match crate::json::member(&root, "format") {
        Some(format) => {
            proof {
                crate::json::lemma_below_key(
                    crate::json::json_nodes(root),
                    crate::json::JsonStep::Key("format"@),
                    "duration"@,
                );
            }
            crate::json::text_member(format, "duration")
        },
        None => None,
    };
    audio_duration_from(&duration)
}

/// The step that converts an audio file to mono, 16 kHz, 16-bit PCM.
pub open spec fn convert_step(input: Seq<char>, output: Seq<char>) -> StepModel {
    step_model(
        "ffmpeg"@,
        seq![
            "-i"@,
            input,
            "-ar"@,
            decimal(16000),
            "-ac"@,
            decimal(1),
            "-c:a"@,
            "pcm_s16le"@,
            "-y"@,
            output,
        ],
        "Failed to execute ffmpeg for whisper conversion"@,
        false,
        "ffmpeg failed to convert audio for whisper: "@,
    )
}

/// Plans the conversion of `input_path` into the format that the
/// transcription engine is fed, at `output_path`.
pub fn convert_for_whisper(input_path: &str, output_path: &str) -> (step: ToolStep)
    ensures
        step@ == convert_step(input_path@, output_path@),
{
    let config = AudioConfig::default();
    let rate = decimal_string(config.sample_rate as u64);
    let channels = decimal_string(config.channels as u64);
    let args = [
        "-i",
        input_path,
        "-ar",
        rate.as_str(),
        "-ac",
        channels.as_str(),
        "-c:a",
        "pcm_s16le",
        "-y",
        output_path,
    ];
    assert(args@.map_values(|p: &str| p@) =~= convert_step(input_path@, output_path@).command.args);
    tool_step(
        "ffmpeg",
        &args,
        "Failed to execute ffmpeg for whisper conversion",
        false,
        "ffmpeg failed to convert audio for whisper: ",
    )
}

/// The step that cuts `duration` milliseconds out of an audio file, from
/// `start_time` on, without re-encoding.
pub open spec fn cut_step(input: Seq<char>, output: Seq<char>, start_time: u64, duration: u64)
    -> StepModel {
    step_model(
        "ffmpeg"@,
        seq![
            "-i"@,
            input,
            "-ss"@,
            shortest3(start_time as nat),
            "-t"@,
            shortest3(duration as nat),
            "-c:a"@,
            "copy"@,
            "-y"@,
            output,
        ],
        "Failed to execute ffmpeg for segment extraction"@,
        false,
        "ffmpeg failed to extract audio segment: "@,
    )
}

/// Plans the extraction of the `duration` milliseconds of `input_path`
/// that begin at `start_time` into `output_path`.
pub fn extract_audio_segment(input_path: &str, output_path: &str, start_time: u64, duration: u64)
    -> (step: ToolStep)
    ensures
        step@ == cut_step(input_path@, output_path@, start_time, duration),
{
    let start = shortest_string(start_time);
    let length = shortest_string(duration);
    let args = [
        "-i",
        input_path,
        "-ss",
        start.as_str(),
        "-t",
        length.as_str(),
        "-c:a",
        "copy",
        "-y",
        output_path,
    ];
    assert(args@.map_values(|p: &str| p@) =~= cut_step(
        input_path@,
        output_path@,
        start_time,
        duration,
    ).command.args);
    tool_step(
        "ffmpeg",
        &args,
        "Failed to execute ffmpeg for segment extraction",
        false,
        "ffmpeg failed to extract audio segment: ",
    )
}

/// The job that copies an audio file unchanged.
pub open spec fn plain_copy(input: Seq<char>, output: Seq<char>) -> JobModel {
    JobModel::Copy(
        CopyModel { from: input, to: output, failure: "Failed to copy audio file"@, detail: false },
    )
}

/// The job that mutes every segment of an audio file; without segments,
/// the job that copies the file.
pub open spec fn isolation_job(input: Seq<char>, output: Seq<char>, segments: Seq<AudioSegment>)
    -> JobModel {
    if segments.len() == 0 {
        plain_copy(input, output)
    } else {
        JobModel::Run(
            step_model(
                "ffmpeg"@,
                seq![
                    "-i"@,
                    input,
                    "-af"@,
                    silence_filter(segments),
                    "-c:a"@,
                    "pcm_s16le"@,
                    "-y"@,
                    output,
                ],
                "Failed to execute ffmpeg for isolation censoring"@,
                false,
                "ffmpeg failed to apply isolation censoring: "@,
            ),
        )
    }
}

/// Plans the removal of profanity from `input_path` into `output_path`:
/// every segment is muted, whatever the fade.
pub fn apply_isolation_censoring(
    input_path: &str,
    output_path: &str,
    censor_segments: &[AudioSegment],
    _fade_duration: u64,
) -> (job: AudioJob)
    ensures
        job@ == isolation_job(input_path@, output_path@, censor_segments@),
{
    if censor_segments.len() == 0 {
        return AudioJob::Copy(
            copy_step(input_path, output_path, "Failed to copy audio file", false),
        );
    }
    let filters = crate::plugins::build_window_filters(
        censor_segments,
        "volume=enable='",
        "':volume=0",
    );
    let filter = join(&filters, ",");
    let args = ["-i", input_path, "-af", filter.as_str(), "-c:a", "pcm_s16le", "-y", output_path];
    assert(args@.map_values(|p: &str| p@) =~= seq![
        "-i"@,
        input_path@,
        "-af"@,
        silence_filter(censor_segments@),
        "-c:a"@,
        "pcm_s16le"@,
        "-y"@,
        output_path@,
    ]);
    AudioJob::Run(
        tool_step(
            "ffmpeg",
            &args,
            "Failed to execute ffmpeg for isolation censoring",
            false,
            "ffmpeg failed to apply isolation censoring: ",
        ),
    )
}

/// Plans the censoring of `censor_segments` with fades. The fades and the
/// target volume are not used: every segment is muted.
pub fn apply_smooth_censoring(
    input_path: &str,
    output_path: &str,
    censor_segments: &[AudioSegment],
    _target_volume: u64,
    fade_duration: u64,
) -> (job: AudioJob)
    ensures
        job@ == isolation_job(input_path@, output_path@, censor_segments@),
{
    apply_isolation_censoring(input_path, output_path, censor_segments, fade_duration)
}

/// The name of the input of volume filter number `index`: the audio of
/// the file for the first, the output of the filter before for the others.
pub open spec fn volume_input(index: nat) -> Seq<char> {
    if index == 0 {
        "[0:a]"@
    } else {
        "[vol"@ + decimal((index - 1) as nat) + "]"@
    }
}

/// Volume filter number `index`: inside the segment, the volume factor.
pub open spec fn volume_change(change: (AudioSegment, u64), index: nat) -> Seq<char> {
    volume_input(index) + "volume=enable='between(t,"@ + shortest3(change.0.start_time as nat)
        + ","@ + shortest3(change.0.end_time as nat) + ")':"@ + shortest3(change.1 as nat)
        + "[vol"@ + decimal(index) + "]"@
}

/// The first `n` volume filters.
pub open spec fn volume_changes(changes: Seq<(AudioSegment, u64)>, n: nat) -> Seq<Seq<char>>
    decreases n,
{
    if n == 0 {
        Seq::empty()
    } else {
        volume_changes(changes, (n - 1) as nat).push(volume_change(changes[n - 1], (n - 1) as nat))
    }
}

/// The job that applies a volume factor inside each segment; without
/// segments, the job that copies the file.
pub open spec fn volume_changes_job(
    input: Seq<char>,
    output: Seq<char>,
    changes: Seq<(AudioSegment, u64)>,
) -> JobModel {
    if changes.len() == 0 {
        plain_copy(input, output)
    } else {
        JobModel::Run(
            step_model(
                "ffmpeg"@,
                seq![
                    "-i"@,
                    input,
                    "-filter_complex"@,
                    joined(volume_changes(changes, changes.len()), ";"@),
                    "-c:a"@,
                    "pcm_s16le"@,
                    "-y"@,
                    output,
                ],
                "Failed to execute ffmpeg for volume changes"@,
                false,
                "ffmpeg failed to apply volume changes: "@,
            ),
        )
    }
}

/// Builds volume filter number `index`.
fn build_volume_change(change: &(AudioSegment, u64), index: usize) -> (filter: String)
    ensures
        filter@ == volume_change(*change, index as nat),
{
    let mut s = String::new();
    if index == 0 {
        s.append("[0:a]");
    } else {
        s.append("[vol");
        push_decimal(&mut s, (index - 1) as u128);
        s.append("]");
    }
    s.append("volume=enable='between(t,");
    push_shortest3(&mut s, change.0.start_time as u128);
    s.append(",");
    push_shortest3(&mut s, change.0.end_time as u128);
    s.append(")':");
    push_shortest3(&mut s, change.1 as u128);
    s.append("[vol");
    push_decimal(&mut s, index as u128);
    s.append("]");
    s
}

/// Plans the change of volume inside segments of `input_path`, into
/// `output_path`: each segment comes with its volume factor, in
/// thousandths. The filters are chained in the order of the segments.
pub fn apply_volume_changes(
    input_path: &str,
    output_path: &str,
    volume_segments: &[(AudioSegment, u64)],
) -> (job: AudioJob)
    ensures
        job@ == volume_changes_job(input_path@, output_path@, volume_segments@),
{
    if volume_segments.len() == 0 {
        return AudioJob::Copy(
            copy_step(input_path, output_path, "Failed to copy audio file", false),
        );
    }
    let mut filters: Vec<String> = Vec::new();
    let mut i: usize = 0;
    while i < volume_segments.len()
        invariant
            i <= volume_segments@.len(),
            views(filters@) == volume_changes(volume_segments@, i as nat),
        decreases volume_segments@.len() - i,
    {
        let filter = build_volume_change(&volume_segments[i], i);
        filters.push(filter);
        i = i + 1;
    }
    let filter = join(&filters, ";");
    let args = [
        "-i",
        input_path,
        "-filter_complex",
        filter.as_str(),
        "-c:a",
        "pcm_s16le",
        "-y",
        output_path,
    ];
    assert(args@.map_values(|p: &str| p@) =~= seq![
        "-i"@,
        input_path@,
        "-filter_complex"@,
        filter@,
        "-c:a"@,
        "pcm_s16le"@,
        "-y"@,
        output_path@,
    ]);
    AudioJob::Run(
        tool_step(
            "ffmpeg",
            &args,
            "Failed to execute ffmpeg for volume changes",
            false,
            "ffmpeg failed to apply volume changes: ",
        ),
    )
}

} // verus!
