//! Video files: validation of the input, the metadata that the probe
//! reports, and the jobs that combine and split streams.

use crate::config::outcome_is;
use crate::error::{option_view, processing_error, BabymodeError, ErrorModel, Result};
use crate::json::{
    below, elements_of, json_document, json_nodes, lemma_below_key, lemma_below_start,
    lemma_below_two, length_at, member, number_at, number_member, parse, section_text, text_at,
    text_member, JsonNodes, JsonStep,
};
use crate::paths::{debug_form, path_debug, path_exists, path_extension, path_is_file};
use crate::text::{
    chars_of, find_char, first_index_of, lowercase, parse_thousandths, parse_u64,
    parsed_thousandths, parsed_unsigned, string_of,
};
use crate::tool::{step_model, strict_text, tool_step, StepModel, ToolStep};
use vstd::prelude::*;
use vstd::string::*;
use vstd::utf8::valid_utf8;

verus! {

/// Whether a lowercase extension is that of a supported video format.
pub open spec fn is_supported_extension(extension: Seq<char>) -> bool {
    ||| extension == "mp4"@
    ||| extension == "avi"@
    ||| extension == "mov"@
    ||| extension == "mkv"@
    ||| extension == "wmv"@
    ||| extension == "flv"@
    ||| extension == "webm"@
    ||| extension == "m4v"@
    ||| extension == "3gp"@
    ||| extension == "mpg"@
    ||| extension == "mpeg"@
}

/// The error for a file of an unsupported format.
pub open spec fn unsupported_format(extension: Seq<char>) -> ErrorModel {
    ErrorModel::Processing {
        message: "Unsupported video format: "@ + extension
            + ". Supported formats: [\"mp4\", \"avi\", \"mov\", \"mkv\", \"wmv\", \"flv\", \"webm\", \"m4v\", \"3gp\", \"mpg\", \"mpeg\"]"@,
    }
}

/// What is wrong with a video file, if anything, given whether it exists,
/// whether it is a regular file, and its extension. The first failing check
/// decides.
pub open spec fn video_file_rejection(
    path: Seq<char>,
    present: bool,
    regular: bool,
    extension: Option<Seq<char>>,
) -> Option<ErrorModel> {
    if !present {
        Some(ErrorModel::Processing { message: "Video file does not exist: "@ + debug_form(path) })
    } else if !regular {
        Some(ErrorModel::Processing { message: "Path is not a file: "@ + debug_form(path) })
    } else {
        match extension {
            None => Some(ErrorModel::Processing { message: "File has no extension"@ }),
            Some(extension) => if is_supported_extension(lowercase(extension)) {
                None
            } else {
                Some(unsupported_format(lowercase(extension)))
            },
        }
    }
}

/// Decides whether a lowercase extension is that of a supported video
/// format.
fn supported(extension: &String) -> (r: bool)
    ensures
        r == is_supported_extension(extension@),
{
    *extension == "mp4".to_string() || *extension == "avi".to_string() || *extension
        == "mov".to_string() || *extension == "mkv".to_string() || *extension == "wmv".to_string()
        || *extension == "flv".to_string() || *extension == "webm".to_string() || *extension
        == "m4v".to_string() || *extension == "3gp".to_string() || *extension == "mpg".to_string()
        || *extension == "mpeg".to_string()
}

/// Checks that a path names a supported video file, given whether it
/// exists, whether it is a regular file, and its extension.
pub fn check_video_file(path: &str, present: bool, regular: bool, extension: &Option<String>) -> (r:
    Result<()>)
    ensures
        outcome_is(
            r,
            video_file_rejection(path@, present, regular, crate::error::option_view(*extension)),
        ),
{
    if !present {
        let mut message = "Video file does not exist: ".to_string();
        message.append(path_debug(path).as_str());
        return Err(BabymodeError::Processing { message });
    }
    if !regular {
        let mut message = "Path is not a file: ".to_string();
        message.append(path_debug(path).as_str());
        return Err(BabymodeError::Processing { message });
    }
    let extension = match extension {
        Some(extension) => extension.as_str().to_lowercase(),
        None => {
            return Err(processing_error("File has no extension"));
        },
    };
    if !supported(&extension) {
        let mut message = "Unsupported video format: ".to_string();
        message.append(extension.as_str());
        message.append(
            ". Supported formats: [\"mp4\", \"avi\", \"mov\", \"mkv\", \"wmv\", \"flv\", \"webm\", \"m4v\", \"3gp\", \"mpg\", \"mpeg\"]",
        );
        return Err(BabymodeError::Processing { message });
    }
    Ok(())
}

/// Checks that `path` names a supported video file on disk, at the moment
/// of the call.
pub fn validate_video_file(path: &str) -> (r: Result<()>)
    ensures
        exists|present: bool, regular: bool, extension: Option<Seq<char>>|
            outcome_is(r, video_file_rejection(path@, present, regular, extension)),
{
    let present = path_exists(path);
    let regular = path_is_file(path);
    let extension = path_extension(path);
    let r = check_video_file(path, present, regular, &extension);
    r
}

/// A frame rate as the probe reports it: a fraction of frames per second.
#[derive(Debug, Clone, Copy, PartialEq, Eq, Structural)]
pub struct FrameRate {
    /// The number of frames.
    pub numerator: u64,
    /// The number of seconds in which they are shown; never zero.
    pub denominator: u64,
}

/// What the probe reports of a video file.
#[derive(Debug, Clone)]
pub struct VideoMetadata {
    /// The duration, in milliseconds.
    pub duration: u64,
    /// The width of the picture, in pixels.
    pub width: u32,
    /// The height of the picture, in pixels.
    pub height: u32,
    /// The frame rate.
    pub fps: FrameRate,
    /// Whether the file has an audio stream.
    pub has_audio: bool,
    /// The name of the video codec.
    pub codec: String,
    /// The bit rate, in bits per second, where the probe reports one.
    pub bitrate: Option<u64>,
}

/// A number that fits in 64 bits, if `n` is one.
pub open spec fn fitting(n: Option<nat>) -> Option<u64> {
    match n {
        Some(n) if n <= u64::MAX => Some(n as u64),
        _ => None,
    }
}

/// The error with the given message.
pub open spec fn failure(message: Seq<char>) -> ErrorModel {
    ErrorModel::Processing { message }
}

/// What a frame rate text stands for: numerator and denominator around
/// one slash, both unsigned integers, the denominator not zero.
pub open spec fn frame_rate_of(text: Seq<char>) -> std::result::Result<FrameRate, ErrorModel> {
    let slash = first_index_of(text, '/');
    let tail = text.subrange(if slash < text.len() {
        slash + 1
    } else {
        text.len() as int
    }, text.len() as int);
    if slash >= text.len() || first_index_of(tail, '/') < tail.len() {
        Err(failure("Invalid frame rate format: "@ + text))
    } else {
        match fitting(parsed_unsigned(text.subrange(0, slash))) {
            None => Err(failure("Could not parse frame rate numerator"@)),
            Some(numerator) => match fitting(parsed_unsigned(tail)) {
                None => Err(failure("Could not parse frame rate denominator"@)),
                Some(denominator) => if denominator == 0 {
                    Err(failure("Frame rate denominator is zero"@))
                } else {
                    Ok(FrameRate { numerator, denominator })
                },
            },
        }
    }
}

/// Reads a frame rate such as `30/1` or `60000/1001`.
pub fn parse_frame_rate(fps_str: &str) -> (r: Result<FrameRate>)
    ensures
        match frame_rate_of(fps_str@) {
            Ok(rate) => r == Ok::<FrameRate, BabymodeError>(rate),
            Err(error) => r matches Err(e) && e@ == error,
        },
        r matches Ok(rate) ==> rate.denominator > 0,
{
    let chars = chars_of(fps_str);
    let len = chars.len();
    assert(chars@.subrange(0, len as int) =~= chars@);
    let slash = find_char(&chars, 0, '/');
    let from: usize = if slash < len {
        slash + 1
    } else {
        len
    };
    let second = find_char(&chars, from, '/');
    if slash >= len || second < len {
        let mut message = "Invalid frame rate format: ".to_string();
        message.append(fps_str);
        return Err(BabymodeError::Processing { message });
    }
    let numerator = match parse_u64(string_of(&chars, 0, slash).as_str()) {
        Some(n) => n,
        None => {
            return Err(processing_error("Could not parse frame rate numerator"));
        },
    };
    let denominator = match parse_u64(string_of(&chars, from, len).as_str()) {
        Some(n) => n,
        None => {
            return Err(processing_error("Could not parse frame rate denominator"));
        },
    };
    if denominator == 0 {
        return Err(processing_error("Frame rate denominator is zero"));
    }
    Ok(FrameRate { numerator, denominator })
}

/// One stream of a probed file, as far as the metadata needs it.
#[derive(Debug, Clone)]
pub struct ProbeStream {
    /// The kind of the stream: `video`, `audio` or another.
    pub codec_type: Option<String>,
    /// The width of the picture.
    pub width: Option<u64>,
    /// The height of the picture.
    pub height: Option<u64>,
    /// The name of the codec.
    pub codec_name: Option<String>,
    /// The frame rate, as a fraction.
    pub r_frame_rate: Option<String>,
}

/// The report of the probe, as far as the metadata needs it.
#[derive(Debug, Clone)]
pub struct ProbeReport {
    /// Whether the report has a format section.
    pub has_format: bool,
    /// The duration in seconds, as the format section writes it.
    pub duration: Option<String>,
    /// The bit rate, as the format section writes it.
    pub bit_rate: Option<String>,
    /// The streams, where the report lists them.
    pub streams: Option<Vec<ProbeStream>>,
}

/// Whether a stream is of the given kind.
pub open spec fn is_kind(stream: ProbeStream, kind: Seq<char>) -> bool {
    stream.codec_type matches Some(t) && t@ == kind
}

/// Whether `at` is the position of the first video stream.
pub open spec fn first_video_at(streams: Seq<ProbeStream>, at: int) -> bool {
    &&& 0 <= at < streams.len()
    &&& is_kind(streams[at], "video"@)
    &&& forall|i: int| 0 <= i < at ==> !is_kind(#[trigger] streams[i], "video"@)
}

/// Whether one of the streams is an audio stream.
pub open spec fn any_audio(streams: Seq<ProbeStream>) -> bool {
    exists|i: int| 0 <= i < streams.len() && is_kind(#[trigger] streams[i], "audio"@)
}

/// Whether `metadata` is what `report` says of the video stream `stream`,
/// given the duration and the frame rate that were read.
pub open spec fn describes(
    metadata: VideoMetadata,
    report: ProbeReport,
    stream: ProbeStream,
    duration: u64,
    fps: FrameRate,
) -> bool {
    &&& metadata.duration == duration
    &&& stream.width matches Some(width) && metadata.width == (width % 0x1_0000_0000) as u32
    &&& stream.height matches Some(height) && metadata.height == (height % 0x1_0000_0000) as u32
    &&& metadata.fps == fps
    &&& metadata.has_audio == any_audio(report.streams->0@)
    &&& stream.codec_name matches Some(codec) && metadata.codec@ == codec@
    &&& metadata.bitrate == match report.bit_rate {
        Some(text) => fitting(parsed_unsigned(text@)),
        None => None,
    }
}

/// Whether `r` is what the report gives: the metadata of the first video
/// stream, or the error of the first thing that is missing. The checks
/// come in this order: the format section, the duration, the list of
/// streams, a video stream, its width, its height, its codec and its
/// frame rate.
pub open spec fn metadata_outcome(report: ProbeReport, r: Result<VideoMetadata>) -> bool {
    if !report.has_format {
        r matches Err(e) && e@ == failure("No format information in ffprobe output"@)
    } else if !(report.duration matches Some(text) && fitting(parsed_thousandths(text@)) is Some) {
        r matches Err(e) && e@ == failure("Could not parse video duration"@)
    } else if report.streams is None {
        r matches Err(e) && e@ == failure("No streams information in ffprobe output"@)
    } else if !exists|at: int| first_video_at(report.streams->0@, at) {
        r matches Err(e) && e@ == failure("No video stream found in the file"@)
    } else {
        let stream = report.streams->0@[choose|at: int| first_video_at(report.streams->0@, at)];
        if stream.width is None {
            r matches Err(e) && e@ == failure("Could not parse video width"@)
        } else if stream.height is None {
            r matches Err(e) && e@ == failure("Could not parse video height"@)
        } else if stream.codec_name is None {
            r matches Err(e) && e@ == failure("Could not get video codec"@)
        } else if stream.r_frame_rate is None {
            r matches Err(e) && e@ == failure("Could not get frame rate"@)
        } else {
            match frame_rate_of(stream.r_frame_rate->0@) {
                Err(error) => r matches Err(e) && e@ == error,
                Ok(fps) => r matches Ok(metadata) && describes(
                    metadata,
                    report,
                    stream,
                    fitting(parsed_thousandths(report.duration->0@))->0,
                    fps,
                ),
            }
        }
    }
}

/// Decides whether a stream is of the given kind.
fn has_kind(stream: &ProbeStream, kind: &str) -> (r: bool)
    ensures
        r == is_kind(*stream, kind@),
{
    match &stream.codec_type {
        Some(t) => *t == kind.to_string(),
        None => false,
    }
}

/// The position of the first video stream, and whether there is an audio
/// stream.
fn scan_streams(streams: &Vec<ProbeStream>) -> (found: (Option<usize>, bool))
    ensures
        match found.0 {
            Some(at) => first_video_at(streams@, at as int),
            None => forall|at: int| !first_video_at(streams@, at),
        },
        found.1 == any_audio(streams@),
{
    let mut video: Option<usize> = None;
    let mut has_audio = false;
    let mut i: usize = 0;
    while i < streams.len()
        invariant
            i <= streams@.len(),
            match video {
                Some(at) => at < i && first_video_at(streams@, at as int),
                None => forall|k: int| 0 <= k < i ==> !is_kind(#[trigger] streams@[k], "video"@),
            },
            has_audio == exists|k: int| 0 <= k < i && is_kind(#[trigger] streams@[k], "audio"@),
        decreases streams@.len() - i,
    {
        let stream = &streams[i];
        proof {
            reveal_strlit("video");
            reveal_strlit("audio");
            assert("video"@ != "audio"@) by {
                assert("video"@[0] != "audio"@[0]);
            }
        }
        if has_kind(stream, "video") {
            if video.is_none() {
                video = Some(i);
            }
        } else if has_kind(stream, "audio") {
            has_audio = true;
        }
        i = i + 1;
    }
    proof {
        if video is None {
            assert forall|at: int| !first_video_at(streams@, at) by {
            }
        }
    }
    (video, has_audio)
}

/// The metadata that a report of the probe gives: that of the first video
/// stream, with the duration and the bit rate of the format section.
pub fn video_metadata_from(report: &ProbeReport) -> (r: Result<VideoMetadata>)
    ensures
        metadata_outcome(*report, r),
{
    if !report.has_format {
        return Err(processing_error("No format information in ffprobe output"));
    }
    let duration = match &report.duration {
        Some(text) => match parse_thousandths(text.as_str()) {
            Some(duration) => duration,
            None => {
                return Err(processing_error("Could not parse video duration"));
            },
        },
        None => {
            return Err(processing_error("Could not parse video duration"));
        },
    };
    let bitrate = match &report.bit_rate {
        Some(text) => parse_u64(text.as_str()),
        None => None,
    };
    let streams = match &report.streams {
        Some(streams) => streams,
        None => {
            return Err(processing_error("No streams information in ffprobe output"));
        },
    };
    let (video, has_audio) = scan_streams(streams);
    let at = match video {
        Some(at) => at,
        None => {
            return Err(processing_error("No video stream found in the file"));
        },
    };
    let stream = &streams[at];
    let width = match stream.width {
        Some(width) => width,
        None => {
            return Err(processing_error("Could not parse video width"));
        },
    };
    let height = match stream.height {
        Some(height) => height,
        None => {
            return Err(processing_error("Could not parse video height"));
        },
    };
    let codec = match &stream.codec_name {
        Some(codec) => codec.clone(),
        None => {
            return Err(processing_error("Could not get video codec"));
        },
    };
    let fps_str = match &stream.r_frame_rate {
        Some(text) => text,
        None => {
            return Err(processing_error("Could not get frame rate"));
        },
    };
    let fps = match parse_frame_rate(fps_str.as_str()) {
        Ok(fps) => fps,
        Err(e) => {
            return Err(e);
        },
    };
    Ok(
        VideoMetadata {
            duration,
            width: (width % 0x1_0000_0000) as u32,
            height: (height % 0x1_0000_0000) as u32,
            fps,
            has_audio,
            codec,
            bitrate,
        },
    )
}

/// The place of a field of stream number `i` in a report.
pub open spec fn stream_field(i: int, field: Seq<char>) -> Seq<JsonStep> {
    seq![JsonStep::Key("streams"@), JsonStep::Index(i), JsonStep::Key(field)]
}

/// Whether `stream` holds what the report holds of stream number `i`: the
/// texts of `codec_type`, `codec_name` and `r_frame_rate`, and the numbers
/// of `width` and `height`, each where the report has it.
pub open spec fn stream_read(stream: ProbeStream, nodes: JsonNodes, i: int) -> bool {
    &&& option_view(stream.codec_type) == text_at(nodes, stream_field(i, "codec_type"@))
    &&& stream.width == number_at(nodes, stream_field(i, "width"@))
    &&& stream.height == number_at(nodes, stream_field(i, "height"@))
    &&& option_view(stream.codec_name) == text_at(nodes, stream_field(i, "codec_name"@))
    &&& option_view(stream.r_frame_rate) == text_at(nodes, stream_field(i, "r_frame_rate"@))
}

/// Whether `report` holds what a parsed report holds: whether there is a
/// format section, the texts of its `duration` and `bit_rate`, and the
/// streams in order, where `streams` is an array.
pub open spec fn report_read(report: ProbeReport, nodes: JsonNodes) -> bool {
    &&& report.has_format == nodes.contains_key(seq![JsonStep::Key("format"@)])
    &&& option_view(report.duration) == section_text(nodes, "format"@, "duration"@)
    &&& option_view(report.bit_rate) == section_text(nodes, "format"@, "bit_rate"@)
    &&& match length_at(nodes, seq![JsonStep::Key("streams"@)]) {
        Some(count) => report.streams matches Some(streams) && streams@.len() == count
            && forall|i: int| 0 <= i < count ==> stream_read(#[trigger] streams@[i], nodes, i),
        None => report.streams is None,
    }
}

/// Copies out of a parsed report what the metadata needs.
fn probe_report(root: &serde_json::Value) -> (report: ProbeReport)
    ensures
        report_read(report, json_nodes(*root)),
{
    let ghost nodes = json_nodes(*root);
    let ghost at_format = JsonStep::Key("format"@);
    let ghost at_streams = JsonStep::Key("streams"@);
    let format = member(root, "format");
    let (duration, bit_rate) = match format {
        Some(format) => {
            proof {
                lemma_below_key(nodes, at_format, "duration"@);
                lemma_below_key(nodes, at_format, "bit_rate"@);
            }
            (text_member(format, "duration"), text_member(format, "bit_rate"))
        },
        None => (None, None),
    };
    let listed = match member(root, "streams") {
        Some(streams) => {
            proof {
                lemma_below_start(nodes, at_streams);
            }
            elements_of(streams)
        },
        None => None,
    };
    let streams = match listed {
        Some(values) => {
            let mut streams: Vec<ProbeStream> = Vec::new();
            let mut i: usize = 0;
            while i < values.len()
                invariant
                    i <= values@.len(),
                    streams@.len() == i,
                    nodes == json_nodes(*root),
                    at_streams == JsonStep::Key("streams"@),
                    forall|k: int|
                        0 <= k < values@.len() ==> json_nodes(#[trigger] values@[k]) == below(
                            below(nodes, at_streams),
                            JsonStep::Index(k),
                        ),
                    forall|k: int| 0 <= k < i ==> stream_read(#[trigger] streams@[k], nodes, k),
                decreases values@.len() - i,
            {
                let value = &values[i];
                proof {
                    let at = JsonStep::Index(i as int);
                    lemma_below_two(nodes, at_streams, at, "codec_type"@);
                    lemma_below_two(nodes, at_streams, at, "width"@);
                    lemma_below_two(nodes, at_streams, at, "height"@);
                    lemma_below_two(nodes, at_streams, at, "codec_name"@);
                    lemma_below_two(nodes, at_streams, at, "r_frame_rate"@);
                }
                streams.push(
                    ProbeStream {
                        codec_type: text_member(value, "codec_type"),
                        width: number_member(value, "width"),
                        height: number_member(value, "height"),
                        codec_name: text_member(value, "codec_name"),
                        r_frame_rate: text_member(value, "r_frame_rate"),
                    },
                );
                i = i + 1;
            }
            Some(streams)
        },
        None => None,
    };
    ProbeReport { has_format: format.is_some(), duration, bit_rate, streams }
}

/// The step that asks the probe for the format and the streams of a file,
/// as JSON.
pub open spec fn video_probe_step(path: Seq<char>) -> StepModel {
    step_model(
        "ffprobe"@,
        seq!["-v"@, "quiet"@, "-print_format"@, "json"@, "-show_format"@, "-show_streams"@, path],
        "Failed to execute ffprobe. Make sure ffmpeg is installed."@,
        false,
        "ffprobe failed: "@,
    )
}

/// Plans the probe of the video file at `path`.
pub fn get_video_metadata(path: &str) -> (step: ToolStep)
    ensures
        step@ == video_probe_step(path@),
{
    let args = ["-v", "quiet", "-print_format", "json", "-show_format", "-show_streams", path];
    assert(args@.map_values(|p: &str| p@) =~= video_probe_step(path@).command.args);
    tool_step(
        "ffprobe",
        &args,
        "Failed to execute ffprobe. Make sure ffmpeg is installed.",
        false,
        "ffprobe failed: ",
    )
}

/// Whether `r` is what a parsed report gives: the outcome of the report
/// that holds what the parsed report holds.
pub open spec fn report_outcome(nodes: JsonNodes, r: Result<VideoMetadata>) -> bool {
    exists|report: ProbeReport| report_read(report, nodes) && metadata_outcome(report, r)
}

/// Reads the metadata out of what the probe wrote. Output that is no
/// UTF-8 is rejected, then output that is no JSON, then a report that
/// lacks what the metadata needs.
pub fn read_video_metadata(stdout: Vec<u8>) -> (r: Result<VideoMetadata>)
    ensures
        if !valid_utf8(stdout@) {
            r matches Err(e) && e@ == failure("ffprobe output is not valid UTF-8"@)
        } else {
            match json_document(vstd::utf8::decode_utf8(stdout@)) {
                None => r matches Err(e) && e@ == failure("Failed to parse ffprobe JSON output"@),
                Some(nodes) => report_outcome(nodes, r),
            }
        },
{
    let text = match strict_text(stdout) {
        Some(text) => text,
        None => {
            return Err(processing_error("ffprobe output is not valid UTF-8"));
        },
    };
    let root = match parse(text.as_str()) {
        Ok(root) => root,
        Err(_) => {
            return Err(processing_error("Failed to parse ffprobe JSON output"));
        },
    };
    let report = probe_report(&root);
    let r = video_metadata_from(&report);
    assert(report_read(report, json_nodes(root)) && metadata_outcome(report, r));
    r
}

/// The step that puts an audio track under a video: the video stream is
/// copied, the audio is encoded as AAC, and the output ends with the
/// shorter of the two.
pub open spec fn combine_step(video: Seq<char>, audio: Seq<char>, output: Seq<char>) -> StepModel {
    step_model(
        "ffmpeg"@,
        seq![
            "-i"@,
            video,
            "-i"@,
            audio,
            "-c:v"@,
            "copy"@,
            "-c:a"@,
            "aac"@,
            "-map"@,
            "0:v:0"@,
            "-map"@,
            "1:a:0"@,
            "-shortest"@,
            "-y"@,
            output,
        ],
        "Failed to execute ffmpeg"@,
        false,
        "ffmpeg failed to combine video and audio: "@,
    )
}

/// Plans the replacement of the audio track of `video_path` by
/// `audio_path`, into `output_path`. The video stream is not re-encoded.
pub fn combine_video_audio(video_path: &str, audio_path: &str, output_path: &str) -> (step:
    ToolStep)
    ensures
        step@ == combine_step(video_path@, audio_path@, output_path@),
{
    let args = [
        "-i",
        video_path,
        "-i",
        audio_path,
        "-c:v",
        "copy",
        "-c:a",
        "aac",
        "-map",
        "0:v:0",
        "-map",
        "1:a:0",
        "-shortest",
        "-y",
        output_path,
    ];
    assert(args@.map_values(|p: &str| p@) =~= combine_step(
        video_path@,
        audio_path@,
        output_path@,
    ).command.args);
    tool_step(
        "ffmpeg",
        &args,
        "Failed to execute ffmpeg",
        false,
        "ffmpeg failed to combine video and audio: ",
    )
}

/// The step that copies the video stream of a file and drops its audio.
pub open spec fn video_only_step(input: Seq<char>, output: Seq<char>) -> StepModel {
    step_model(
        "ffmpeg"@,
        seq!["-i"@, input, "-c:v"@, "copy"@, "-an"@, "-y"@, output],
        "Failed to execute ffmpeg"@,
        false,
        "ffmpeg failed to extract video: "@,
    )
}

/// Plans the extraction of the video stream of `input_path`, without
/// audio, into `output_path`.
pub fn extract_video_only(input_path: &str, output_path: &str) -> (step: ToolStep)
    ensures
        step@ == video_only_step(input_path@, output_path@),
{
    let args = ["-i", input_path, "-c:v", "copy", "-an", "-y", output_path];
    assert(args@.map_values(|p: &str| p@) =~= video_only_step(
        input_path@,
        output_path@,
    ).command.args);
    tool_step("ffmpeg", &args, "Failed to execute ffmpeg", false, "ffmpeg failed to extract video: ")
}

} // verus!
