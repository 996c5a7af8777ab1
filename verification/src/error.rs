//! The error type of the library, its model and its rendering as text.

use crate::text::{join, joined, views};
use vstd::prelude::*;
use vstd::string::*;

verus! {

/// Everything that can go wrong while censoring a file.
#[derive(Debug, Clone)]
pub enum BabymodeError {
    /// A file could not be read, written or removed. `source` is the text of
    /// the underlying I/O error.
    FileSystem { source: String, path: String },
    /// The media tool failed.
    FFmpeg { message: String, stderr: Option<String> },
    /// The transcription engine failed.
    Whisper { message: String, stderr: Option<String> },
    /// A configuration value was rejected.
    Config { field: String, message: String },
    /// The audio track could not be processed.
    AudioProcessing { message: String },
    /// The video stream could not be processed.
    VideoProcessing { message: String },
    /// A file has an extension that is not supported.
    UnsupportedFormat { extension: String, supported: Vec<String> },
    /// An external program that the pipeline needs is missing.
    MissingDependency { name: String, suggestion: String },
    /// A strategy was requested under a name that the registry does not hold.
    UnknownStrategy { name: String },
    /// A word of the transcript has no valid timing.
    MalformedTranscript { message: String },
    /// Any other failure of a processing step.
    Processing { message: String },
}

/// The result type of the library.
pub type Result<T> = std::result::Result<T, BabymodeError>;

/// The mathematical model of a [`BabymodeError`]: the same variants over
/// character sequences.
pub enum ErrorModel {
    FileSystem { source: Seq<char>, path: Seq<char> },
    FFmpeg { message: Seq<char>, stderr: Option<Seq<char>> },
    Whisper { message: Seq<char>, stderr: Option<Seq<char>> },
    Config { field: Seq<char>, message: Seq<char> },
    AudioProcessing { message: Seq<char> },
    VideoProcessing { message: Seq<char> },
    UnsupportedFormat { extension: Seq<char>, supported: Seq<Seq<char>> },
    MissingDependency { name: Seq<char>, suggestion: Seq<char> },
    UnknownStrategy { name: Seq<char> },
    MalformedTranscript { message: Seq<char> },
    Processing { message: Seq<char> },
}

/// The characters of an optional string.
pub open spec fn option_view(s: Option<String>) -> Option<Seq<char>> {
    match s {
        Some(s) => Some(s@),
        None => None,
    }
}

impl View for BabymodeError {
    type V = ErrorModel;

    open spec fn view(&self) -> ErrorModel {
        match *self {
            BabymodeError::FileSystem { source, path } => ErrorModel::FileSystem {
                source: source@,
                path: path@,
            },
            BabymodeError::FFmpeg { message, stderr } => ErrorModel::FFmpeg {
                message: message@,
                stderr: option_view(stderr),
            },
            BabymodeError::Whisper { message, stderr } => ErrorModel::Whisper {
                message: message@,
                stderr: option_view(stderr),
            },
            BabymodeError::Config { field, message } => ErrorModel::Config {
                field: field@,
                message: message@,
            },
            BabymodeError::AudioProcessing { message } => ErrorModel::AudioProcessing {
                message: message@,
            },
            BabymodeError::VideoProcessing { message } => ErrorModel::VideoProcessing {
                message: message@,
            },
            BabymodeError::UnsupportedFormat { extension, supported } => {
                ErrorModel::UnsupportedFormat { extension: extension@, supported: views(supported@) }
            },
            BabymodeError::MissingDependency { name, suggestion } => ErrorModel::MissingDependency {
                name: name@,
                suggestion: suggestion@,
            },
            BabymodeError::UnknownStrategy { name } => ErrorModel::UnknownStrategy { name: name@ },
            BabymodeError::MalformedTranscript { message } => ErrorModel::MalformedTranscript {
                message: message@,
            },
            BabymodeError::Processing { message } => ErrorModel::Processing { message: message@ },
        }
    }
}

/// The line that reports what a tool wrote to its error stream, if anything.
pub open spec fn stderr_line(stderr: Option<Seq<char>>) -> Seq<char> {
    match stderr {
        Some(text) => "\nStderr: "@ + text,
        None => Seq::empty(),
    }
}

impl ErrorModel {
    /// The message shown to the operator.
    pub open spec fn rendered(self) -> Seq<char> {
        match self {
            ErrorModel::FileSystem { source, path } => "File system error for '"@ + path + "': "@
                + source,
            ErrorModel::FFmpeg { message, stderr } => "FFmpeg error: "@ + message + stderr_line(
                stderr,
            ),
            ErrorModel::Whisper { message, stderr } => "Whisper error: "@ + message + stderr_line(
                stderr,
            ),
            ErrorModel::Config { field, message } => "Configuration error in '"@ + field + "': "@
                + message,
            ErrorModel::AudioProcessing { message } => "Audio processing error: "@ + message,
            ErrorModel::VideoProcessing { message } => "Video processing error: "@ + message,
            ErrorModel::UnsupportedFormat { extension, supported } => "Unsupported file format '"@
                + extension + "'. Supported formats: "@ + joined(supported, ", "@),
            ErrorModel::MissingDependency { name, suggestion } => "Missing dependency '"@ + name
                + "': "@ + suggestion,
            ErrorModel::UnknownStrategy { name } => "Processing error: Unknown censoring strategy: "@
                + name,
            ErrorModel::MalformedTranscript { message } => "Malformed transcript: "@ + message,
            ErrorModel::Processing { message } => "Processing error: "@ + message,
        }
    }
}

/// `prefix` followed by `tail`.
pub fn concat2(prefix: &str, tail: &str) -> (r: String)
    ensures
        r@ == prefix@ + tail@,
{
    let mut r = String::new();
    r.append(prefix);
    r.append(tail);
    r
}

/// `a`, `b`, `c` and `d` one after the other.
pub fn concat4(a: &str, b: &str, c: &str, d: &str) -> (r: String)
    ensures
        r@ == a@ + b@ + c@ + d@,
{
    let mut r = String::new();
    r.append(a);
    r.append(b);
    r.append(c);
    r.append(d);
    r
}

/// `message`, followed by the report of the error stream if there is one.
fn with_stderr(prefix: &str, message: &String, stderr: &Option<String>) -> (r: String)
    ensures
        r@ == prefix@ + message@ + stderr_line(option_view(*stderr)),
{
    let mut r = concat2(prefix, message.as_str());
    match stderr {
        Some(text) => {
            r.append("\nStderr: ");
            r.append(text.as_str());
        },
        None => {},
    }
    r
}

impl BabymodeError {
    /// The message shown to the operator.
    pub fn to_string(&self) -> (r: String)
        ensures
            r@ == self@.rendered(),
    {
        match self {
            BabymodeError::FileSystem { source, path } => concat4(
                "File system error for '",
                path.as_str(),
                "': ",
                source.as_str(),
            ),
            BabymodeError::FFmpeg { message, stderr } => with_stderr(
                "FFmpeg error: ",
                message,
                stderr,
            ),
            BabymodeError::Whisper { message, stderr } => with_stderr(
                "Whisper error: ",
                message,
                stderr,
            ),
            BabymodeError::Config { field, message } => concat4(
                "Configuration error in '",
                field.as_str(),
                "': ",
                message.as_str(),
            ),
            BabymodeError::AudioProcessing { message } => concat2(
                "Audio processing error: ",
                message.as_str(),
            ),
            BabymodeError::VideoProcessing { message } => concat2(
                "Video processing error: ",
                message.as_str(),
            ),
            BabymodeError::UnsupportedFormat { extension, supported } => {
                let list = join(supported, ", ");
                concat4(
                    "Unsupported file format '",
                    extension.as_str(),
                    "'. Supported formats: ",
                    list.as_str(),
                )
            },
            BabymodeError::MissingDependency { name, suggestion } => concat4(
                "Missing dependency '",
                name.as_str(),
                "': ",
                suggestion.as_str(),
            ),
            BabymodeError::UnknownStrategy { name } => concat2(
                "Processing error: Unknown censoring strategy: ",
                name.as_str(),
            ),
            BabymodeError::MalformedTranscript { message } => concat2(
                "Malformed transcript: ",
                message.as_str(),
            ),
            BabymodeError::Processing { message } => concat2(
                "Processing error: ",
                message.as_str(),
            ),
        }
    }

    /// The text of the underlying I/O error, where the error has one.
    pub fn source(&self) -> (r: Option<&String>)
        ensures
            match self@ {
                ErrorModel::FileSystem { source, .. } => r matches Some(s) && s@ == source,
                _ => r is None,
            },
    {
        match self {
            BabymodeError::FileSystem { source, .. } => Some(source),
            _ => None,
        }
    }
}

/// An error of the media tool.
pub fn ffmpeg_error(message: &str, stderr: Option<String>) -> (e: BabymodeError)
    ensures
        e@ == (ErrorModel::FFmpeg { message: message@, stderr: option_view(stderr) }),
{
    BabymodeError::FFmpeg { message: message.to_string(), stderr }
}

/// An error of the transcription engine.
pub fn whisper_error(message: &str, stderr: Option<String>) -> (e: BabymodeError)
    ensures
        e@ == (ErrorModel::Whisper { message: message@, stderr: option_view(stderr) }),
{
    BabymodeError::Whisper { message: message.to_string(), stderr }
}

/// A rejected configuration value.
pub fn config_error(field: &str, message: &str) -> (e: BabymodeError)
    ensures
        e@ == (ErrorModel::Config { field: field@, message: message@ }),
{
    BabymodeError::Config { field: field.to_string(), message: message.to_string() }
}

/// A file system error on `path`; `source` is the text of the I/O error.
pub fn fs_error(source: String, path: String) -> (e: BabymodeError)
    ensures
        e@ == (ErrorModel::FileSystem { source: source@, path: path@ }),
{
    BabymodeError::FileSystem { source, path }
}

/// A failure of a processing step.
pub fn processing_error(message: &str) -> (e: BabymodeError)
    ensures
        e@ == (ErrorModel::Processing { message: message@ }),
{
    BabymodeError::Processing { message: message.to_string() }
}

/// Turns the failure of an I/O operation, given by its text, into an error
/// of the library.
pub trait IntoBabymodeError<T> {
    /// The failure becomes a file system error on `path`.
    fn with_path(self, path: String) -> Result<T>;

    /// The failure becomes a processing error: `message`, a colon and the
    /// text of the failure.
    fn with_context(self, message: &str) -> Result<T>;
}

impl<T> IntoBabymodeError<T> for std::result::Result<T, String> {
    fn with_path(self, path: String) -> (r: Result<T>)
        ensures
            match self {
                Ok(value) => r == Ok::<T, BabymodeError>(value),
                Err(source) => r matches Err(e) && e@ == (ErrorModel::FileSystem {
                    source: source@,
                    path: path@,
                }),
            },
    {
        match self {
            Ok(value) => Ok(value),
            Err(source) => Err(fs_error(source, path)),
        }
    }

    fn with_context(self, message: &str) -> (r: Result<T>)
        ensures
            match self {
                Ok(value) => r == Ok::<T, BabymodeError>(value),
                Err(source) => r matches Err(e) && e@ == (ErrorModel::Processing {
                    message: message@ + ": "@ + source@,
                }),
            },
    {
        match self {
            Ok(value) => Ok(value),
            Err(source) => {
                let mut text = message.to_string();
                text.append(": ");
                text.append(source.as_str());
                Err(BabymodeError::Processing { message: text })
            },
        }
    }
}

} // verus!
