//! External tools: the command lines that the pipeline hands to the media
//! tool and the transcription engine, and how the outcome of a run is judged.

use crate::error::{BabymodeError, ErrorModel, Result};
use crate::text::views;
use vstd::prelude::*;
use vstd::string::*;
use vstd::utf8::{decode_utf8, valid_utf8};

verus! {

/// What `String::from_utf8_lossy` makes of a sequence of bytes.
pub uninterp spec fn utf8_lossy(bytes: Seq<u8>) -> Seq<char>;

/// `String::from_utf8_lossy`: the text of `bytes`, with every invalid
/// sequence replaced by U+FFFD. The result is a function of the bytes; for
/// valid UTF-8 it is the decoded text.
#[verifier::external_body]
pub(crate) fn lossy_text(bytes: &Vec<u8>) -> (text: String)
    ensures
        text@ == utf8_lossy(bytes@),
        valid_utf8(bytes@) ==> text@ == decode_utf8(bytes@),
{
    String::from_utf8_lossy(bytes).into_owned()
}

/// `String::from_utf8`: the text of `bytes` if they are valid UTF-8, and
/// nothing otherwise.
#[verifier::external_body]
pub(crate) fn strict_text(bytes: Vec<u8>) -> (text: Option<String>)
    ensures
        text is Some <==> valid_utf8(bytes@),
        text matches Some(t) ==> t@ == decode_utf8(bytes@),
{
    String::from_utf8(bytes).ok()
}

/// A program and the arguments to run it with.
#[derive(Debug, Clone)]
pub struct ToolCommand {
    /// The name of the program.
    pub program: String,
    /// The arguments, in order.
    pub args: Vec<String>,
}

/// The mathematical model of a [`ToolCommand`].
pub struct CommandModel {
    pub program: Seq<char>,
    pub args: Seq<Seq<char>>,
}

impl View for ToolCommand {
    type V = CommandModel;

    open spec fn view(&self) -> CommandModel {
        CommandModel { program: self.program@, args: views(self.args@) }
    }
}

/// What a program left behind when it exited.
#[derive(Debug, Clone)]
pub struct ToolOutput {
    /// Whether the program reported success.
    pub success: bool,
    /// What it wrote to its output stream.
    pub stdout: Vec<u8>,
    /// What it wrote to its error stream.
    pub stderr: Vec<u8>,
}

/// How a run ended: with the output of the program, or with the reason why
/// the program could not be started.
pub type ToolRun = std::result::Result<ToolOutput, String>;

/// A command together with the messages that report its failure.
#[derive(Debug, Clone)]
pub struct ToolStep {
    /// The command to run.
    pub command: ToolCommand,
    /// The message when the program cannot be started.
    pub spawn_failure: String,
    /// Whether the reason follows the message, after a colon and a space.
    pub spawn_detail: bool,
    /// The message when the program exits without success; the text of its
    /// error stream follows it.
    pub exit_failure: String,
}

/// The mathematical model of a [`ToolStep`].
pub struct StepModel {
    pub command: CommandModel,
    pub spawn_failure: Seq<char>,
    pub spawn_detail: bool,
    pub exit_failure: Seq<char>,
}

impl View for ToolStep {
    type V = StepModel;

    open spec fn view(&self) -> StepModel {
        StepModel {
            command: self.command@,
            spawn_failure: self.spawn_failure@,
            spawn_detail: self.spawn_detail,
            exit_failure: self.exit_failure@,
        }
    }
}

impl ToolStep {
    /// The error that reports that the program could not be started.
    pub open spec fn spawn_error(&self, reason: Seq<char>) -> ErrorModel {
        ErrorModel::Processing {
            message: if self.spawn_detail {
                self.spawn_failure@ + ": "@ + reason
            } else {
                self.spawn_failure@
            },
        }
    }

    /// The error that reports that the program exited without success.
    pub open spec fn exit_error(&self, stderr: Seq<u8>) -> ErrorModel {
        ErrorModel::Processing { message: self.exit_failure@ + utf8_lossy(stderr) }
    }

    /// Judges the outcome of running the command: success if the program
    /// ran and reported success, else the error that says what went wrong.
    pub fn conclude(&self, run: &ToolRun) -> (r: Result<()>)
        ensures
            match *run {
                Err(reason) => r matches Err(e) && e@ == self.spawn_error(reason@),
                Ok(output) => if output.success {
                    r is Ok
                } else {
                    r matches Err(e) && e@ == self.exit_error(output.stderr@)
                },
            },
    {
        match run {
            Err(reason) => {
                let mut message = self.spawn_failure.clone();
                if self.spawn_detail {
                    message.append(": ");
                    message.append(reason.as_str());
                }
                Err(BabymodeError::Processing { message })
            },
            Ok(output) => {
                if output.success {
                    Ok(())
                } else {
                    let mut message = self.exit_failure.clone();
                    let stderr = lossy_text(&output.stderr);
                    message.append(stderr.as_str());
                    Err(BabymodeError::Processing { message })
                }
            },
        }
    }
}

/// The copy of a file, together with the message that reports its failure.
#[derive(Debug, Clone)]
pub struct CopyStep {
    /// The file to copy.
    pub from: String,
    /// Where the copy goes.
    pub to: String,
    /// The message when the copy fails.
    pub failure: String,
    /// Whether the reason follows the message, after a colon and a space.
    pub detail: bool,
}

/// The mathematical model of a [`CopyStep`].
pub struct CopyModel {
    pub from: Seq<char>,
    pub to: Seq<char>,
    pub failure: Seq<char>,
    pub detail: bool,
}

impl View for CopyStep {
    type V = CopyModel;

    open spec fn view(&self) -> CopyModel {
        CopyModel { from: self.from@, to: self.to@, failure: self.failure@, detail: self.detail }
    }
}

impl CopyStep {
    /// The error that reports that the copy failed.
    pub open spec fn copy_error(&self, reason: Seq<char>) -> ErrorModel {
        ErrorModel::Processing {
            message: if self.detail {
                self.failure@ + ": "@ + reason
            } else {
                self.failure@
            },
        }
    }

    /// Judges the outcome of the copy: `outcome` is the reason of the
    /// failure if the copy failed.
    pub fn conclude(&self, outcome: &std::result::Result<(), String>) -> (r: Result<()>)
        ensures
            match *outcome {
                Ok(_) => r is Ok,
                Err(reason) => r matches Err(e) && e@ == self.copy_error(reason@),
            },
    {
        match outcome {
            Ok(_) => Ok(()),
            Err(reason) => {
                let mut message = self.failure.clone();
                if self.detail {
                    message.append(": ");
                    message.append(reason.as_str());
                }
                Err(BabymodeError::Processing { message })
            },
        }
    }
}

/// What has to be done to produce a rewritten audio file: copy the input
/// unchanged, or run the media tool.
#[derive(Debug, Clone)]
pub enum AudioJob {
    /// Nothing is to be censored: the output is a copy of the input.
    Copy(CopyStep),
    /// The media tool rewrites the input into the output.
    Run(ToolStep),
}

/// The mathematical model of an [`AudioJob`].
pub enum JobModel {
    Copy(CopyModel),
    Run(StepModel),
}

impl View for AudioJob {
    type V = JobModel;

    open spec fn view(&self) -> JobModel {
        match *self {
            AudioJob::Copy(step) => JobModel::Copy(step@),
            AudioJob::Run(step) => JobModel::Run(step@),
        }
    }
}

/// The step that runs `program` with `args`.
pub open spec fn step_model(
    program: Seq<char>,
    args: Seq<Seq<char>>,
    spawn_failure: Seq<char>,
    spawn_detail: bool,
    exit_failure: Seq<char>,
) -> StepModel {
    StepModel {
        command: CommandModel { program, args },
        spawn_failure,
        spawn_detail,
        exit_failure,
    }
}

/// Builds the step that runs `program` with `args`.
pub fn tool_step(
    program: &str,
    args: &[&str],
    spawn_failure: &str,
    spawn_detail: bool,
    exit_failure: &str,
) -> (step: ToolStep)
    ensures
        step@ == step_model(
            program@,
            args@.map_values(|p: &str| p@),
            spawn_failure@,
            spawn_detail,
            exit_failure@,
        ),
{
    ToolStep {
        command: ToolCommand { program: program.to_string(), args: owned(args) },
        spawn_failure: spawn_failure.to_string(),
        spawn_detail,
        exit_failure: exit_failure.to_string(),
    }
}

/// Builds the step that copies `from` to `to`.
pub fn copy_step(from: &str, to: &str, failure: &str, detail: bool) -> (step: CopyStep)
    ensures
        step@ == (CopyModel { from: from@, to: to@, failure: failure@, detail }),
{
    CopyStep { from: from.to_string(), to: to.to_string(), failure: failure.to_string(), detail }
}

/// The list of strings `parts`, each as an owned string.
pub fn owned(parts: &[&str]) -> (list: Vec<String>)
    ensures
        views(list@) == parts@.map_values(|p: &str| p@),
{
    let mut list: Vec<String> = Vec::new();
    let mut i: usize = 0;
    while i < parts.len()
        invariant
            i <= parts@.len(),
            list@.len() == i,
            forall|k: int| 0 <= k < i ==> (#[trigger] list@[k])@ == parts@[k]@,
        decreases parts@.len() - i,
    {
        list.push(parts[i].to_string());
        i = i + 1;
    }
    list
}

} // verus!
