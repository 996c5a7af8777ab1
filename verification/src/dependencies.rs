//! The check that the external programs of the pipeline are installed: a
//! sequence of probes, each decided by the outcome of the one before.

use crate::error::{BabymodeError, ErrorModel, Result};
use crate::text::{chars_of, contains_chars, contains_run};
use crate::tool::{lossy_text, owned, utf8_lossy, CommandModel, ToolCommand, ToolRun};
use vstd::prelude::*;
use vstd::string::*;

verus! {

/// The Python interpreter that a probe runs.
#[derive(Debug, Clone, Copy, PartialEq, Eq, Structural)]
pub enum Python {
    /// `python3`.
    Python3,
    /// `python`.
    Python,
}

/// The probe that the check is waiting for.
#[derive(Debug, Clone, Copy, PartialEq, Eq, Structural)]
pub enum DependencyCheck {
    /// The version of the media tool.
    Ffmpeg,
    /// The version of `python3`, through the interpreter itself.
    Python3,
    /// The version of `python`, after `python3` could not be started.
    PythonFallback,
    /// Whether `python3 --version` can be started, to choose the
    /// interpreter for the last probe.
    Interpreter,
    /// The version of the transcription engine.
    Whisper(Python),
}

/// What comes after a probe: the next probe, or the end of the check.
#[derive(Debug)]
pub enum NextCheck {
    /// Run the command and come back with its outcome.
    Probe(DependencyCheck, ToolCommand),
    /// The check is over.
    Finished(Result<()>),
}

/// The mathematical model of a [`NextCheck`].
pub enum NextModel {
    Probe(DependencyCheck, CommandModel),
    Finished(std::result::Result<(), ErrorModel>),
}

impl View for NextCheck {
    type V = NextModel;

    open spec fn view(&self) -> NextModel {
        match *self {
            NextCheck::Probe(check, command) => NextModel::Probe(check, command@),
            NextCheck::Finished(Ok(_)) => NextModel::Finished(Ok(())),
            NextCheck::Finished(Err(e)) => NextModel::Finished(Err(e@)),
        }
    }
}

/// The error for a missing program.
pub open spec fn missing(name: Seq<char>, suggestion: Seq<char>) -> NextModel {
    NextModel::Finished(Err(ErrorModel::MissingDependency { name, suggestion }))
}

/// The name of an interpreter.
pub open spec fn python_name(python: Python) -> Seq<char> {
    match python {
        Python::Python3 => "python3"@,
        Python::Python => "python"@,
    }
}

/// The command of a probe.
pub open spec fn probe_command(check: DependencyCheck) -> CommandModel {
    match check {
        DependencyCheck::Ffmpeg => CommandModel { program: "ffmpeg"@, args: seq!["-version"@] },
        DependencyCheck::Python3 => CommandModel {
            program: "python3"@,
            args: seq!["-c"@, "import sys; print(f'Python {sys.version.split()[0]}')"@],
        },
        DependencyCheck::PythonFallback => CommandModel {
            program: "python"@,
            args: seq!["-c"@, "import sys; print(f'Python {sys.version.split()[0]}')"@],
        },
        DependencyCheck::Interpreter => CommandModel {
            program: "python3"@,
            args: seq!["--version"@],
        },
        DependencyCheck::Whisper(python) => CommandModel {
            program: python_name(python),
            args: seq![
                "-c"@,
                "import faster_whisper; print(f'faster-whisper {faster_whisper.__version__}')"@,
            ],
        },
    }
}

/// The probe `check`, to be run next.
pub open spec fn probe(check: DependencyCheck) -> NextModel {
    NextModel::Probe(check, probe_command(check))
}

/// What follows the probe `check`, given how it ended. The media tool
/// comes first, then the interpreter, `python` standing in where `python3`
/// cannot be started, then the transcription engine, under `python3` if
/// that can be started. A probe that cannot be started, or that exits
/// without success, ends the check with the program reported as missing;
/// only the engine is given the benefit of the doubt where it fails for
/// another reason than not being installed.
pub open spec fn after(check: DependencyCheck, run: ToolRun) -> NextModel {
    match check {
        DependencyCheck::Ffmpeg => match run {
            Err(_) => missing("FFmpeg"@, "Install FFmpeg: https://ffmpeg.org/download.html"@),
            Ok(output) => if output.success {
                probe(DependencyCheck::Python3)
            } else {
                missing("FFmpeg"@, "FFmpeg is installed but not working properly"@)
            },
        },
        DependencyCheck::Python3 => match run {
            Err(_) => probe(DependencyCheck::PythonFallback),
            Ok(output) => if output.success {
                probe(DependencyCheck::Interpreter)
            } else {
                missing("Python"@, "Python is installed but not working properly"@)
            },
        },
        DependencyCheck::PythonFallback => match run {
            Err(_) => missing("Python"@, "Install Python 3.8+ from https://python.org"@),
            Ok(output) => if output.success {
                probe(DependencyCheck::Interpreter)
            } else {
                missing("Python"@, "Python is installed but not working properly"@)
            },
        },
        DependencyCheck::Interpreter => match run {
            Err(_) => probe(DependencyCheck::Whisper(Python::Python)),
            Ok(_) => probe(DependencyCheck::Whisper(Python::Python3)),
        },
        DependencyCheck::Whisper(_) => match run {
            Err(_) => missing(
                "faster-whisper"@,
                "Install faster-whisper: pip install faster-whisper"@,
            ),
            Ok(output) => if !output.success && contains_run(
                utf8_lossy(output.stderr@),
                "No module named 'faster_whisper'"@,
            ) {
                missing("faster-whisper"@, "Install faster-whisper: pip install faster-whisper"@)
            } else {
                NextModel::Finished(Ok(()))
            },
        },
    }
}

/// Builds the end of the check with a program reported as missing.
fn report_missing(name: &str, suggestion: &str) -> (next: NextCheck)
    ensures
        next@ == missing(name@, suggestion@),
{
    NextCheck::Finished(
        Err(
            BabymodeError::MissingDependency {
                name: name.to_string(),
                suggestion: suggestion.to_string(),
            },
        ),
    )
}

/// Builds the probe `check`.
fn start(check: DependencyCheck) -> (next: NextCheck)
    ensures
        next@ == probe(check),
{
    let command = match check {
        DependencyCheck::Ffmpeg => {
            let args = ["-version"];
            assert(args@.map_values(|p: &str| p@) =~= seq!["-version"@]);
            ToolCommand { program: "ffmpeg".to_string(), args: owned(&args) }
        },
        DependencyCheck::Python3 => {
            let args = ["-c", "import sys; print(f'Python {sys.version.split()[0]}')"];
            assert(args@.map_values(|p: &str| p@) =~= seq![
                "-c"@,
                "import sys; print(f'Python {sys.version.split()[0]}')"@,
            ]);
            ToolCommand { program: "python3".to_string(), args: owned(&args) }
        },
        DependencyCheck::PythonFallback => {
            let args = ["-c", "import sys; print(f'Python {sys.version.split()[0]}')"];
            assert(args@.map_values(|p: &str| p@) =~= seq![
                "-c"@,
                "import sys; print(f'Python {sys.version.split()[0]}')"@,
            ]);
            ToolCommand { program: "python".to_string(), args: owned(&args) }
        },
        DependencyCheck::Interpreter => {
            let args = ["--version"];
            assert(args@.map_values(|p: &str| p@) =~= seq!["--version"@]);
            ToolCommand { program: "python3".to_string(), args: owned(&args) }
        },
        DependencyCheck::Whisper(python) => {
            let args = [
                "-c",
                "import faster_whisper; print(f'faster-whisper {faster_whisper.__version__}')",
            ];
            assert(args@.map_values(|p: &str| p@) =~= seq![
                "-c"@,
                "import faster_whisper; print(f'faster-whisper {faster_whisper.__version__}')"@,
            ]);
            let program = match python {
                Python::Python3 => "python3".to_string(),
                Python::Python => "python".to_string(),
            };
            ToolCommand { program, args: owned(&args) }
        },
    };
    NextCheck::Probe(check, command)
}

/// Begins the check of the external programs: the first probe.
pub fn validate_dependencies() -> (next: NextCheck)
    ensures
        next@ == probe(DependencyCheck::Ffmpeg),
{
    start(DependencyCheck::Ffmpeg)
}

/// Begins the check of the media tool.
pub fn check_ffmpeg() -> (next: NextCheck)
    ensures
        next@ == probe(DependencyCheck::Ffmpeg),
{
    start(DependencyCheck::Ffmpeg)
}

/// Begins the check of the interpreter and the transcription engine.
pub fn check_python_and_whisper() -> (next: NextCheck)
    ensures
        next@ == probe(DependencyCheck::Python3),
{
    start(DependencyCheck::Python3)
}

/// Decides what follows the probe `check`, given how it ended.
pub fn advance(check: DependencyCheck, run: &ToolRun) -> (next: NextCheck)
    ensures
        next@ == after(check, *run),
{
    match check {
        DependencyCheck::Ffmpeg => match run {
            Err(_) => report_missing("FFmpeg", "Install FFmpeg: https://ffmpeg.org/download.html"),
            Ok(output) => if output.success {
                start(DependencyCheck::Python3)
            } else {
                report_missing("FFmpeg", "FFmpeg is installed but not working properly")
            },
        },
        DependencyCheck::Python3 => match run {
            Err(_) => start(DependencyCheck::PythonFallback),
            Ok(output) => if output.success {
                start(DependencyCheck::Interpreter)
            } else {
                report_missing("Python", "Python is installed but not working properly")
            },
        },
        DependencyCheck::PythonFallback => match run {
            Err(_) => report_missing("Python", "Install Python 3.8+ from https://python.org"),
            Ok(output) => if output.success {
                start(DependencyCheck::Interpreter)
            } else {
                report_missing("Python", "Python is installed but not working properly")
            },
        },
        DependencyCheck::Interpreter => match run {
            Err(_) => start(DependencyCheck::Whisper(Python::Python)),
            Ok(_) => start(DependencyCheck::Whisper(Python::Python3)),
        },
        DependencyCheck::Whisper(_) => match run {
            Err(_) => report_missing(
                "faster-whisper",
                "Install faster-whisper: pip install faster-whisper",
            ),
            Ok(output) => {
                if !output.success {
                    let stderr = chars_of(lossy_text(&output.stderr).as_str());
                    let wanted = chars_of("No module named 'faster_whisper'");
                    if contains_chars(&stderr, &wanted) {
                        return report_missing(
                            "faster-whisper",
                            "Install faster-whisper: pip install faster-whisper",
                        );
                    }
                }
                NextCheck::Finished(Ok(()))
            },
        },
    }
}

} // verus!
