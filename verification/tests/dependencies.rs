use babymode::dependencies::{
    advance, check_ffmpeg, check_python_and_whisper, validate_dependencies, DependencyCheck,
    NextCheck, Python,
};
use babymode::tool::{ToolOutput, ToolRun};
use babymode::BabymodeError;

fn ran(success: bool, stderr: &str) -> ToolRun {
    Ok(ToolOutput { success, stdout: Vec::new(), stderr: stderr.as_bytes().to_vec() })
}

fn not_started() -> ToolRun {
    Err(String::from("No such file or directory"))
}

fn probe_of(next: NextCheck) -> (DependencyCheck, String, Vec<String>) {
    match next {
        NextCheck::Probe(check, command) => (check, command.program, command.args),
        NextCheck::Finished(result) => panic!("the check ended: {:?}", result),
    }
}

fn missing(next: NextCheck) -> (String, String) {
    match next {
        NextCheck::Finished(Err(BabymodeError::MissingDependency { name, suggestion })) => {
            (name, suggestion)
        }
        other => panic!("expected a missing dependency, got {:?}", other),
    }
}

const PYTHON_PROBE: &str = "import sys; print(f'Python {sys.version.split()[0]}')";
const WHISPER_PROBE: &str =
    "import faster_whisper; print(f'faster-whisper {faster_whisper.__version__}')";

#[test]
fn the_check_begins_with_the_media_tool() {
    for first in [validate_dependencies(), check_ffmpeg()] {
        let (check, program, args) = probe_of(first);
        assert_eq!(check, DependencyCheck::Ffmpeg);
        assert_eq!(program, "ffmpeg");
        assert_eq!(args, vec!["-version"]);
    }
    let (check, program, args) = probe_of(check_python_and_whisper());
    assert_eq!(check, DependencyCheck::Python3);
    assert_eq!(program, "python3");
    assert_eq!(args, vec!["-c", PYTHON_PROBE]);
}

#[test]
fn all_programs_installed() {
    let (check, program, args) = probe_of(advance(DependencyCheck::Ffmpeg, &ran(true, "")));
    assert_eq!((check, program.as_str()), (DependencyCheck::Python3, "python3"));
    assert_eq!(args, vec!["-c", PYTHON_PROBE]);
    let (check, program, args) = probe_of(advance(check, &ran(true, "")));
    assert_eq!((check, program.as_str()), (DependencyCheck::Interpreter, "python3"));
    assert_eq!(args, vec!["--version"]);
    let (check, program, args) = probe_of(advance(check, &ran(true, "")));
    assert_eq!((check, program.as_str()), (DependencyCheck::Whisper(Python::Python3), "python3"));
    assert_eq!(args, vec!["-c", WHISPER_PROBE]);
    assert!(matches!(advance(check, &ran(true, "")), NextCheck::Finished(Ok(()))));
}

#[test]
fn python_stands_in_for_python3() {
    let (check, program, args) = probe_of(advance(DependencyCheck::Python3, &not_started()));
    assert_eq!((check, program.as_str()), (DependencyCheck::PythonFallback, "python"));
    assert_eq!(args, vec!["-c", PYTHON_PROBE]);
    let (check, _, _) = probe_of(advance(check, &ran(true, "")));
    assert_eq!(check, DependencyCheck::Interpreter);
    let (check, program, args) = probe_of(advance(check, &not_started()));
    assert_eq!((check, program.as_str()), (DependencyCheck::Whisper(Python::Python), "python"));
    assert_eq!(args, vec!["-c", WHISPER_PROBE]);
    // even a failing `python3 --version` counts as an interpreter that starts
    let (check, _, _) = probe_of(advance(DependencyCheck::Interpreter, &ran(false, "")));
    assert_eq!(check, DependencyCheck::Whisper(Python::Python3));
}

#[test]
fn missing_programs() {
    assert_eq!(
        missing(advance(DependencyCheck::Ffmpeg, &not_started())),
        (String::from("FFmpeg"), String::from("Install FFmpeg: https://ffmpeg.org/download.html"))
    );
    assert_eq!(
        missing(advance(DependencyCheck::Ffmpeg, &ran(false, "crash"))),
        (String::from("FFmpeg"), String::from("FFmpeg is installed but not working properly"))
    );
    assert_eq!(
        missing(advance(DependencyCheck::Python3, &ran(false, ""))),
        (String::from("Python"), String::from("Python is installed but not working properly"))
    );
    assert_eq!(
        missing(advance(DependencyCheck::PythonFallback, &not_started())),
        (String::from("Python"), String::from("Install Python 3.8+ from https://python.org"))
    );
    assert_eq!(
        missing(advance(DependencyCheck::PythonFallback, &ran(false, ""))),
        (String::from("Python"), String::from("Python is installed but not working properly"))
    );
    let install = (
        String::from("faster-whisper"),
        String::from("Install faster-whisper: pip install faster-whisper"),
    );
    for python in [Python::Python3, Python::Python] {
        assert_eq!(missing(advance(DependencyCheck::Whisper(python), &not_started())), install);
        assert_eq!(
            missing(advance(
                DependencyCheck::Whisper(python),
                &ran(
                    false,
                    "Traceback (most recent call last):\nModuleNotFoundError: No module named 'faster_whisper'\n"
                )
            )),
            install
        );
    }
}

#[test]
fn the_engine_gets_the_benefit_of_the_doubt() {
    let check = DependencyCheck::Whisper(Python::Python3);
    assert!(matches!(
        advance(check, &ran(false, "AttributeError: module has no attribute '__version__'")),
        NextCheck::Finished(Ok(()))
    ));
    assert!(matches!(advance(check, &ran(false, "")), NextCheck::Finished(Ok(()))));
    // the report of a missing module only counts when the probe failed
    assert!(matches!(
        advance(check, &ran(true, "No module named 'faster_whisper'")),
        NextCheck::Finished(Ok(()))
    ));
}
