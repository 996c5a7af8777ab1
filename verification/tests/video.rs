use babymode::tool::{ToolOutput, ToolStep};
use babymode::video::{
    check_video_file, combine_video_audio, extract_video_only, get_video_metadata,
    parse_frame_rate, read_video_metadata, validate_video_file, video_metadata_from, FrameRate,
    ProbeReport, ProbeStream,
};

fn args_of(step: &ToolStep) -> Vec<&str> {
    step.command.args.iter().map(|a| a.as_str()).collect()
}

fn fps(rate: FrameRate) -> f64 {
    rate.numerator as f64 / rate.denominator as f64
}

#[test]
fn test_parse_frame_rate() {
    assert_eq!(fps(parse_frame_rate("30/1").unwrap()), 30.0);
    assert_eq!(fps(parse_frame_rate("25/1").unwrap()), 25.0);
    assert_eq!(fps(parse_frame_rate("60000/1001").unwrap()), 60000.0 / 1001.0);
}

#[test]
fn test_validate_video_file_extension() {
    let temp_dir = tempfile::tempdir().unwrap();

    // Test valid extension
    let valid =
        tempfile::Builder::new().prefix("test").suffix(".mp4").tempfile_in(temp_dir.path()).unwrap();
    assert!(validate_video_file(valid.path().to_str().unwrap()).is_ok());

    // Test invalid extension
    let invalid =
        tempfile::Builder::new().prefix("test").suffix(".txt").tempfile_in(temp_dir.path()).unwrap();
    assert!(validate_video_file(invalid.path().to_str().unwrap()).is_err());
}

#[test]
fn video_file_on_disk() {
    let temp_dir = tempfile::tempdir().unwrap();
    let dir = temp_dir.path().to_str().unwrap();
    assert_eq!(
        validate_video_file(dir).unwrap_err().to_string(),
        format!("Processing error: Path is not a file: {:?}", dir)
    );
    let missing = format!("{}/missing.mp4", dir);
    assert_eq!(
        validate_video_file(&missing).unwrap_err().to_string(),
        format!("Processing error: Video file does not exist: {:?}", missing)
    );
    let upper =
        tempfile::Builder::new().prefix("clip").suffix(".MKV").tempfile_in(temp_dir.path()).unwrap();
    assert!(validate_video_file(upper.path().to_str().unwrap()).is_ok());
}

#[test]
fn frame_rate_errors() {
    assert_eq!(parse_frame_rate("30/1").unwrap(), FrameRate { numerator: 30, denominator: 1 });
    assert_eq!(parse_frame_rate("0/7").unwrap(), FrameRate { numerator: 0, denominator: 7 });
    assert_eq!(parse_frame_rate("+24/+1").unwrap(), FrameRate { numerator: 24, denominator: 1 });
    for text in ["30", "", "30/1/1", "//", "1/2/"] {
        assert_eq!(
            parse_frame_rate(text).unwrap_err().to_string(),
            format!("Processing error: Invalid frame rate format: {}", text)
        );
    }
    for text in ["/1", "x/1", " 30/1", "-30/1", "18446744073709551616/1", "+/1"] {
        assert_eq!(
            parse_frame_rate(text).unwrap_err().to_string(),
            "Processing error: Could not parse frame rate numerator",
            "{}",
            text
        );
    }
    for text in ["30/", "30/x", "30/1 ", "30/1.0"] {
        assert_eq!(
            parse_frame_rate(text).unwrap_err().to_string(),
            "Processing error: Could not parse frame rate denominator",
            "{}",
            text
        );
    }
    assert_eq!(
        parse_frame_rate("30/0").unwrap_err().to_string(),
        "Processing error: Frame rate denominator is zero"
    );
    assert_eq!(
        parse_frame_rate("18446744073709551615/000").unwrap_err().to_string(),
        "Processing error: Frame rate denominator is zero"
    );
}

#[test]
fn video_file_checks_come_in_order() {
    let mp4 = Some(String::from("MP4"));
    assert_eq!(
        check_video_file("a \"b\".mp4", false, false, &mp4).unwrap_err().to_string(),
        "Processing error: Video file does not exist: \"a \\\"b\\\".mp4\""
    );
    assert_eq!(
        check_video_file("dir", true, false, &None).unwrap_err().to_string(),
        "Processing error: Path is not a file: \"dir\""
    );
    assert_eq!(
        check_video_file("clip", true, true, &None).unwrap_err().to_string(),
        "Processing error: File has no extension"
    );
    assert_eq!(
        check_video_file("clip.TXT", true, true, &Some(String::from("TXT")))
            .unwrap_err()
            .to_string(),
        "Processing error: Unsupported video format: txt. Supported formats: [\"mp4\", \"avi\", \"mov\", \"mkv\", \"wmv\", \"flv\", \"webm\", \"m4v\", \"3gp\", \"mpg\", \"mpeg\"]"
    );
    assert!(check_video_file("clip.MP4", true, true, &mp4).is_ok());
    for extension in
        ["mp4", "avi", "mov", "mkv", "wmv", "flv", "webm", "m4v", "3gp", "mpg", "mpeg", "WebM"]
    {
        assert!(check_video_file("x", true, true, &Some(extension.to_string())).is_ok());
    }
    for extension in ["mp3", "", "mp", "mp44", "wav"] {
        assert!(check_video_file("x", true, true, &Some(extension.to_string())).is_err());
    }
}

#[test]
fn probe_and_stream_commands() {
    let step = get_video_metadata("movie.mp4");
    assert_eq!(step.command.program, "ffprobe");
    assert_eq!(
        args_of(&step),
        vec![
            "-v",
            "quiet",
            "-print_format",
            "json",
            "-show_format",
            "-show_streams",
            "movie.mp4",
        ]
    );
    assert_eq!(step.spawn_failure, "Failed to execute ffprobe. Make sure ffmpeg is installed.");
    assert_eq!(step.exit_failure, "ffprobe failed: ");

    let step = combine_video_audio("movie.mp4", "clean.wav", "movie_censored.mp4");
    assert_eq!(step.command.program, "ffmpeg");
    assert_eq!(
        args_of(&step),
        vec![
            "-i",
            "movie.mp4",
            "-i",
            "clean.wav",
            "-c:v",
            "copy",
            "-c:a",
            "aac",
            "-map",
            "0:v:0",
            "-map",
            "1:a:0",
            "-shortest",
            "-y",
            "movie_censored.mp4",
        ]
    );
    assert_eq!(step.spawn_failure, "Failed to execute ffmpeg");
    assert_eq!(
        step.conclude(&Ok(ToolOutput { success: false, stdout: Vec::new(), stderr: b"x".to_vec() }))
            .unwrap_err()
            .to_string(),
        "Processing error: ffmpeg failed to combine video and audio: x"
    );

    let step = extract_video_only("movie.mp4", "silent.mp4");
    assert_eq!(args_of(&step), vec!["-i", "movie.mp4", "-c:v", "copy", "-an", "-y", "silent.mp4"]);
    assert_eq!(step.exit_failure, "ffmpeg failed to extract video: ");
}

const REPORT: &str = r#"{
    "streams": [
        {"index": 0, "codec_type": "audio", "codec_name": "aac"},
        {"index": 1, "codec_type": "video", "codec_name": "h264", "width": 1920, "height": 1080,
         "r_frame_rate": "30000/1001"},
        {"index": 2, "codec_type": "video", "codec_name": "mjpeg", "width": 320, "height": 240,
         "r_frame_rate": "1/1"},
        {"index": 3, "codec_type": "subtitle"}
    ],
    "format": {"filename": "movie.mp4", "duration": "5400.040000", "bit_rate": "2500000"}
}"#;

#[test]
fn metadata_is_read_from_the_report() {
    let metadata = read_video_metadata(REPORT.as_bytes().to_vec()).unwrap();
    assert_eq!(metadata.duration, 5_400_040);
    assert_eq!(metadata.width, 1920);
    assert_eq!(metadata.height, 1080);
    assert_eq!(metadata.fps, FrameRate { numerator: 30_000, denominator: 1001 });
    assert!(metadata.has_audio);
    assert_eq!(metadata.codec, "h264");
    assert_eq!(metadata.bitrate, Some(2_500_000));
}

#[test]
fn metadata_errors_of_the_report() {
    let cases = [
        (&b"\xc3\x28"[..], "ffprobe output is not valid UTF-8"),
        (b"", "Failed to parse ffprobe JSON output"),
        (br#"{"streams": []}"#, "No format information in ffprobe output"),
        (br#"{"format": {}, "streams": []}"#, "Could not parse video duration"),
        (br#"{"format": {"duration": "1"}}"#, "No streams information in ffprobe output"),
        (br#"{"format": {"duration": "1"}, "streams": {}}"#, "No streams information in ffprobe output"),
        (br#"{"format": {"duration": "1"}, "streams": []}"#, "No video stream found in the file"),
        (
            br#"{"format": {"duration": "1"}, "streams": [{"codec_type": "audio"}, {}]}"#,
            "No video stream found in the file",
        ),
        (
            br#"{"format": {"duration": "1"}, "streams": [{"codec_type": "video"}]}"#,
            "Could not parse video width",
        ),
        (
            br#"{"format": {"duration": "1"}, "streams": [{"codec_type": "video", "width": -2}]}"#,
            "Could not parse video width",
        ),
        (
            br#"{"format": {"duration": "1"}, "streams": [{"codec_type": "video", "width": 2}]}"#,
            "Could not parse video height",
        ),
        (
            br#"{"format": {"duration": "1"}, "streams": [{"codec_type": "video", "width": 2, "height": 2}]}"#,
            "Could not get video codec",
        ),
        (
            br#"{"format": {"duration": "1"}, "streams": [{"codec_type": "video", "width": 2, "height": 2, "codec_name": "h264"}]}"#,
            "Could not get frame rate",
        ),
        (
            br#"{"format": {"duration": "1"}, "streams": [{"codec_type": "video", "width": 2, "height": 2, "codec_name": "h264", "r_frame_rate": "25"}]}"#,
            "Invalid frame rate format: 25",
        ),
    ];
    for (report, message) in cases {
        assert_eq!(
            read_video_metadata(report.to_vec()).unwrap_err().to_string(),
            format!("Processing error: {}", message)
        );
    }
}

fn stream(kind: &str) -> ProbeStream {
    ProbeStream {
        codec_type: Some(kind.to_string()),
        width: Some(4_294_967_296 + 640),
        height: Some(480),
        codec_name: Some(String::from("vp9")),
        r_frame_rate: Some(String::from("24/1")),
    }
}

#[test]
fn metadata_takes_the_first_video_stream() {
    let mut second = stream("video");
    second.codec_name = Some(String::from("second"));
    let report = ProbeReport {
        has_format: true,
        duration: Some(String::from("0.5")),
        bit_rate: Some(String::from("fast")),
        streams: Some(vec![stream("data"), stream("video"), second]),
    };
    let metadata = video_metadata_from(&report).unwrap();
    assert_eq!(metadata.duration, 500);
    assert_eq!(metadata.width, 640);
    assert_eq!(metadata.height, 480);
    assert_eq!(metadata.codec, "vp9");
    assert!(!metadata.has_audio);
    assert_eq!(metadata.bitrate, None);

    let report = ProbeReport {
        streams: Some(vec![stream("video"), stream("audio")]),
        bit_rate: None,
        ..report
    };
    let metadata = video_metadata_from(&report).unwrap();
    assert!(metadata.has_audio);
    assert_eq!(metadata.bitrate, None);
}

#[test]
fn fields_are_read_where_the_report_has_them() {
    // a field of the wrong kind counts as missing, and so does a field
    // that stands at another level of the report
    let report = br#"{
        "duration": "9",
        "format": {"duration": "2.5", "bit_rate": 128000, "streams": []},
        "streams": [
            {"codec_type": "video", "codec_name": "h264", "width": 640, "height": 360,
             "r_frame_rate": "25/1", "format": {"duration": "7"}},
            {"codec_type": ["audio"]},
            "audio",
            {"codec_type": "audio", "width": "wide"}
        ]
    }"#;
    let metadata = read_video_metadata(report.to_vec()).unwrap();
    assert_eq!(metadata.duration, 2500);
    assert_eq!(metadata.bitrate, None);
    assert_eq!(metadata.width, 640);
    assert_eq!(metadata.height, 360);
    assert_eq!(metadata.codec, "h264");
    assert!(metadata.has_audio);

    let keyed = br#"{"format": {"duration": "1"}, "streams": {"0": {"codec_type": "video"}}}"#;
    assert_eq!(
        read_video_metadata(keyed.to_vec()).unwrap_err().to_string(),
        "Processing error: No streams information in ffprobe output"
    );
    let numbers = br#"{"format": {"duration": "1"}, "streams": [
        {"codec_type": "video", "codec_name": "h264", "width": 640.0, "height": 360,
         "r_frame_rate": "25/1"}]}"#;
    assert_eq!(
        read_video_metadata(numbers.to_vec()).unwrap_err().to_string(),
        "Processing error: Could not parse video width"
    );
}
