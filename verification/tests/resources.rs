use babymode::resources::TempFile;

#[test]
fn test_temp_file_take_path() {
    let temp_dir = tempfile::tempdir().unwrap();
    let kept = tempfile::Builder::new()
        .prefix("test")
        .suffix(".txt")
        .tempfile_in(temp_dir.path())
        .unwrap();
    let file_path = kept.path().to_str().unwrap().to_string();

    let temp_file = TempFile::new(file_path.clone());
    let taken_path = temp_file.take_path();

    assert_eq!(taken_path, file_path);
    assert!(kept.path().exists()); // Should still exist after take_path
}

#[test]
fn a_temporary_file_is_owned_until_it_is_released() {
    let mut file = TempFile::new(String::from("/tmp/babymode_audio_1.wav"));
    assert_eq!(file.path(), "/tmp/babymode_audio_1.wav");
    assert!(file.cleans_up());
    file.release();
    assert!(!file.cleans_up());
    assert_eq!(file.path(), "/tmp/babymode_audio_1.wav");
}

#[test]
fn presence_follows_the_disk() {
    let temp_dir = tempfile::tempdir().unwrap();
    let kept = tempfile::NamedTempFile::new_in(temp_dir.path()).unwrap();
    let path = kept.path().to_str().unwrap().to_string();
    let file = TempFile::new(path.clone());
    assert!(file.is_present());
    kept.close().unwrap();
    assert!(!file.is_present());
    assert!(!TempFile::new(String::from("/nonexistent/dir/file")).is_present());
}
