use code_voice::daemon::{get_log_file, get_pid_file, log_dir_in, log_file_in, pid_file_in};
use code_voice::model::{
    get_model_dir, get_model_path, model_dir_in, model_file_name_for, model_path_in,
    model_temp_path_in, model_url_for, DownloadProgress,
};
use code_voice::paths::{data_dir_in, get_data_dir, join_path, PathError};

#[test]
fn join_adds_one_separator() {
    assert_eq!(join_path("/home/u", "x"), "/home/u/x");
    assert_eq!(join_path("/home/u/", "x"), "/home/u/x");
    assert_eq!(join_path("", "x"), "x");
    assert_eq!(join_path("/home/u", "/etc"), "/etc");
    assert_eq!(join_path("/home/u", ""), "/home/u/");
}

#[test]
fn model_locations() {
    assert_eq!(data_dir_in("/home/u"), "/home/u/.code-voice");
    assert_eq!(model_dir_in("/home/u"), "/home/u/.code-voice/models");
    assert_eq!(model_file_name_for("base"), "ggml-base.bin");
    assert_eq!(model_path_in("/home/u", "tiny"), "/home/u/.code-voice/models/ggml-tiny.bin");
    assert_eq!(model_path_in("/", "small"), "/.code-voice/models/ggml-small.bin");
    assert_eq!(
        model_url_for("base"),
        "https://huggingface.co/ggerganov/whisper.cpp/resolve/main/ggml-base.bin"
    );
    assert_eq!(model_temp_path_in("/tmp", "base"), "/tmp/ggml-base.bin.tmp");
}

#[test]
fn daemon_locations() {
    assert_eq!(pid_file_in("/home/u"), "/home/u/.code-voice/daemon.pid");
    assert_eq!(log_dir_in("/home/u"), "/home/u/.code-voice/logs");
    assert_eq!(log_file_in("/home/u", "stdout"), "/home/u/.code-voice/logs/stdout.log");
}

#[test]
fn locations_in_the_home_directory() {
    match get_model_path("base") {
        Ok(p) => {
            assert!(p.ends_with("/.code-voice/models/ggml-base.bin"));
            assert!(p.len() > "/.code-voice/models/ggml-base.bin".len());
            assert_eq!(get_model_dir().unwrap() + "/ggml-base.bin", p);
            assert!(get_data_dir().unwrap().ends_with("/.code-voice"));
            assert!(get_pid_file().unwrap().ends_with("/.code-voice/daemon.pid"));
            assert!(get_log_file("stderr").unwrap().ends_with("/.code-voice/logs/stderr.log"));
        }
        Err(e) => {
            assert_eq!(e, PathError::NoHomeDir);
            assert_eq!(e.message(), "Failed to get home directory");
        }
    }
}

#[test]
fn download_progress_reports_whole_mebibytes() {
    let mut p = DownloadProgress::new(3 * 1024 * 1024);
    assert!(!p.record(8192));
    assert_eq!(p.downloaded(), 8192);
    assert!(p.record(1024 * 1024 - 8192));
    assert!(!p.record(1));
    assert_eq!(p.total(), 3 * 1024 * 1024);
    let mut unknown = DownloadProgress::new(0);
    assert!(!unknown.record(1024 * 1024));
    assert_eq!(unknown.downloaded(), 1024 * 1024);
}
