//! Downloading a video or its sound.

use tuitube::download::{
    begin_run, debug_log_path, default_dir, download_args, end_run, extract_saved_path,
    failure_reason, finished, format_debug_entry, sanitize_filename, with_log_hint, Run,
};
use tuitube::paths::config_path;
use tuitube::search::RunEnd;

fn done(code: i32, stdout: &str, stderr: &str) -> RunEnd {
    RunEnd::Finished {
        code: Some(code),
        stdout: stdout.to_string(),
        stderr: stderr.to_string(),
    }
}

fn missing() -> RunEnd {
    RunEnd::NotStarted {
        missing: true,
        reason: "entity not found".to_string(),
    }
}

#[test]
fn sanitize_filename_replaces_both_kinds_of_path_separator() {
    assert_eq!(sanitize_filename("a/b\\c"), "a_b_c");
    assert_eq!(sanitize_filename("普通のタイトル"), "普通のタイトル");
    assert_eq!(sanitize_filename(""), "");
}

#[test]
fn default_dir_prefers_the_configured_setting() {
    let configured = "/configured/dir";
    assert_eq!(
        default_dir(Some(configured), Some("/home/x")),
        Some(configured.to_string())
    );
}

#[test]
fn default_dir_falls_back_to_home_downloads() {
    assert_eq!(
        default_dir(None, Some("/home/x")),
        Some("/home/x/Downloads".to_string())
    );
}

#[test]
fn default_dir_is_none_without_a_setting_or_home() {
    assert_eq!(default_dir(None, None), None);
    assert_eq!(default_dir(None, Some("")), None);
}

#[test]
fn download_args_for_video_asks_for_the_best_combined_streams() {
    let args = download_args("https://x/watch?v=1", "/tmp/out", "title", false);
    assert_eq!(
        args,
        vec![
            "-f",
            "bestvideo+bestaudio/best",
            "-o",
            "/tmp/out/title.%(ext)s",
            "--print",
            "after_move:filepath",
            "https://x/watch?v=1",
        ]
    );
}

#[test]
fn download_args_for_audio_only_extracts_mp3() {
    let args = download_args("https://x/watch?v=1", "/tmp/out", "title", true);
    assert_eq!(
        args,
        vec![
            "-x",
            "--audio-format",
            "mp3",
            "-o",
            "/tmp/out/title.%(ext)s",
            "--print",
            "after_move:filepath",
            "https://x/watch?v=1",
        ]
    );
}

#[test]
fn extract_saved_path_reads_the_last_non_empty_line() {
    assert_eq!(
        extract_saved_path("[download] done\n/tmp/out/title.mp4\n"),
        Some("/tmp/out/title.mp4".to_string())
    );
    assert_eq!(
        extract_saved_path("/tmp/out/title.mp4\n\n\n"),
        Some("/tmp/out/title.mp4".to_string())
    );
}

#[test]
fn extract_saved_path_is_none_for_blank_output() {
    assert_eq!(extract_saved_path(""), None);
    assert_eq!(extract_saved_path("\n  \n"), None);
}

#[test]
fn format_debug_entry_reports_success() {
    let args = vec!["-f".to_string(), "bestvideo+bestaudio/best".to_string()];
    let entry = format_debug_entry(
        0,
        &args,
        &done(0, "/tmp/out/title.mp4\n", ""),
    );
    assert!(entry.starts_with("##### 0 #####\n"), "{entry}");
    assert!(
        entry.contains("args: -f bestvideo+bestaudio/best\n"),
        "{entry}"
    );
    assert!(entry.contains("result: success (exit 0)\n"), "{entry}");
    assert!(
        entry.contains("--- stdout ---\n/tmp/out/title.mp4"),
        "{entry}"
    );
    assert!(entry.contains("--- stderr ---\n"), "{entry}");
}

#[test]
fn format_debug_entry_reports_a_failed_exit_code() {
    let entry = format_debug_entry(
        0,
        &vec![],
        &done(1, "", "ERROR: ffmpeg not found\n"),
    );
    assert!(entry.contains("result: failed (exit 1)\n"), "{entry}");
    assert!(entry.contains("ERROR: ffmpeg not found"), "{entry}");
}

#[test]
fn format_debug_entry_reports_a_launch_error() {
    let entry = format_debug_entry(0, &vec![], &missing());
    assert!(entry.contains("result: launch error:"), "{entry}");
}

fn run() -> Run {
    begin_run("/tmp/out", "title", false, "https://x/v=1", Some("/home/x"))
}

fn told(end: RunEnd) -> Result<String, String> {
    end_run(&run(), &end, None, 0).told
}

#[test]
fn the_printed_path_is_told() {
    assert_eq!(
        told(done(0, "/tmp/out/title.mp4\n", "")),
        Ok("保存しました: /tmp/out/title.mp4".to_string())
    );
}

#[test]
fn the_directory_is_told_where_no_path_was_printed() {
    assert_eq!(
        told(done(0, "", "")),
        Ok("保存しました: /tmp/out".to_string())
    );
}

#[test]
fn a_leading_tilde_stands_for_the_home() {
    let run = begin_run("~/Movies", "title", false, "https://x/v=1", Some("/home/x"));
    assert_eq!(run.dir, "/home/x/Movies");
    assert_eq!(
        end_run(&run, &done(0, "", ""), None, 0).told,
        Ok("保存しました: /home/x/Movies".to_string())
    );
}

#[test]
fn the_error_of_a_failed_run_is_told() {
    assert_eq!(
        told(done(1, "", "ERROR: ffmpeg not found\n")),
        Err("ダウンロードに失敗しました: ERROR: ffmpeg not found".to_string())
    );
}

#[test]
fn the_error_line_is_found_behind_a_warning() {
    assert_eq!(
        failure_reason("WARNING: old version\nERROR: boom\nmore\n"),
        "ERROR: boom"
    );
    assert_eq!(failure_reason("first\nlast\n\n"), "last");
    assert_eq!(failure_reason(""), "");
}

#[test]
fn a_missing_downloader_is_told() {
    let error = told(missing()).expect_err("not started");
    assert!(error.contains("見つかりません"), "{error}");
    let error = finished(
        &RunEnd::NotStarted {
            missing: false,
            reason: "denied".to_string(),
        },
        "/tmp/out",
        None,
    )
    .expect_err("not started");
    assert!(error.contains("denied"), "{error}");
}

#[test]
fn sound_is_asked_for_as_mp3() {
    let run = begin_run("/tmp/out", "title", true, "https://x/v=1", None);
    assert!(run.args.contains(&"--audio-format".to_string()));
    assert!(run.args.contains(&"mp3".to_string()));
}

#[test]
fn a_log_is_written_and_named_only_where_one_is_kept() {
    let report = end_run(&run(), &done(1, "", "ERROR: boom\n"), Some("/h/x.log"), 7);
    let entry = report.entry.expect("an entry");
    assert!(entry.starts_with("##### 7 #####\n"), "{entry}");
    assert!(entry.contains("https://x/v=1"), "{entry}");
    assert!(entry.contains("result: failed (exit 1)"), "{entry}");
    assert_eq!(
        report.told,
        Err("ダウンロードに失敗しました: ERROR: boom (詳細: /h/x.log)".to_string())
    );
    let quiet = end_run(&run(), &done(1, "", "ERROR: boom\n"), None, 7);
    assert_eq!(quiet.entry, None);
}

#[test]
fn a_message_names_the_log_where_there_is_one() {
    assert_eq!(with_log_hint("failed".to_string(), None), "failed");
    assert_eq!(
        with_log_hint("failed".to_string(), Some("/h/x.log")),
        "failed (詳細: /h/x.log)"
    );
}

#[test]
fn debug_log_path_sits_next_to_the_config_file() {
    let config = config_path(None, Some("/h")).expect("config");
    let log = debug_log_path(None, Some("/h")).expect("log");
    assert_eq!(
        config.rsplit_once('/').map(|parts| parts.0),
        log.rsplit_once('/').map(|parts| parts.0)
    );
    assert_eq!(
        log.rsplit_once('/').map(|parts| parts.1),
        Some("download-debug.log")
    );
}

#[test]
fn a_cleaned_name_stays_clean() {
    let once = sanitize_filename("../a\\b");
    assert_eq!(once, ".._a_b");
    assert_eq!(sanitize_filename(&once), once);
}
