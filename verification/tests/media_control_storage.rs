use std::path::Path;

use tempfile::{Builder, NamedTempFile, TempDir};
use vps_telegram_bot::media_control::config::{
    default_items_per_page, default_log_format, default_token_file, default_youtube_max_concurrent_uploads,
    default_youtube_upload_chunk_mb, Config,
};
use vps_telegram_bot::media_control::errors::AppError;
use vps_telegram_bot::media_control::format::{format_duration, format_elapsed_secs, smart_rename};
use vps_telegram_bot::media_control::state::{ActionType, AppState};
use vps_telegram_bot::media_control::youtube::{video_id_from, YoutubeUploader};
use vps_telegram_bot::media_control::storage::{
    concat_list_content, scan_directory, unique_path, EntryKind, PathGuard, ScannedEntry,
};

fn text(p: &Path) -> String {
    p.to_str().unwrap().to_string()
}

fn canonical(p: &Path) -> Option<String> {
    p.canonicalize().ok().map(|c| text(&c))
}

fn on_disk(p: &str) -> bool {
    Path::new(p).exists()
}

/// Seconds as the panel hands them to the formatter: whole seconds when positive.
fn known_secs(secs: f64) -> Option<u64> {
    if secs > 0.0 {
        Some(secs as u64)
    } else {
        None
    }
}

fn empty_file(dir: &Path, stem: &str, ext: &str) -> NamedTempFile {
    Builder::new().prefix(stem).suffix(ext).rand_bytes(0).tempfile_in(dir).unwrap()
}

#[test]
fn test_default_values() {
    assert_eq!(default_items_per_page(), 8);
    assert_eq!(default_youtube_max_concurrent_uploads(), 2);
    assert_eq!(default_youtube_upload_chunk_mb(), 10);
    assert_eq!(default_token_file(), "./token.json");
    assert_eq!(default_log_format(), "pretty");
}

#[test]
fn test_youtube_chunk_bytes() {
    let config = Config {
        bot_token: "token".into(),
        admin_id: 1,
        base_dir: "/tmp".into(),
        rtmp_url: String::new(),
        items_per_page: 8,
        token_file: "./token.json".into(),
        youtube_max_concurrent_uploads: 2,
        youtube_upload_chunk_mb: 10,
        log_format: "pretty".into(),
    };
    assert_eq!(config.youtube_chunk_bytes(), 10 * 1024 * 1024);
}

#[test]
fn test_initial_state() {
    let state = AppState::new("/tmp", 2);
    assert!(!state.has_active_task());
    assert_eq!(state.active_youtube_count(), 0);
    assert!(!state.cancel_flag);
}

#[test]
fn test_selections() {
    let mut state = AppState::new("/tmp", 2);
    let action = ActionType::Convert;
    let path = "/tmp/video.mp4";

    state.toggle_selection(&action, path);
    assert!(state.selections_ref(&action).unwrap().iter().any(|p| p == path));

    state.clear_selections(&action);
    assert!(state.selections_ref(&action).is_none());
}

#[test]
fn test_error_constructors() {
    let err = AppError::path_traversal("/etc/passwd");
    assert!(matches!(err, AppError::PathTraversal { .. }));

    let err = AppError::file_not_found("/nonexistent");
    assert!(matches!(err, AppError::FileNotFound { .. }));
}

#[test]
fn test_write_concat_list() {
    let files = vec!["/tmp/video1.mp4".to_string(), "/tmp/video's 2.mp4".to_string()];
    let content = concat_list_content(&files);
    assert!(content.contains("file '/tmp/video1.mp4'"));
    assert!(content.contains("file '/tmp/video\\'s 2.mp4'"));
}

#[test]
fn test_assert_inside_valid() {
    let tmp = TempDir::new().unwrap();
    let base = text(tmp.path());
    let guard = PathGuard::new(&base);
    let subdir = Builder::new().prefix("subdir").rand_bytes(0).tempdir_in(tmp.path()).unwrap();
    let sub = text(subdir.path());
    let result = guard.assert_inside(&sub, canonical(tmp.path()).as_deref(), canonical(subdir.path()).as_deref());
    assert!(result.is_ok());
}

#[test]
fn test_assert_inside_invalid() {
    let tmp = TempDir::new().unwrap();
    let guard = PathGuard::new(&text(tmp.path()));
    let outside = "/etc/passwd";
    let result = guard.assert_inside(outside, canonical(tmp.path()).as_deref(), canonical(Path::new(outside)).as_deref());
    assert!(result.is_err());
}

#[test]
fn test_unique_path_no_conflict() {
    let tmp = TempDir::new().unwrap();
    let path = text(&tmp.path().join("video.mp4"));
    assert_eq!(unique_path(&path, &on_disk), path);
}

#[test]
fn test_unique_path_with_conflict() {
    let tmp = TempDir::new().unwrap();
    let path = text(&tmp.path().join("video.mp4"));
    let _taken = empty_file(tmp.path(), "video", ".mp4");
    let unique = unique_path(&path, &on_disk);
    assert_eq!(unique, text(&tmp.path().join("video_1.mp4")));
    assert_ne!(unique, path);
}

#[test]
fn test_unique_path_multiple_conflicts() {
    let tmp = TempDir::new().unwrap();
    let path = text(&tmp.path().join("video.mp4"));
    let _first = empty_file(tmp.path(), "video", ".mp4");
    let _second = empty_file(tmp.path(), "video_1", ".mp4");
    let unique = unique_path(&path, &on_disk);
    assert_eq!(unique, text(&tmp.path().join("video_2.mp4")));
}

#[test]
fn test_scan_directory() {
    let base = "/srv/media";
    let guard = PathGuard::new(base);
    let entry = |name: &str, kind: EntryKind| ScannedEntry { name: Some(name.to_string()), kind, resolved: None };
    let entries = vec![
        entry("video.mp4", EntryKind::File),
        entry("subdir", EntryKind::Dir),
        entry("document.pdf", EntryKind::File),
        entry("video.mkv", EntryKind::File),
    ];
    let listing = scan_directory(base, true, entries, &guard, None).unwrap();
    assert_eq!(listing.dirs, vec!["subdir"]);
    assert_eq!(listing.files, vec!["video.mkv", "video.mp4"]);
    assert_eq!(listing.total(), 3);
}

#[test]
fn test_scan_directory_skips_outside_and_missing_dir() {
    let guard = PathGuard::new("/srv/media");
    let entries = vec![
        ScannedEntry { name: Some("escape.mp4".into()), kind: EntryKind::File, resolved: Some("/etc/escape.mp4".into()) },
        ScannedEntry { name: None, kind: EntryKind::File, resolved: None },
        ScannedEntry { name: Some("clip.ts".into()), kind: EntryKind::File, resolved: None },
    ];
    let listing = scan_directory("/srv/media", true, entries, &guard, None).unwrap();
    assert!(listing.dirs.is_empty());
    assert_eq!(listing.files, vec!["clip.ts"]);
    let missing = scan_directory("/srv/media/gone", false, Vec::new(), &guard, None);
    assert!(matches!(missing, Err(AppError::DirectoryNotFound { path }) if path == "/srv/media/gone"));
}

#[test]
fn test_format_duration() {
    assert_eq!(format_duration(known_secs(0.0)), "未知");
    assert_eq!(format_duration(known_secs(-1.0)), "未知");
    assert_eq!(format_duration(known_secs(3661.0)), "01:01:01");
    assert_eq!(format_duration(known_secs(3600.0)), "01:00:00");
    assert_eq!(format_duration(known_secs(59.0)), "00:00:59");
}

#[test]
fn test_format_elapsed() {
    assert_eq!(format_elapsed_secs(45), "45s");
    assert_eq!(format_elapsed_secs(65), "1m05s");
    assert_eq!(format_elapsed_secs(3661), "1h01m01s");
    assert_eq!(format_elapsed_secs(0), "0s");
}

#[test]
fn test_smart_rename_with_date() {
    let result = smart_rename("/tmp/[2026-06-07 20-00-00] 直播录像.mp4");
    assert!(result.contains("2026"));
    assert!(!result.contains("__"));
}

#[test]
fn test_smart_rename_no_date() {
    let result = smart_rename("/tmp/random_video.mkv");
    assert!(result.contains("Merged_") || result.contains("random"));
}

#[test]
fn uploader_metadata() {
    let uploader = YoutubeUploader::new("./token.json".to_string(), 10 * 1024 * 1024);
    assert_eq!(uploader.token_file(), "./token.json");
    assert_eq!(uploader.chunk_size(), 10 * 1024 * 1024);
    let long: String = "標".repeat(120);
    let request = uploader.video_request(&long);
    assert_eq!(request.title.chars().count(), 95);
    assert_eq!(request.category_id, "22");
    assert_eq!(request.privacy_status, "private");
    assert!(request.description.is_empty());
    assert!(!request.made_for_kids);
    assert_eq!(uploader.video_request("clip").title, "clip");
}

#[test]
fn climbing_out_with_parent_markers_is_refused() {
    let guard = PathGuard::new("/srv/media");
    let err = guard.assert_inside("/srv/media/../../etc/newfile.mp4", None, None).unwrap_err();
    assert!(matches!(err, AppError::PathTraversal { path } if path == "/srv/media/../../etc/newfile.mp4"));
    assert!(guard.assert_inside("/srv/media/a/../b.mp4", None, None).is_ok());
    assert!(guard.assert_inside("/srv/media/./a/../../media/c.mp4", None, None).is_ok());
    assert!(guard.assert_inside("/srv/media/..", None, None).is_err());
    assert!(guard.safe_join("/srv/media", "../x", None, None).is_err());
}

#[test]
fn merged_name_has_no_underscore_runs() {
    assert_eq!(smart_rename("/tmp/2026-06-07_a___b.mp4"), "2026-06-07_a_b.mp4");
    assert_eq!(smart_rename("/tmp/2026-06-07____x.mp4"), "2026-06-07_x.mp4");
}

#[test]
fn test_error_display() {
    let err = AppError::PermissionDenied { user_id: 42 };
    assert!(err.message().contains("42"));

    let err = AppError::PathTraversal { path: "/etc/passwd".to_string() };
    assert!(err.message().contains("PATH_TRAVERSAL") || err.message().contains("outside"));

    let err = AppError::ConcatInsufficientFiles { count: 1 };
    assert!(err.message().contains('1'));
}

#[test]
fn error_messages_are_exact() {
    assert_eq!(
        AppError::PathTraversal { path: "/etc/pa\"ss".to_string() }.message(),
        "Path traversal detected: \"/etc/pa\\\"ss\" is outside BASE_DIR"
    );
    assert_eq!(AppError::FfmpegFailed { exit_code: -1, stderr: "x".into() }.message(), "FFmpeg failed with exit code -1: x");
    assert_eq!(
        AppError::MergeValidationFailed { duration_ratio_permille: 950, size_ratio_permille: 1005 }.message(),
        "Merge validation failed: duration ratio=0.950, size ratio=1.005"
    );
    assert_eq!(AppError::Cancelled.message(), "Operation cancelled by user");
}

#[test]
fn upload_answer_without_id_fails() {
    assert_eq!(video_id_from(Some("abc".to_string())).unwrap(), "abc");
    assert!(matches!(video_id_from(None), Err(AppError::YoutubeApiError { message }) if message == "YouTube API returned no video ID"));
}
