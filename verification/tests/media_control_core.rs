use vps_telegram_bot::media_control::config::VideoExtensions;
use vps_telegram_bot::media_control::errors::AppError;
use vps_telegram_bot::media_control::format::{now_display, now_filename_safe};
use vps_telegram_bot::media_control::pagination::Paginator;
use vps_telegram_bot::media_control::permissions::PermissionGuard;
use vps_telegram_bot::media_control::state::ActionType;
use vps_telegram_bot::media_control::storage::DirListing;

#[test]
fn test_video_extensions_is_video() {
    assert!(VideoExtensions::is_video("video.mp4"));
    assert!(VideoExtensions::is_video("VIDEO.MKV"));
    assert!(VideoExtensions::is_video("stream.flv"));
    assert!(VideoExtensions::is_video("recording.ts"));
    assert!(!VideoExtensions::is_video("document.pdf"));
    assert!(!VideoExtensions::is_video("image.jpg"));
    assert!(!VideoExtensions::is_video("noextension"));
}

#[test]
fn test_is_admin() {
    let guard = PermissionGuard::new(12345);
    assert!(guard.is_admin(12345));
    assert!(!guard.is_admin(99999));
    assert!(!guard.is_admin(0));
}

#[test]
fn test_check_user_id_ok() {
    let guard = PermissionGuard::new(42);
    assert!(guard.check_user_id(42).is_ok());
}

#[test]
fn test_check_user_id_denied() {
    let guard = PermissionGuard::new(42);
    let result = guard.check_user_id(99);
    assert!(matches!(result, Err(AppError::PermissionDenied { user_id: 99 })));
}

#[test]
fn test_action_type_roundtrip() {
    for action in [
        ActionType::Browse,
        ActionType::Stream,
        ActionType::Youtube,
        ActionType::Concat,
        ActionType::Convert,
        ActionType::Delete,
    ] {
        let s = action.as_str();
        let parsed = ActionType::from_str(s).unwrap();
        assert_eq!(action, parsed);
    }
}

#[test]
fn test_action_type_multi_select() {
    assert!(!ActionType::Browse.is_multi_select());
    assert!(!ActionType::Stream.is_multi_select());
    assert!(ActionType::Youtube.is_multi_select());
    assert!(ActionType::Concat.is_multi_select());
    assert!(ActionType::Convert.is_multi_select());
    assert!(ActionType::Delete.is_multi_select());
}

#[test]
fn test_dir_listing_all_items() {
    let listing = DirListing {
        dirs: vec!["a_dir".to_string()],
        files: vec!["b_video.mp4".to_string()],
    };
    let all = listing.all_items();
    assert_eq!(all[0], "a_dir");
    assert_eq!(all[1], "b_video.mp4");
}

#[test]
fn test_paginator_basic() {
    let p = Paginator::new(25, 8, 0);
    assert_eq!(p.total_pages(), 4);
    assert_eq!(p.start_index(), 0);
    assert_eq!(p.end_index(), 8);
    assert!(!p.has_prev());
    assert!(p.has_next());
}

#[test]
fn test_paginator_last_page() {
    let p = Paginator::new(25, 8, 3);
    assert_eq!(p.start_index(), 24);
    assert_eq!(p.end_index(), 25);
    assert!(p.has_prev());
    assert!(!p.has_next());
}

#[test]
fn test_paginator_clamp() {
    let p = Paginator::new(10, 8, 999);
    assert_eq!(p.current_page, 1);
}

#[test]
fn test_paginator_empty() {
    let p = Paginator::new(0, 8, 0);
    assert_eq!(p.total_pages(), 1);
    assert_eq!(p.range(), 0..0);
}

#[test]
fn test_now_display_format() {
    let s = now_display();
    assert_eq!(s.len(), 19);
    assert_eq!(&s[4..5], "-");
    assert_eq!(&s[7..8], "-");
}

#[test]
fn test_now_filename_safe_format() {
    let s = now_filename_safe();
    assert_eq!(s.len(), 15);
    assert_eq!(&s[8..9], "_");
}

#[test]
fn pages_meet_and_cover_all_items() {
    for total in [0usize, 1, 7, 8, 9, 25] {
        let n = Paginator::new(total, 8, 0).total_pages();
        assert_eq!(Paginator::new(total, 8, 0).range().start, 0);
        assert_eq!(Paginator::new(total, 8, n - 1).range().end, total);
        for c in 0..n - 1 {
            let (a, b) = (Paginator::new(total, 8, c).range(), Paginator::new(total, 8, c + 1).range());
            assert_eq!(a.end, b.start);
            assert_eq!(a.len(), 8);
        }
        assert_eq!(Paginator::new(total, 8, n + 5).range(), Paginator::new(total, 8, n - 1).range());
    }
}
