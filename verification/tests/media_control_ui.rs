use vps_telegram_bot::media_control::callback::{parse_callback, CallbackRoute, DeleteCheck};
use vps_telegram_bot::media_control::errors::AppError;
use vps_telegram_bot::media_control::format::escape_html;
use vps_telegram_bot::media_control::keyboard::{
    back_to_main_keyboard, delete_confirmation_keyboard, file_selector_keyboard, main_menu_keyboard, Button,
};
use vps_telegram_bot::media_control::media::{FfmpegRunner, RtmpStreamer};
use vps_telegram_bot::media_control::pagination::Paginator;
use vps_telegram_bot::media_control::permissions::PermissionGuard;
use vps_telegram_bot::media_control::progress::ProgressBar;
use vps_telegram_bot::media_control::selector::{page_buttons_of, selector_header, shown_dir_of, PageEntry};
use vps_telegram_bot::media_control::state::{ActionType, AppState};
use vps_telegram_bot::media_control::storage::PathGuard;
use vps_telegram_bot::media_control::views::{file_info, MainMenu};

fn rows(k: &[Vec<Button>]) -> Vec<Vec<(String, String)>> {
    k.iter().map(|r| r.iter().map(|b| (b.text.clone(), b.data.clone())).collect()).collect()
}

fn pair(a: &str, b: &str) -> (String, String) {
    (a.to_string(), b.to_string())
}

fn state_with_files(dir: &str, names: &[&str]) -> AppState {
    let mut state = AppState::new(dir, 2);
    state.current_files = names.iter().map(|n| n.to_string()).collect();
    state
}

#[test]
fn callback_routes_are_parsed() {
    assert_eq!(parse_callback("menu_main").unwrap(), CallbackRoute::MainMenu);
    assert_eq!(parse_callback("cancel_delete").unwrap(), CallbackRoute::CancelDelete);
    assert_eq!(parse_callback("confirm_delete").unwrap(), CallbackRoute::ConfirmDelete);
    assert_eq!(parse_callback("init_concat").unwrap(), CallbackRoute::Init { action: ActionType::Concat });
    assert_eq!(
        parse_callback("menu_youtube_3").unwrap(),
        CallbackRoute::Menu { action: ActionType::Youtube, page: 3 }
    );
    assert_eq!(
        parse_callback("enterdir_browse_4").unwrap(),
        CallbackRoute::EnterDir { action: ActionType::Browse, idx: 4 }
    );
    assert_eq!(parse_callback("updir_delete").unwrap(), CallbackRoute::UpDir { action: ActionType::Delete });
    assert_eq!(
        parse_callback("toggle_convert_12_1").unwrap(),
        CallbackRoute::Toggle { action: ActionType::Convert, idx: 12, page: 1 }
    );
    assert_eq!(
        parse_callback("execsingle_stream_2").unwrap(),
        CallbackRoute::ExecSingle { action: ActionType::Stream, idx: 2 }
    );
    assert_eq!(parse_callback("execbatch_delete").unwrap(), CallbackRoute::ExecBatch { action: ActionType::Delete });
    assert_eq!(parse_callback("something_else").unwrap(), CallbackRoute::Unknown);
}

#[test]
fn callback_with_unknown_action_is_refused() {
    match parse_callback("init_bogus") {
        Err(AppError::InvalidArgument { message }) => assert_eq!(message, "Unknown action: bogus"),
        other => panic!("unexpected {:?}", other),
    }
    assert!(matches!(parse_callback("menu_youtube"), Ok(CallbackRoute::Ignored)));
}

#[test]
fn selector_buttons_route_back_to_their_entries() {
    let names = vec!["sub".to_string(), "a.mp4".to_string()];
    let entries = vec![
        PageEntry { is_dir: true, size_text: String::new() },
        PageEntry { is_dir: false, size_text: "1.00MB".to_string() },
    ];
    let chosen = vec!["/srv/a.mp4".to_string()];
    let multi = page_buttons_of("/srv", &names, &entries, 8, 1, ActionType::Convert, &chosen);
    assert_eq!(multi, vec![pair("📁 sub", "enterdir_convert_8"), pair("✅ [1.00MB] a.mp4", "toggle_convert_9_1")]);
    for (_, data) in &multi {
        let route = parse_callback(data).unwrap();
        assert!(matches!(
            route,
            CallbackRoute::EnterDir { idx: 8, .. } | CallbackRoute::Toggle { idx: 9, page: 1, .. }
        ));
    }
    let single = page_buttons_of("/srv", &names, &entries, 0, 0, ActionType::Stream, &[]);
    assert_eq!(single[1], pair("[1.00MB] a.mp4", "execsingle_stream_1"));
    let unchosen = page_buttons_of("/srv", &names, &entries, 0, 0, ActionType::Delete, &[]);
    assert_eq!(unchosen[1], pair("⬜️ [1.00MB] a.mp4", "toggle_delete_1_0"));
}

#[test]
fn main_menu_and_fixed_keyboards() {
    let k = rows(&main_menu_keyboard());
    assert_eq!(k.len(), 5);
    assert_eq!(k[1], vec![pair("📡 RTMP 单路推流", "init_stream"), pair("☁️ YouTube 上传", "init_youtube")]);
    assert_eq!(k[4], vec![pair("🗑️ 批量删除文件", "init_delete")]);
    assert_eq!(rows(&back_to_main_keyboard()), vec![vec![pair("🔙 返回主菜单", "menu_main")]]);
    let confirm = rows(&delete_confirmation_keyboard());
    assert!(confirm.iter().flatten().any(|(_, d)| d == "confirm_delete"));
    assert!(confirm.iter().flatten().any(|(_, d)| d == "cancel_delete"));
}

#[test]
fn file_selector_keyboard_layout() {
    let items = vec![pair("📁 sub", "enterdir_concat_0")];
    let k = rows(&file_selector_keyboard(&items, 1, 3, "concat", false, 2));
    assert_eq!(
        k,
        vec![
            vec![pair("📁 sub", "enterdir_concat_0")],
            vec![pair("⬅️ 上一页", "menu_concat_0"), pair("➡️ 下一页", "menu_concat_2")],
            vec![pair("⬆️ 返回上一级目录", "updir_concat")],
            vec![pair("▶️ 确认执行 (2 个文件)", "execbatch_concat")],
            vec![pair("🔙 返回主菜单", "menu_main")],
        ]
    );
    let at_base = rows(&file_selector_keyboard(&[], 0, 1, "browse", true, 0));
    assert_eq!(at_base, vec![vec![pair("🔙 返回主菜单", "menu_main")]]);
}

#[test]
fn selector_header_text() {
    assert_eq!(shown_dir_of("/srv/media/a/b", "/srv/media"), "🏠/a/b");
    assert_eq!(shown_dir_of("/srv/media", "/srv/media"), "🏠");
    assert_eq!(shown_dir_of("/etc", "/srv/media"), "🏠//etc");
    let header = selector_header("/srv/media/x", "/srv/media", ActionType::Concat, 1, 3, Some("merge"), 2, true);
    assert!(header.starts_with("📂 路径: <code>🏠/x</code>"));
    assert!(header.contains("(页 2/3)"));
    assert!(header.contains("🔒 独占任务: <code>merge</code>"));
    assert!(header.contains("YouTube 上传/排队: <code>2</code>"));
    assert!(header.ends_with("当前目录下既无子文件夹也无视频文件。"));
}

#[test]
fn paginator_ranges() {
    let p = Paginator::new(25, 8, 1);
    assert_eq!(p.range(), 8..16);
    assert!(p.has_prev());
    assert!(p.has_next());
    assert_eq!(Paginator::calc_total_pages(0, 8), 1);
    assert_eq!(Paginator::calc_total_pages(17, 8), 3);
}

#[test]
fn progress_bar_and_permissions() {
    let bar = ProgressBar::new(4);
    assert_eq!(bar.bar(0), "[░░░░]");
    assert_eq!(bar.bar(3), "[███░]");
    let guard = PermissionGuard::new(7);
    assert!(guard.check_message(Some(7)).is_ok());
    assert!(matches!(guard.check_message(Some(8)), Err(AppError::PermissionDenied { user_id: 8 })));
    assert!(guard.check_message(None).is_err());
}

#[test]
fn ffmpeg_arguments() {
    let runner = FfmpegRunner::new();
    assert_eq!(
        runner.concat_args("/tmp/list.txt", "/tmp/out.mp4"),
        vec!["-y", "-f", "concat", "-safe", "0", "-i", "/tmp/list.txt", "-c", "copy", "-movflags", "+faststart", "/tmp/out.mp4"]
    );
    assert_eq!(runner.remux_args("a.mp4", "a.ts"), vec!["-y", "-i", "a.mp4", "-c", "copy", "-f", "mpegts", "a.ts"]);
    let streamer = RtmpStreamer::new("rtmp://host/app".to_string());
    assert_eq!(
        streamer.build_args("v.mp4"),
        vec!["-re", "-i", "v.mp4", "-c", "copy", "-f", "flv", "rtmp://host/app"]
    );
}

#[test]
fn main_menu_text_and_stop_reply() {
    let (text, keyboard) = MainMenu::render("/srv", Some("merge"), 2);
    assert!(text.starts_with("=== 🎬 VPS 多媒体主控面板 ===\n根目录: `/srv`"));
    assert!(text.contains("\n🔒 当前独占任务: `merge`"));
    assert!(text.ends_with("\n☁️ YouTube 上传/排队: `2`"));
    assert_eq!(keyboard.len(), 5);
    let mut state = AppState::new("/srv", 2);
    let outcome = state.stop_command();
    assert_eq!(outcome.reply, "ℹ️ 当前没有正在运行的任务。");
    assert!(outcome.kill_pid.is_none());
    assert!(!state.cancel_flag);
}

#[test]
fn stop_command_cancels_running_work() {
    let mut state = AppState::new("/srv", 2);
    state.begin_exclusive("merge").unwrap();
    state.current_process_pid = Some(99);
    let outcome = state.stop_command();
    assert!(outcome.reply.starts_with("🛑 <b>已接收停止指令！</b>\n正在中断当前独占任务"));
    assert_eq!(outcome.kill_pid, Some(99));
    assert!(state.cancel_flag);
}

#[test]
fn exclusive_slot_refuses_a_second_task() {
    let mut state = AppState::new("/srv", 2);
    assert!(state.begin_exclusive("merge").is_ok());
    assert!(state.has_active_task());
    assert!(matches!(state.begin_exclusive("convert"), Err(AppError::TaskAlreadyRunning { task_name }) if task_name == "merge"));
    assert!(matches!(state.delete_precheck(), DeleteCheck::TaskRunning { task_name } if task_name == "merge"));
    state.finish_exclusive();
    assert!(!state.has_active_task());
    assert_eq!(state.delete_precheck(), DeleteCheck::Clear);
}

#[test]
fn uploads_are_counted_and_block_exclusive_work() {
    let mut state = AppState::new("/srv", 2);
    state.begin_upload("t1", "a.mp4", "/srv/a.mp4").unwrap();
    assert_eq!(state.active_youtube_count(), 1);
    assert!(matches!(state.begin_exclusive("merge"), Err(AppError::YoutubeUploadBlocking { count: 1 })));
    assert_eq!(state.delete_precheck(), DeleteCheck::UploadsRunning { count: 1 });
    state.mark_upload_finished("t1");
    state.cleanup_youtube_pool();
    assert_eq!(state.active_youtube_count(), 0);
}

#[test]
fn navigation_inside_the_base() {
    let guard = PathGuard::new("/srv");
    let mut state = state_with_files("/srv", &["sub", "a.mp4"]);
    assert_eq!(state.item_path(1).as_deref(), Some("/srv/a.mp4"));
    assert_eq!(state.item_path(2), None);
    assert_eq!(state.enter_dir(0, &ActionType::Browse, &guard, None, None).unwrap(), true);
    assert_eq!(state.current_dir, "/srv/sub");
    assert_eq!(state.enter_dir(5, &ActionType::Browse, &guard, None, None).unwrap(), false);
    state.go_up("/srv", &ActionType::Browse, &guard, None, None, None).unwrap();
    assert_eq!(state.current_dir, "/srv");
    let mut escaping = state_with_files("/srv", &["link"]);
    let refused = escaping.enter_dir(0, &ActionType::Browse, &guard, None, Some("/etc"));
    assert!(matches!(refused, Err(AppError::PathTraversal { path }) if path == "/etc"));
    assert_eq!(escaping.current_dir, "/srv");
}

#[test]
fn toggling_an_item_twice_restores_the_choice() {
    let guard = PathGuard::new("/srv");
    let mut state = state_with_files("/srv", &["a.mp4"]);
    state.toggle_item(0, &ActionType::Concat, &guard, None, None).unwrap();
    assert_eq!(state.selections_ref(&ActionType::Concat).unwrap(), &vec!["/srv/a.mp4".to_string()]);
    state.toggle_item(0, &ActionType::Concat, &guard, None, None).unwrap();
    assert!(state.selections_ref(&ActionType::Concat).map_or(true, |v| v.is_empty()));
    assert_eq!(state.single_target(0, &guard, None, None).unwrap().as_deref(), Some("/srv/a.mp4"));
}

#[test]
fn delete_confirmation_lists_the_files() {
    let mut state = AppState::new("/srv", 2);
    let text = state.delete_confirmation(vec!["/srv/a.mp4".to_string(), "/srv/b.mkv".to_string()]);
    assert!(text.starts_with("⚠️ **二次确认：即将永久删除以下文件**\n\n"));
    assert!(text.contains("• `a.mp4`\n• `b.mkv`"));
    assert!(text.ends_with("删除后不可恢复。"));
    assert_eq!(state.pending_delete_files.len(), 2);
}

#[test]
fn file_details_and_html_escaping() {
    let info = file_info("/srv/a.mp4", "1.00MB", "00:01:00", "2026-01-01 00:00:00");
    assert_eq!(info, "📄 a.mp4\n━━━━━━━━━━━━\n📏 大小: 1.00MB\n⏱️ 时长: 00:01:00\n🕒 修改时间: 2026-01-01 00:00:00");
    assert_eq!(escape_html("<a & b>"), "&lt;a &amp; b&gt;");
}

#[test]
fn refused_exclusive_claim_keeps_the_state() {
    let mut state = AppState::new("/srv", 2);
    state.begin_exclusive("merge").unwrap();
    state.current_dir = "/srv/sub".to_string();
    state.current_files = vec!["a.mp4".to_string()];
    state.current_process_pid = Some(7);
    state.cancel_flag = true;
    assert!(state.begin_exclusive("convert").is_err());
    assert_eq!(state.active_task_name(), Some("merge"));
    assert_eq!(state.current_dir, "/srv/sub");
    assert_eq!(state.current_files, vec!["a.mp4".to_string()]);
    assert_eq!(state.current_process_pid, Some(7));
    assert!(state.cancel_flag);
}
