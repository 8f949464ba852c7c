use std::collections::HashSet;

use vps_telegram_bot::media_control::selector::PageEntry;
use vps_telegram_bot::vpsupload::actions::{
    concat_done, concat_end, concat_refusal, vp_delete_confirmation, convert_end, convert_output, converting, delete_end, file_name_or_empty, plan_concat, stream_end,
};
use vps_telegram_bot::vpsupload::board::{queue_line_of, queue_title_of, stop_reply, TaskBoard, UploadRecord};
use vps_telegram_bot::vpsupload::config::{action_name_map, count_setting_or, seconds_setting_or, video_extensions_from, vp_config_from, vp_settings_from};
use vps_telegram_bot::vpsupload::media::{
    assert_path_inside_base, build_progress_bar, concat_list_text, smart_rename, unique_path, BaseCheckError,
};
use vps_telegram_bot::vpsupload::session::{is_callback_complete, parse_vp_callback, route_vp_press, UserSession, VpPress, VpRoute};
use vps_telegram_bot::vpsupload::sessions::SessionStore;
use vps_telegram_bot::vpsupload::transfer::{TransferAction, TransferEvent, TransferJob, TransferStage};
use vps_telegram_bot::vpsupload::ui::{
    build_main_menu, build_skin_selector_menu, vp_listing, vp_page_bounds, vp_selector_header, vp_selector_rows, VpEntry,
};
use vps_telegram_bot::vpsupload::upload::{
    access_token_from_json, progress_message, token_error, upload_description, upload_title, with_file, ChunkCursor,
};

fn taken_among(names: &'static [&'static str]) -> impl Fn(&str) -> bool {
    move |p: &str| names.contains(&p)
}

fn labels(k: &[Vec<vps_telegram_bot::media_control::keyboard::Button>]) -> Vec<Vec<(String, String)>> {
    k.iter().map(|r| r.iter().map(|b| (b.text.clone(), b.data.clone())).collect()).collect()
}

#[test]
fn settings_are_read_with_fallbacks() {
    assert_eq!(action_name_map("concat"), "合并");
    assert_eq!(action_name_map("bogus"), "未知操作");
    assert_eq!(video_extensions_from("MP4, .mkv,flv"), vec![".mp4", ".mkv", ".flv"]);
    assert_eq!(count_setting_or(Some("6"), 8), 6);
    assert_eq!(count_setting_or(Some("six"), 8), 8);
    assert_eq!(count_setting_or(None, 8), 8);
    assert_eq!(seconds_setting_or(Some("15"), 30), 15);
    assert_eq!(seconds_setting_or(Some("-1"), 30), 30);
}

#[test]
fn base_check_outcomes() {
    let ok = assert_path_inside_base("/srv/a.mp4", Ok("/srv"), true, Ok("/srv/a.mp4"), Err("unused"));
    assert_eq!(ok.unwrap(), "/srv/a.mp4");
    let fresh = assert_path_inside_base("/srv/new.mp4", Ok("/srv"), false, Err("missing"), Ok("/srv"));
    assert_eq!(fresh.unwrap(), "/srv/new.mp4");
    let outside = assert_path_inside_base("/srv/link", Ok("/srv"), true, Ok("/etc/passwd"), Err("unused"));
    assert_eq!(outside, Err(BaseCheckError::Outside("/etc/passwd".into())));
    assert_eq!(outside.unwrap_err().message(), None);
    let bad_base = assert_path_inside_base("/srv/a", Err("denied"), true, Ok("/srv/a"), Ok("/srv"));
    assert_eq!(bad_base.unwrap_err().message().unwrap(), "Base dir invalid: denied");
    let no_parent = assert_path_inside_base("/", Ok("/srv"), false, Err("x"), Ok("/"));
    assert_eq!(no_parent, Err(BaseCheckError::NoParent));
}

#[test]
fn free_names_and_renames() {
    assert_eq!(unique_path("/srv/a.mp4", &taken_among(&[])), "/srv/a.mp4");
    assert_eq!(unique_path("/srv/a.mp4", &taken_among(&["/srv/a.mp4", "/srv/a_1.mp4"])), "/srv/a_2.mp4");
    assert_eq!(smart_rename("/tmp/2024-01-02 10-11-12 标题.mp4"), "2024-01-02 10-11-12_标题.mp4");
    assert_eq!(smart_rename("/tmp/[2024-01-02] show.flv"), "2024-01-02_show.flv");
    assert!(smart_rename("/tmp/plain.mkv").starts_with("Merged_"));
    assert_eq!(
        concat_list_text(&["/a/it's.mp4".to_string()]),
        "file '/a/it'\\''s.mp4'\n"
    );
}

#[test]
fn progress_bar_themes() {
    assert_eq!(build_progress_bar(3, 10, 0, " 30.0"), "<code>▰▰▰▱▱▱▱▱▱▱</code> <b> 30.0%</b>");
    assert_eq!(build_progress_bar(5, 20, 1, " 50.0"), "<code>🟩🟩🟩🟩🟩⬜⬜⬜⬜⬜</code> <b> 50.0%</b>");
    assert_eq!(build_progress_bar(2, 4, 2, " 50.0"), "<code>━━──</code> <b> 50.0%</b>");
}

#[test]
fn callbacks_are_read() {
    assert!(is_callback_complete("toggle_concat_3_0"));
    assert!(!is_callback_complete("toggle_concat_3"));
    assert!(!is_callback_complete("menu_youtube"));
    assert!(matches!(parse_vp_callback("menu_main"), VpRoute::MainMenu));
    assert!(matches!(parse_vp_callback("init_convert"), VpRoute::Init { action } if action == "convert"));
    assert!(matches!(parse_vp_callback("menu_youtube_2"), VpRoute::Menu { action, page: 2 } if action == "youtube"));
    assert!(matches!(parse_vp_callback("toggle_concat_3_1"), VpRoute::Toggle { action, idx: 3, page: 1 } if action == "concat"));
    assert!(matches!(parse_vp_callback("execbatch_delete"), VpRoute::ExecBatch { action } if action == "delete"));
    assert!(matches!(parse_vp_callback("confirm_delete"), VpRoute::ConfirmDelete));
    assert!(matches!(parse_vp_callback("set_skin_1"), VpRoute::Ignored));
}

#[test]
fn session_navigation_and_choices() {
    let mut s = UserSession::new("/srv");
    s.current_files = vec!["sub".to_string(), "a.mp4".to_string(), "b.mp4".to_string()];
    s.toggle("concat", 2);
    s.toggle("concat", 1);
    s.toggle("youtube", 1);
    assert_eq!(s.batch_paths("concat"), vec!["/srv/a.mp4", "/srv/b.mp4"]);
    s.toggle("concat", 2);
    assert_eq!(s.batch_paths("concat"), vec!["/srv/a.mp4"]);
    assert!(s.selected_ref("youtube").contains(&1));
    assert_eq!(s.single_path(0).as_deref(), Some("/srv/sub"));
    s.enter_dir("concat", 0);
    assert_eq!(s.current_dir, "/srv/sub");
    assert!(s.selected_ref("concat").is_empty());
    assert!(s.selected_ref("youtube").contains(&1));
    s.up_dir("browse", "/srv");
    assert_eq!(s.current_dir, "/srv");
    s.up_dir("browse", "/srv");
    assert_eq!(s.current_dir, "/srv");
    s.clear_all_selected();
    assert!(s.selected_ref("youtube").is_empty());
}

#[test]
fn task_board_exclusive_and_stop() {
    let mut board = TaskBoard::new();
    assert!(board.start_exclusive_task("merge").is_ok());
    assert_eq!(board.start_exclusive_task("convert").unwrap_err(), "已有独占任务正在运行：merge");
    board.uploads.push(UploadRecord { key: "k".into(), filename: "a.mp4".into(), status: "上传中".into(), cancellable: true });
    let lines = board.stop_all_tasks();
    assert_eq!(lines, vec!["独占任务 [merge]", "上传任务 [a.mp4]"]);
    assert!(board.active.is_none());
    assert_eq!(board.uploads[0].status, "已手动终止");
    assert_eq!(stop_reply(&lines), "🛑 **已发送终止指令**:\n独占任务 [merge]\n上传任务 [a.mp4]");
    assert_eq!(stop_reply(&[]), "ℹ️ 当前没有在运行的任务。");
    assert_eq!(board.start_exclusive_task("x").unwrap_err(), "当前有 1 个 YouTube 上传任务，请等待完成或停用。");
    assert_eq!(queue_line_of(0, "a.mp4", "上传中", "12.5", "1m05s"), "1. `a.mp4` - 上传中 (12.5%) [耗时 1m05s]");
    assert_eq!(queue_title_of(2), "📤 **YouTube 上传队列 (2)**");
}

#[test]
fn menus_and_selector() {
    let (text, k) = build_main_menu("/srv", None, 0, 1);
    assert!(text.contains("<code>/srv</code>"));
    assert!(text.contains("🟩🟩⬜⬜ 彩色水果"));
    assert!(text.contains("空闲中 (随时就绪)"));
    assert_eq!(labels(&k)[3][0], ("🎨 切换进度条皮肤".to_string(), "menu_skin_settings".to_string()));
    let (_, skins) = build_skin_selector_menu();
    assert_eq!(labels(&skins)[2][0].1, "set_skin_2");
    let entries = vec![
        VpEntry { name: "b.MKV".into(), is_dir: false, is_file: true },
        VpEntry { name: "dir".into(), is_dir: true, is_file: false },
        VpEntry { name: "a.mp4".into(), is_dir: false, is_file: true },
        VpEntry { name: "n.txt".into(), is_dir: false, is_file: true },
    ];
    let listing = vp_listing(&entries, &[".mp4".to_string(), ".mkv".to_string()]);
    assert_eq!(listing.dirs, vec!["dir"]);
    assert_eq!(listing.files, vec!["a.mp4", "b.MKV"]);
    assert_eq!(vp_page_bounds(25, 8, 7), (3, 24, 25, 4));
    assert_eq!(vp_page_bounds(0, 8, 2), (0, 0, 0, 0));
    let mut chosen = HashSet::new();
    chosen.insert(9usize);
    let names = vec!["a.mp4".to_string()];
    let page = vec![PageEntry { is_dir: false, size_text: "2.00MB".into() }];
    let rows = labels(&vp_selector_rows("convert", &names, &page, 9, 1, 2, false, &chosen));
    assert_eq!(rows[0][0], ("✅ [2.00MB] a.mp4".to_string(), "toggle_convert_9_1".to_string()));
    assert_eq!(rows[1], vec![("⬅️ 上一页".to_string(), "menu_convert_0".to_string())]);
    assert_eq!(rows[2][0].1, "updir_convert");
    assert_eq!(rows[3][0], ("▶️ 确认执行 (选中 1 个文件)".to_string(), "execbatch_convert".to_string()));
    assert_eq!(vp_selector_header("/srv/x", "/srv", "concat", 0, 0), "📂 路径: <code>🏠/x</code>\n👉 模式: <b>[CONCAT]</b> (页 1/1)");
}

#[test]
fn vp_selector_buttons_read_back() {
    let mut chosen = HashSet::new();
    chosen.insert(4usize);
    let names = vec!["sub".to_string(), "a.mp4".to_string()];
    let page = vec![
        PageEntry { is_dir: true, size_text: "".into() },
        PageEntry { is_dir: false, size_text: "1.00MB".into() },
    ];
    let rows = labels(&vp_selector_rows("delete", &names, &page, 3, 1, 3, false, &chosen));
    for row in &rows {
        for (_, data) in row {
            assert!(is_callback_complete(data));
        }
    }
    assert!(matches!(parse_vp_callback(&rows[0][0].1), VpRoute::EnterDir { action, idx: 3 } if action == "delete"));
    assert!(matches!(parse_vp_callback(&rows[1][0].1), VpRoute::Toggle { action, idx: 4, page: 1 } if action == "delete"));
    assert!(matches!(parse_vp_callback(&rows[2][0].1), VpRoute::Menu { action, page: 0 } if action == "delete"));
    assert!(matches!(parse_vp_callback(&rows[2][1].1), VpRoute::Menu { action, page: 2 } if action == "delete"));
    assert!(matches!(parse_vp_callback(&rows[3][0].1), VpRoute::UpDir { action } if action == "delete"));
    assert!(matches!(parse_vp_callback(&rows[4][0].1), VpRoute::ExecBatch { action } if action == "delete"));
    assert!(matches!(parse_vp_callback(&rows[5][0].1), VpRoute::MainMenu));
    let single = labels(&vp_selector_rows("stream", &names[1..], &page[1..], 7, 0, 1, true, &HashSet::new()));
    assert!(matches!(parse_vp_callback(&single[0][0].1), VpRoute::ExecSingle { action, idx: 7 } if action == "stream"));
}

#[test]
fn upload_pieces() {
    assert_eq!(access_token_from_json(r#"{"access_token":"abc"}"#).unwrap(), "abc");
    assert_eq!(access_token_from_json(r#"{"token":"xyz"}"#).unwrap(), "xyz");
    assert_eq!(access_token_from_json(r#"{"other":1}"#).unwrap_err(), "token.json 中未找到 access_token 字段");
    assert!(access_token_from_json("not json").unwrap_err().starts_with("解析 token.json 失败: "));
    let long: String = "x".repeat(120);
    assert_eq!(upload_title(&long).chars().count(), 95);
    assert_eq!(upload_title("short"), "short");
    assert_eq!(upload_description("a.mp4"), "Uploaded by VPS Telegram Bot\nFile: a.mp4");
    let mut cursor = ChunkCursor::new(3 * 1024 * 1024 + 5, 1);
    let (len, range) = cursor.next_chunk().unwrap();
    assert_eq!((len, range.as_str()), (1024 * 1024, "bytes 0-1048575/3145733"));
    cursor.advance(3 * 1024 * 1024);
    let (len, range) = cursor.next_chunk().unwrap();
    assert_eq!((len, range.as_str()), (5, "bytes 3145728-3145732/3145733"));
    cursor.advance(5);
    assert!(cursor.next_chunk().is_none());
    assert_eq!(with_file("head\n", "a<b"), "head\n文件: <code>a&lt;b</code>");
    assert!(progress_message("a.mp4", "[bar]").ends_with("进度: [bar]"));
    assert_eq!(token_error("bad & worse"), "❌ 凭证错误: <code>bad &amp; worse</code>");
}

#[test]
fn action_messages() {
    assert_eq!(file_name_or_empty("/srv/a.mp4"), "a.mp4");
    assert_eq!(stream_end("a.mp4", true, false), "🛑 <b>推流任务已手动终止</b>:\n<code>a.mp4</code>");
    assert_eq!(concat_done("m.mp4"), "✅ <b>视频合并成功！</b>\n📁 新文件: <code>m.mp4</code>");
    assert!(converting(0, 2, "a.mkv").starts_with("🔄 <b>转换处理中</b> (1/2)\n<code>a.mkv</code>"));
    assert!(delete_end(3).contains('3'));
    assert!(convert_end(false, 1, 2).contains("1/2") || convert_end(false, 1, 2).contains('1'));
    assert_eq!(convert_output("/srv/a.mkv", &taken_among(&[])), "/srv/a.mp4");
    assert_eq!(convert_output("/srv/a.mkv", &taken_among(&["/srv/a.mp4"])), "/srv/a_1.mp4");
    let plan = plan_concat(&["/srv/r/a.mp4".to_string(), "/srv/r/b.mp4".to_string()], "5", &taken_among(&[]));
    assert_eq!(plan.work_dir, "/srv/r");
    assert_eq!(plan.list_file, "/srv/r/.concat_list_5.txt");
    assert!(plan.output_path.starts_with("/srv/r/"));
}

#[test]
fn sessions_are_kept_per_user() {
    let mut store = SessionStore::new();
    assert!(store.session(1).is_none());
    store.session_mut(1, "/srv").toggle("concat", 2);
    assert!(store.session(1).unwrap().selected_ref("concat").contains(&2));
    assert_eq!(store.session(1).unwrap().current_dir, "/srv");
    store.session_mut(1, "/ignored").progress_bar_theme = 1;
    assert_eq!(store.session(1).unwrap().current_dir, "/srv");
    assert_eq!(store.session(1).unwrap().progress_bar_theme, 1);
    let mut other = UserSession::new("/other");
    other.progress_bar_theme = 2;
    store.save_session(2, other);
    assert_eq!(store.session(2).unwrap().progress_bar_theme, 2);
    store.save_session(1, UserSession::new("/x"));
    assert_eq!(store.session(1).unwrap().current_dir, "/x");
    assert!(store.session(1).unwrap().selected_ref("concat").is_empty());
    assert_eq!(store.session(2).unwrap().current_dir, "/other");
    store.ensure_session(3, "/srv");
    assert_eq!(store.session(3).unwrap().current_dir, "/srv");
}

#[test]
fn transfer_sends_chunks_and_reports_the_video() {
    let mib = 1024 * 1024;
    let (mut job, first) = TransferJob::start("a<b>.mp4", mib + 10, 1);
    assert!(matches!(&first[..], [TransferAction::EditText(t)] if t == "⏳ <b>[YouTube] 队列排队中...</b>\n文件: <code>a&lt;b&gt;.mp4</code>"));
    let acts = job.step(TransferEvent::Admitted { cancelled: false });
    assert!(matches!(&acts[..], [TransferAction::SetStatus(s), TransferAction::ReadToken] if s == "初始化中"));
    let acts = job.step(TransferEvent::TokenFile { content: Ok(r#"{"token":"tok"}"#.to_string()) });
    assert!(matches!(&acts[1], TransferAction::OpenSession { token, title, category_id, privacy, size, .. }
        if token == "tok" && title == "a<b>.mp4" && category_id == "22" && privacy == "private" && *size == mib + 10));
    let acts = job.step(TransferEvent::SessionOpened { ok: true });
    assert!(acts.is_empty());
    assert!(matches!(job.stage, TransferStage::Checking));
    let acts = job.step(TransferEvent::CancelCheck { cancelled: false });
    assert!(matches!(&acts[..], [TransferAction::SendChunk { len, range }] if *len == mib && range == "bytes 0-1048575/1048586"));
    let acts = job.step(TransferEvent::ChunkSent { accepted_body: None });
    assert!(matches!(&acts[1], TransferAction::ShowProgress { sent, done: false, .. } if *sent == mib));
    let acts = job.step(TransferEvent::CancelCheck { cancelled: false });
    assert!(matches!(&acts[..], [TransferAction::SendChunk { len: 10, range }] if range == "bytes 1048576-1048585/1048586"));
    let acts = job.step(TransferEvent::ChunkSent { accepted_body: Some(r#"{"id":"vid42"}"#.to_string()) });
    assert!(matches!(&acts[2], TransferAction::EditText(t) if t.contains("https://youtu.be/vid42")));
    assert!(matches!(acts.last(), Some(TransferAction::Finish)));
    assert!(matches!(job.stage, TransferStage::Done));
}

#[test]
fn transfer_failures_end_with_a_message() {
    let (mut job, _) = TransferJob::start("a.mp4", 5, 1);
    job.step(TransferEvent::Admitted { cancelled: false });
    let acts = job.step(TransferEvent::TokenFile { content: Ok("{}".to_string()) });
    assert!(matches!(&acts[0], TransferAction::EditText(t) if t == "❌ 凭证错误: <code>token.json 中未找到 access_token 字段</code>"));
    let (mut job, _) = TransferJob::start("a.mp4", 5, 1);
    job.step(TransferEvent::Admitted { cancelled: false });
    job.step(TransferEvent::TokenFile { content: Ok(r#"{"access_token":"t"}"#.to_string()) });
    let acts = job.step(TransferEvent::SessionOpened { ok: false });
    assert!(matches!(&acts[0], TransferAction::EditPlain(t) if t.starts_with("❌ 初始化 YouTube 接口失败")));
    let (mut job, _) = TransferJob::start("a.mp4", 5, 1);
    job.step(TransferEvent::Admitted { cancelled: false });
    job.step(TransferEvent::TokenFile { content: Ok(r#"{"access_token":"t"}"#.to_string()) });
    job.step(TransferEvent::SessionOpened { ok: true });
    let acts = job.step(TransferEvent::CancelCheck { cancelled: true });
    assert!(matches!(&acts[0], TransferAction::EditText(t) if t.starts_with("🛑 <b>[YouTube] 上传被取消</b>")));
    let (mut job, _) = TransferJob::start("a.mp4", 5, 1);
    job.step(TransferEvent::Admitted { cancelled: false });
    job.step(TransferEvent::TokenFile { content: Ok(r#"{"access_token":"t"}"#.to_string()) });
    job.step(TransferEvent::SessionOpened { ok: true });
    job.step(TransferEvent::CancelCheck { cancelled: false });
    let acts = job.step(TransferEvent::ChunkSent { accepted_body: Some("not json".to_string()) });
    assert!(matches!(&acts[2], TransferAction::EditPlain(t) if t == "❌ 上传结束，未能正常捕获 YouTube 分发 ID 响应。"));
    let (mut quiet, _) = TransferJob::start("a.mp4", 5, 1);
    assert!(matches!(&quiet.step(TransferEvent::Admitted { cancelled: true })[..], [TransferAction::Finish]));
}

#[test]
fn merge_endings() {
    let stopped = concat_end("m.mp4", true, false, true);
    assert_eq!(stopped.message.as_deref(), Some("🛑 <b>视频合并任务已手动终止。</b>"));
    assert!(stopped.remove_output && !stopped.remove_list);
    let done = concat_end("m.mp4", false, true, false);
    assert_eq!(done.message.as_deref(), Some("✅ <b>视频合并成功！</b>\n📁 新文件: <code>m.mp4</code>"));
    assert!(!done.remove_output && done.remove_list);
    let failed = concat_end("m.mp4", false, false, false);
    assert!(failed.message.unwrap().starts_with("❌ <b>直连拼接处理失败。</b>"));
    let quiet = concat_end("m.mp4", false, false, true);
    assert!(quiet.message.is_none() && quiet.remove_output && quiet.remove_list);
}

#[test]
fn listing_keeps_whole_video_extensions() {
    let entries = vec![
        VpEntry { name: "a.mp4".into(), is_dir: false, is_file: true },
        VpEntry { name: "notes".into(), is_dir: false, is_file: true },
        VpEntry { name: "x.v".into(), is_dir: false, is_file: true },
        VpEntry { name: "b.MKV".into(), is_dir: false, is_file: true },
        VpEntry { name: "c.mp4.part".into(), is_dir: false, is_file: true },
    ];
    let exts = video_extensions_from(".mp4,.mkv,.flv,.ts");
    let listing = vp_listing(&entries, &exts);
    assert_eq!(listing.files, vec!["a.mp4", "b.MKV"]);
}

#[test]
fn presses_are_read() {
    assert!(matches!(route_vp_press(false, "menu_main"), VpPress::Ignored));
    assert!(matches!(route_vp_press(true, "menu_skin_settings"), VpPress::SkinMenu));
    assert!(matches!(route_vp_press(true, "set_skin_2"), VpPress::SetSkin { theme: 2 }));
    assert!(matches!(route_vp_press(true, "toggle_concat_3"), VpPress::Ignored));
    assert!(matches!(route_vp_press(true, "menu_main"), VpPress::Route(VpRoute::MainMenu)));
    assert!(matches!(route_vp_press(true, "set_skin_x"), VpPress::Route(VpRoute::Ignored)));
}

#[test]
fn settings_defaults() {
    let s = vp_settings_from(None, None, None, None, None, None, None, None, None);
    assert_eq!(s.base_dir, "/storage512/bilivego/download");
    assert_eq!(s.rtmp_url, "");
    assert_eq!(s.items_per_page, 8);
    assert_eq!(s.video_extensions, vec![".mp4", ".mkv", ".flv", ".ts"]);
    assert_eq!(s.ffprobe_timeout_seconds, 30);
    assert_eq!(s.token_file, "/root/video_bot/token.json");
    assert_eq!(s.youtube_max_concurrent_uploads, 2);
    assert_eq!(s.youtube_upload_chunk_mb, 10);
    assert_eq!(s.youtube_upload_queue_file, "youtube_upload_queue.json");
    let t = vp_settings_from(Some("/d"), Some("rtmp://x"), Some("5"), Some("MP4"), Some("bad"), None, Some("3"), None, None);
    assert_eq!((t.base_dir.as_str(), t.rtmp_url.as_str(), t.items_per_page), ("/d", "rtmp://x", 5));
    assert_eq!(t.video_extensions, vec![".mp4"]);
    assert_eq!((t.ffprobe_timeout_seconds, t.youtube_max_concurrent_uploads), (30, 3));
}

#[test]
fn config_needs_token_and_admin() {
    let none = [None; 9];
    let [a, b, c, d, e, f, g, h, i] = none;
    assert_eq!(vp_config_from(None, Some("7"), a, b, c, d, e, f, g, h, i).err().unwrap(), "缺少配置: BOT_TOKEN");
    assert_eq!(vp_config_from(Some("t"), None, a, b, c, d, e, f, g, h, i).err().unwrap(), "缺少配置: ADMIN_ID");
    assert_eq!(vp_config_from(Some("t"), Some("x7"), a, b, c, d, e, f, g, h, i).err().unwrap(), "ADMIN_ID 必须是整数");
    let cfg = vp_config_from(Some("t"), Some("7"), a, b, Some("abc"), Some("MP4, .Mkv,ts"), e, f, g, h, i).unwrap();
    assert_eq!((cfg.bot_token.as_str(), cfg.admin_id), ("t", 7));
    assert_eq!(cfg.settings.video_extensions, vec![".mp4", ".mkv", ".ts"]);
    assert_eq!(cfg.settings.items_per_page, 8);
    assert_eq!(cfg.settings.ffprobe_timeout_seconds, 30);
    assert_eq!(cfg.settings.token_file, "/root/video_bot/token.json");
    assert_eq!(cfg.settings.youtube_upload_queue_file, "youtube_upload_queue.json");
    assert_eq!(vp_config_from(Some("t"), Some("-12"), a, b, c, d, e, f, g, h, i).unwrap().admin_id, -12);
}

#[test]
fn merge_and_delete_texts() {
    assert_eq!(concat_refusal(1).unwrap(), "❌ 至少需要选择 2 个视频才能执行合并任务。");
    assert!(concat_refusal(2).is_none());
    let paths = vec!["/srv/a<b>.mp4".to_string(), "/srv/c.mp4".to_string()];
    assert_eq!(
        vp_delete_confirmation(&paths),
        "⚠️ <b>即将永久删除以下文件</b>\n\n• <code>a&lt;b&gt;.mp4</code>\n• <code>c.mp4</code>\n\n删除后不可恢复。"
    );
}
