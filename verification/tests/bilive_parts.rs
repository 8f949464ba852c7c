use vps_telegram_bot::bilive::{
    added_reply, api_base_url, api_url, build_detail_keyboard, build_main_keyboard, control_path, is_admin, live_path,
    parse_admin_ids, polling_interval, route_callback, route_message, BiliCallback, LiveTask, MessageRoute,
    RecordingTracker,
};

fn task(id: &str, host: Option<&str>, room: Option<&str>, recording: bool, listening: bool) -> LiveTask {
    LiveTask {
        id: id.to_string(),
        url: Some(format!("https://live.example/{id}")),
        live_url: None,
        host_name: host.map(|s| s.to_string()),
        room_name: room.map(|s| s.to_string()),
        recording,
        listening,
    }
}

#[test]
fn settings() {
    assert_eq!(api_base_url(None), "http://127.0.0.1:9000/api");
    assert_eq!(api_base_url(Some("http://h/api")), "http://h/api");
    assert_eq!(parse_admin_ids(" 1, x,-3,,42 "), vec![1, -3, 42]);
    assert!(parse_admin_ids("").is_empty());
    assert_eq!(polling_interval(Some("10")), 10);
    assert_eq!(polling_interval(Some("ten")), 30);
    assert_eq!(polling_interval(None), 30);
    assert!(is_admin(&[1, 42], 42));
    assert!(!is_admin(&[1, 42], 7));
}

#[test]
fn api_addresses() {
    assert_eq!(api_url("http://h/api", &live_path("abc")), "http://h/api/lives/abc");
    assert_eq!(control_path("start", "abc"), "/lives/abc/start");
}

#[test]
fn main_list_keyboard() {
    let lives = vec![
        task("a", Some("主播A"), Some("一个非常非常长的直播间标题名字"), true, false),
        task("b", None, None, false, true),
        task("c", Some("C"), Some("短"), false, false),
    ];
    let k = build_main_keyboard(&lives);
    assert_eq!(k.len(), 4);
    assert_eq!(k[0][0].text, "🔴 主播A | 一个非常非常长的直播间标...");
    assert_eq!(k[0][0].data, "view_a");
    assert_eq!(k[1][0].text, "🟢 未知主播 | 无标题");
    assert_eq!(k[2][0].text, "⚪ C | 短");
    assert_eq!((k[3][0].text.as_str(), k[3][0].data.as_str()), ("🔄 刷新状态", "refresh_main"));
}

#[test]
fn detail_view() {
    let lives = vec![task("a", Some("A"), Some("Room"), false, true)];
    let (text, k) = build_detail_keyboard(&lives, "a");
    assert_eq!(text, "👤 **主播**: A\n📺 **房间**: Room\n📊 **当前状态**: 🟢 正在监听\n🔗 **链接**: https://live.example/a");
    let k = k.unwrap();
    assert_eq!(k[0][0].data, "op_start_a");
    assert_eq!(k[0][1].data, "op_stop_a");
    assert_eq!(k[1][0].data, "conf_del_a");
    assert_eq!(k[1][1].data, "refresh_main");
    let (gone, none) = build_detail_keyboard(&lives, "zzz");
    assert_eq!(gone, "⚠️ 该任务已不存在。");
    assert!(none.is_none());
}

#[test]
fn message_and_callback_routes() {
    assert_eq!(route_message("  /start "), MessageRoute::Start);
    assert_eq!(route_message(" https://live.example/1 "), MessageRoute::AddLive("https://live.example/1".into()));
    assert_eq!(route_message("hello"), MessageRoute::Invalid);
    assert_eq!(added_reply("u"), "✅ 任务添加成功！\nURL: u");
    assert_eq!(route_callback("refresh_main"), BiliCallback::Refresh);
    assert_eq!(route_callback("view_abc"), BiliCallback::View("abc".into()));
    assert_eq!(route_callback("view_view_x"), BiliCallback::View("x".into()));
    assert_eq!(
        route_callback("op_start_abc"),
        BiliCallback::Control { action: "start".into(), live_id: "abc".into() }
    );
    assert_eq!(route_callback("op_start_a_b"), BiliCallback::Ignored);
    assert_eq!(route_callback("conf_del_abc"), BiliCallback::Delete("abc".into()));
    assert_eq!(route_callback("other"), BiliCallback::Ignored);
}

#[test]
fn alert_only_when_recording_starts() {
    let mut tracker = RecordingTracker::new();
    let idle = vec![task("a", Some("A"), Some("R"), false, true)];
    assert!(tracker.observe(&idle).is_empty());
    assert!(!tracker.was_recording("a"));
    let live = vec![task("a", Some("A"), Some("R"), true, true)];
    let alerts = tracker.observe(&live);
    assert_eq!(
        alerts,
        vec!["🚨 **开播提醒**\n\n👤 **主播**: A\n🎬 **正在录制**: R\n🔗 [点击进入直播间](https://live.example/a)"]
    );
    assert!(tracker.was_recording("a"));
    assert!(tracker.observe(&live).is_empty());
    assert!(tracker.observe(&idle).is_empty());
    assert_eq!(tracker.observe(&live).len(), 1);
}
