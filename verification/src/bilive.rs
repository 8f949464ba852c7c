//! The recorder control bot: its settings, the task list and detail views, the routing of
//! messages and callbacks, and the start-of-recording alerts.
use vstd::prelude::*;
use crate::media_control::keyboard::{button, keyboard_view, Button};
use crate::paths::join_with;
use crate::text::{chars_eq, chars_of, contains, contains_chars, has_prefix, parse_signed, parse_signed_chars, parse_unsigned, parse_unsigned_chars, push_chars, push_str, split_chars, split_on, starts_with, str_eq, string_of, trim, trim_chars};

verus! {

// ── settings ────────────────────────────────────────────────────────────────

/// The API address unless configured.
pub open spec fn default_api_base() -> Seq<char> {
    "http://127.0.0.1:9000/api"@
}

/// The API address: the configured one, or the default.
pub fn api_base_url(value: Option<&str>) -> (r: String)
    ensures
        r@ == match value { Some(v) => v@, None => default_api_base() },
{
    match value {
        Some(v) => v.to_owned(),
        None => "http://127.0.0.1:9000/api".to_owned(),
    }
}

/// The administrators listed, comma-separated: each piece trimmed, pieces that are not
/// `i64` integers skipped.
pub open spec fn admin_ids_from(pieces: Seq<Seq<char>>) -> Seq<i64>
    decreases pieces.len(),
{
    if pieces.len() == 0 {
        Seq::empty()
    } else {
        let rest = admin_ids_from(pieces.drop_last());
        match parse_signed(trim(pieces.last())) {
            Some(v) => if i64::MIN <= v <= i64::MAX { rest.push(v as i64) } else { rest },
            None => rest,
        }
    }
}

/// Reads the administrators from their setting (empty when unset).
pub fn parse_admin_ids(raw: &str) -> (r: Vec<i64>)
    ensures
        r@ == admin_ids_from(split_on(raw@, ',')),
{
    let pieces = split_chars(chars_of(raw).as_slice(), ',');
    let ghost ps = split_on(raw@, ',');
    let mut out: Vec<i64> = Vec::new();
    let mut i: usize = 0;
    while i < pieces.len()
        invariant
            i <= pieces@.len(),
            pieces@.len() == ps.len(),
            ps == split_on(raw@, ','),
            forall|k: int| 0 <= k < pieces@.len() ==> #[trigger] pieces@[k]@ == ps[k],
            out@ == admin_ids_from(ps.take(i as int)),
        decreases pieces@.len() - i,
    {
        assert(ps.take(i + 1).drop_last() =~= ps.take(i as int));
        assert(ps.take(i + 1).last() == pieces@[i as int]@);
        let t = trim_chars(pieces[i].as_slice());
        match parse_signed_chars(t.as_slice(), i64::MAX as u64) {
            Some(v) => out.push(v),
            None => {},
        }
        i = i + 1;
    }
    assert(ps.take(pieces@.len() as int) =~= ps);
    out
}

/// The polling interval in seconds: the setting when it is a `u64`, else 30.
pub open spec fn polling_seconds(value: Option<Seq<char>>) -> nat {
    match value {
        Some(v) => match parse_unsigned(v) {
            Some(n) => if n <= u64::MAX { n as nat } else { 30 },
            None => 30,
        },
        None => 30,
    }
}

/// Reads the polling interval.
pub fn polling_interval(value: Option<&str>) -> (r: u64)
    ensures
        r == polling_seconds(match value { Some(v) => Some(v@), None => None }),
{
    match value {
        Some(v) => match parse_unsigned_chars(chars_of(v).as_slice(), u64::MAX) {
            Some(n) => n,
            None => 30,
        },
        None => 30,
    }
}

/// Whether `user_id` is an administrator.
pub fn is_admin(admin_ids: &[i64], user_id: i64) -> (r: bool)
    ensures
        r == admin_ids@.contains(user_id),
{
    let mut i: usize = 0;
    while i < admin_ids.len()
        invariant
            i <= admin_ids@.len(),
            forall|k: int| 0 <= k < i ==> admin_ids@[k] != user_id,
        decreases admin_ids@.len() - i,
    {
        if admin_ids[i] == user_id {
            assert(admin_ids@[i as int] == user_id);
            return true;
        }
        i = i + 1;
    }
    false
}

// ── the API ─────────────────────────────────────────────────────────────────

/// An address of the recorder's API: the base followed by the path.
pub fn api_url(base: &str, path: &str) -> (r: String)
    ensures
        r@ == base@ + path@,
{
    let mut out: Vec<char> = Vec::new();
    push_str(&mut out, base);
    push_str(&mut out, path);
    string_of(out.as_slice())
}

/// The path of one task: `/lives/{id}`.
pub fn live_path(live_id: &str) -> (r: String)
    ensures
        r@ == "/lives/"@ + live_id@,
{
    let mut out: Vec<char> = Vec::new();
    push_str(&mut out, "/lives/");
    push_str(&mut out, live_id);
    string_of(out.as_slice())
}

/// The path of an action on a task: `/lives/{id}/{action}`.
pub fn control_path(action: &str, live_id: &str) -> (r: String)
    ensures
        r@ == "/lives/"@ + live_id@ + seq!['/'] + action@,
{
    let mut out: Vec<char> = Vec::new();
    push_str(&mut out, "/lives/");
    push_str(&mut out, live_id);
    out.push('/');
    push_str(&mut out, action);
    string_of(out.as_slice())
}

// ── views ───────────────────────────────────────────────────────────────────

/// A recording task as the API reports it.
#[derive(Debug, Clone)]
pub struct LiveTask {
    pub id: String,
    pub url: Option<String>,
    pub live_url: Option<String>,
    pub host_name: Option<String>,
    pub room_name: Option<String>,
    pub recording: bool,
    pub listening: bool,
}

/// An optional text, or `fallback`.
pub open spec fn text_or(v: Option<String>, fallback: Seq<char>) -> Seq<char> {
    match v {
        Some(s) => s@,
        None => fallback,
    }
}

/// A room name cut to twelve characters, with `...` when cut.
pub open spec fn short_room(room: Seq<char>) -> Seq<char> {
    if room.len() > 12 { room.take(12) + "..."@ } else { room }
}

/// A task's status mark: recording, listening, or stopped.
pub open spec fn status_icon(t: LiveTask) -> Seq<char> {
    if t.recording { "🔴"@ } else if t.listening { "🟢"@ } else { "⚪"@ }
}

/// A task's button in the main list.
pub open spec fn task_button(t: LiveTask) -> (Seq<char>, Seq<char>) {
    (status_icon(t) + seq![' '] + text_or(t.host_name, "未知主播"@) + " | "@ + short_room(text_or(t.room_name, "无标题"@)),
        "view_"@ + t.id@)
}

/// The main list: one row per task and a refresh row.
pub open spec fn main_rows(lives: Seq<LiveTask>) -> Seq<Seq<(Seq<char>, Seq<char>)>> {
    Seq::new(lives.len(), |i: int| seq![task_button(lives[i])]) + seq![seq![("🔄 刷新状态"@, "refresh_main"@)]]
}

fn opt_or(v: &Option<String>, fallback: &str) -> (r: String)
    ensures
        r@ == text_or(*v, fallback@),
{
    match v {
        Some(s) => s.clone(),
        None => fallback.to_owned(),
    }
}

/// Builds the main list's keyboard for the tasks.
pub fn build_main_keyboard(lives: &[LiveTask]) -> (r: Vec<Vec<Button>>)
    ensures
        keyboard_view(r@) == main_rows(lives@),
{
    let ghost want = Seq::new(lives@.len(), |i: int| seq![task_button(lives@[i])]);
    let mut rows: Vec<Vec<Button>> = Vec::new();
    let mut i: usize = 0;
    while i < lives.len()
        invariant
            i <= lives@.len(),
            want == Seq::new(lives@.len(), |i: int| seq![task_button(lives@[i])]),
            keyboard_view(rows@) == want.take(i as int),
        decreases lives@.len() - i,
    {
        let t = &lives[i];
        let mut label: Vec<char> = Vec::new();
        if t.recording {
            push_str(&mut label, "🔴");
        } else if t.listening {
            push_str(&mut label, "🟢");
        } else {
            push_str(&mut label, "⚪");
        }
        label.push(' ');
        push_str(&mut label, opt_or(&t.host_name, "未知主播").as_str());
        push_str(&mut label, " | ");
        let room = chars_of(opt_or(&t.room_name, "无标题").as_str());
        if room.len() > 12 {
            push_chars(&mut label, &room.as_slice()[0..12]);
            push_str(&mut label, "...");
            assert(room@.subrange(0, 12) =~= room@.take(12));
        } else {
            push_chars(&mut label, room.as_slice());
        }
        let mut data: Vec<char> = Vec::new();
        push_str(&mut data, "view_");
        push_str(&mut data, t.id.as_str());
        let b = Button { text: string_of(label.as_slice()), data: string_of(data.as_slice()) };
        assert((b.text@, b.data@) == task_button(lives@[i as int]));
        let ghost before = keyboard_view(rows@);
        rows.push(vec![b]);
        assert(keyboard_view(rows@) =~~= before.push(seq![(b.text@, b.data@)]));
        assert(keyboard_view(rows@) =~= want.take(i + 1));
        i = i + 1;
    }
    assert(want.take(lives@.len() as int) =~= want);
    let ghost before = keyboard_view(rows@);
    rows.push(vec![button("🔄 刷新状态", "refresh_main")]);
    assert(keyboard_view(rows@) =~~= before + seq![seq![("🔄 刷新状态"@, "refresh_main"@)]]);
    rows
}

/// The first task with id `id`.
pub open spec fn find_task(lives: Seq<LiveTask>, id: Seq<char>) -> Option<LiveTask>
    decreases lives.len(),
{
    if lives.len() == 0 {
        None
    } else if lives[0].id@ == id {
        Some(lives[0])
    } else {
        find_task(lives.drop_first(), id)
    }
}

/// A task's status in words.
pub open spec fn status_desc(t: LiveTask) -> Seq<char> {
    if t.recording { "🔴 录制中"@ } else if t.listening { "🟢 正在监听"@ } else { "⚪ 停止中"@ }
}

/// A task's address: its live address, else its address, else nothing.
pub open spec fn task_url(t: LiveTask) -> Seq<char> {
    match t.live_url {
        Some(u) => u@,
        None => text_or(t.url, Seq::empty()),
    }
}

/// A task's details.
pub open spec fn detail_text(t: LiveTask) -> Seq<char> {
    "👤 **主播**: "@ + text_or(t.host_name, "未知"@) + "\n📺 **房间**: "@ + text_or(t.room_name, "无标题"@)
        + "\n📊 **当前状态**: "@ + status_desc(t) + "\n🔗 **链接**: "@ + task_url(t)
}

/// A task's controls.
pub open spec fn detail_rows(id: Seq<char>) -> Seq<Seq<(Seq<char>, Seq<char>)>> {
    seq![
        seq![("▶️ 开启监听"@, "op_start_"@ + id), ("⏹️ 停止录制"@, "op_stop_"@ + id)],
        seq![("🗑️ 删除任务"@, "conf_del_"@ + id), ("🔙 返回主列表"@, "refresh_main"@)],
    ]
}

fn prefixed(p: &str, s: &str) -> (r: String)
    ensures
        r@ == p@ + s@,
{
    let mut out: Vec<char> = Vec::new();
    push_str(&mut out, p);
    push_str(&mut out, s);
    string_of(out.as_slice())
}

/// The detail view of task `live_id`: its text and controls, or a note that it is gone.
pub fn build_detail_keyboard(lives: &[LiveTask], live_id: &str) -> (r: (String, Option<Vec<Vec<Button>>>))
    ensures
        find_task(lives@, live_id@) is None ==> r.0@ == "⚠️ 该任务已不存在。"@ && r.1 is None,
        find_task(lives@, live_id@) matches Some(t) ==> r.0@ == detail_text(t) && (r.1 matches Some(k)
            && keyboard_view(k@) == detail_rows(live_id@)),
{
    let mut i: usize = 0;
    assert(lives@.skip(0) =~= lives@);
    while i < lives.len()
        invariant
            i <= lives@.len(),
            find_task(lives@, live_id@) == find_task(lives@.skip(i as int), live_id@),
        decreases lives@.len() - i,
    {
        assert(lives@.skip(i as int).drop_first() =~= lives@.skip(i + 1));
        if str_eq(lives[i].id.as_str(), live_id) {
            let t = &lives[i];
            let mut out: Vec<char> = Vec::new();
            push_str(&mut out, "👤 **主播**: ");
            push_str(&mut out, opt_or(&t.host_name, "未知").as_str());
            push_str(&mut out, "\n📺 **房间**: ");
            push_str(&mut out, opt_or(&t.room_name, "无标题").as_str());
            push_str(&mut out, "\n📊 **当前状态**: ");
            if t.recording {
                push_str(&mut out, "🔴 录制中");
            } else if t.listening {
                push_str(&mut out, "🟢 正在监听");
            } else {
                push_str(&mut out, "⚪ 停止中");
            }
            push_str(&mut out, "\n🔗 **链接**: ");
            match &t.live_url {
                Some(u) => push_str(&mut out, u.as_str()),
                None => match &t.url {
                    Some(u) => push_str(&mut out, u.as_str()),
                    None => {},
                },
            }
            assert(out@ =~= detail_text(lives@[i as int]));
            let k = vec![
                vec![
                    Button { text: "▶️ 开启监听".to_owned(), data: prefixed("op_start_", live_id) },
                    Button { text: "⏹️ 停止录制".to_owned(), data: prefixed("op_stop_", live_id) },
                ],
                vec![
                    Button { text: "🗑️ 删除任务".to_owned(), data: prefixed("conf_del_", live_id) },
                    button("🔙 返回主列表", "refresh_main"),
                ],
            ];
            assert(keyboard_view(k@) =~~= detail_rows(live_id@));
            return (string_of(out.as_slice()), Some(k));
        }
        i = i + 1;
    }
    ("⚠️ 该任务已不存在。".to_owned(), None)
}

// ── routing ─────────────────────────────────────────────────────────────────

/// What a text message asks for.
#[derive(Debug, PartialEq, Eq)]
pub enum MessageRoute {
    /// `/start`: show the list.
    Start,
    /// Add the (trimmed) text as a room address.
    AddLive(String),
    /// Anything else.
    Invalid,
}

/// The route of a text message, after trimming: `/start`, a text containing `http`, or
/// anything else.
pub fn route_message(text: &str) -> (r: MessageRoute)
    ensures
        trim(text@) == "/start"@ ==> r == MessageRoute::Start,
        trim(text@) != "/start"@ && contains(trim(text@), "http"@) ==> (r matches MessageRoute::AddLive(u) && u@ == trim(text@)),
        trim(text@) != "/start"@ && !contains(trim(text@), "http"@) ==> r == MessageRoute::Invalid,
{
    let t = trim_chars(chars_of(text).as_slice());
    if chars_eq(t.as_slice(), chars_of("/start").as_slice()) {
        MessageRoute::Start
    } else if contains_chars(t.as_slice(), chars_of("http").as_slice()) {
        MessageRoute::AddLive(string_of(t.as_slice()))
    } else {
        MessageRoute::Invalid
    }
}

/// The reply once a room was added.
pub open spec fn added_text(url: Seq<char>) -> Seq<char> {
    "✅ 任务添加成功！\nURL: "@ + url
}

/// Builds the reply once a room was added.
pub fn added_reply(url: &str) -> (r: String)
    ensures
        r@ == added_text(url@),
{
    prefixed("✅ 任务添加成功！\nURL: ", url)
}

/// What a callback asks for.
#[derive(Debug, PartialEq, Eq)]
pub enum BiliCallback {
    Refresh,
    View(String),
    Control { action: String, live_id: String },
    Delete(String),
    Ignored,
}

/// `s` without every leading repetition of `p` (`str::trim_start_matches`).
pub open spec fn trim_prefix_all(s: Seq<char>, p: Seq<char>) -> Seq<char>
    decreases s.len(),
{
    if p.len() > 0 && starts_with(s, p) {
        trim_prefix_all(s.skip(p.len() as int), p)
    } else {
        s
    }
}

fn trim_prefix_all_chars(s: &[char], p: &[char]) -> (r: Vec<char>)
    requires
        p@.len() > 0,
    ensures
        r@ == trim_prefix_all(s@, p@),
{
    let mut i: usize = 0;
    assert(s@.skip(0) =~= s@);
    while i <= s.len() && s.len() - i >= p.len() && crate::text::has_prefix_at(s, p, i)
        invariant
            i <= s@.len(),
            p@.len() > 0,
            trim_prefix_all(s@.skip(i as int), p@) == trim_prefix_all(s@, p@),
        decreases s@.len() - i,
    {
        assert(s@.skip(i as int).take(p@.len() as int) =~= s@.subrange(i as int, i + p@.len()));
        assert(s@.skip(i as int).skip(p@.len() as int) =~= s@.skip(i + p@.len()));
        i = i + p.len();
    }
    proof {
        let rest = s@.skip(i as int);
        if starts_with(rest, p@) {
            assert(rest.take(p@.len() as int) =~= s@.subrange(i as int, i + p@.len()));
        }
    }
    let mut out: Vec<char> = Vec::new();
    push_chars(&mut out, &s[i..s.len()]);
    assert(s@.subrange(i as int, s@.len() as int) =~= s@.skip(i as int));
    out
}

/// The route of a callback: refresh, view a task, act on a task (`op_{action}_{id}` with
/// exactly three `_`-separated parts), or delete a task.
pub open spec fn bili_route(data: Seq<char>) -> (nat, Seq<char>, Seq<char>) {
    let parts = split_on(data, '_');
    if data == "refresh_main"@ {
        (0, Seq::empty(), Seq::empty())
    } else if starts_with(data, "view_"@) {
        (1, trim_prefix_all(data, "view_"@), Seq::empty())
    } else if starts_with(data, "op_"@) {
        if parts.len() == 3 { (2, parts[1], parts[2]) } else { (4, Seq::empty(), Seq::empty()) }
    } else if starts_with(data, "conf_del_"@) {
        (3, trim_prefix_all(data, "conf_del_"@), Seq::empty())
    } else {
        (4, Seq::empty(), Seq::empty())
    }
}

/// The plain form of a callback route: its kind (refresh, view, control, delete,
/// ignored) and texts.
pub open spec fn bili_view(c: BiliCallback) -> (nat, Seq<char>, Seq<char>) {
    match c {
        BiliCallback::Refresh => (0, Seq::empty(), Seq::empty()),
        BiliCallback::View(id) => (1, id@, Seq::empty()),
        BiliCallback::Control { action, live_id } => (2, action@, live_id@),
        BiliCallback::Delete(id) => (3, id@, Seq::empty()),
        BiliCallback::Ignored => (4, Seq::empty(), Seq::empty()),
    }
}

/// Reads callback data.
pub fn route_callback(data: &str) -> (r: BiliCallback)
    ensures
        bili_view(r) == bili_route(data@),
{
    let d = chars_of(data);
    proof {
        reveal_strlit("view_");
        reveal_strlit("conf_del_");
    }
    if str_eq(data, "refresh_main") {
        return BiliCallback::Refresh;
    }
    let view = chars_of("view_");
    if has_prefix(d.as_slice(), view.as_slice()) {
        return BiliCallback::View(string_of(trim_prefix_all_chars(d.as_slice(), view.as_slice()).as_slice()));
    }
    if has_prefix(d.as_slice(), chars_of("op_").as_slice()) {
        let parts = split_chars(d.as_slice(), '_');
        if parts.len() == 3 {
            return BiliCallback::Control {
                action: string_of(parts[1].as_slice()),
                live_id: string_of(parts[2].as_slice()),
            };
        }
        return BiliCallback::Ignored;
    }
    let del = chars_of("conf_del_");
    if has_prefix(d.as_slice(), del.as_slice()) {
        return BiliCallback::Delete(string_of(trim_prefix_all_chars(d.as_slice(), del.as_slice()).as_slice()));
    }
    BiliCallback::Ignored
}

// ── recording alerts ────────────────────────────────────────────────────────

/// The alert when a task starts recording.
pub open spec fn alert_text(t: LiveTask) -> Seq<char> {
    "🚨 **开播提醒**\n\n👤 **主播**: "@ + text_or(t.host_name, "未知主播"@) + "\n🎬 **正在录制**: "@
        + text_or(t.room_name, "无标题"@) + "\n🔗 [点击进入直播间]("@ + task_url(t) + seq![')']
}

/// The last recording state seen per task id (no id twice).
pub struct RecordingTracker {
    pub seen: Vec<(String, bool)>,
}

/// The last state recorded for `id` (false when never seen).
pub open spec fn last_state(seen: Seq<(String, bool)>, id: Seq<char>) -> bool
    decreases seen.len(),
{
    if seen.len() == 0 {
        false
    } else if seen.last().0@ == id {
        seen.last().1
    } else {
        last_state(seen.drop_last(), id)
    }
}

impl RecordingTracker {
    /// A tracker that has seen nothing.
    pub fn new() -> (t: Self)
        ensures
            t.seen@.len() == 0,
    {
        RecordingTracker { seen: Vec::new() }
    }

    /// The last state seen for `id`.
    pub fn was_recording(&self, id: &str) -> (r: bool)
        ensures
            r == last_state(self.seen@, id@),
    {
        let mut i: usize = self.seen.len();
        assert(self.seen@.take(self.seen@.len() as int) =~= self.seen@);
        while i > 0
            invariant
                i <= self.seen@.len(),
                last_state(self.seen@, id@) == last_state(self.seen@.take(i as int), id@),
            decreases i,
        {
            assert(self.seen@.take(i as int).drop_last() =~= self.seen@.take(i - 1));
            if str_eq(self.seen[i - 1].0.as_str(), id) {
                return self.seen[i - 1].1;
            }
            i = i - 1;
        }
        false
    }

    /// Records one poll, task by task in order: a task that was not recording at its last
    /// sighting (or never seen) and now records yields its alert; every task's state is
    /// then remembered.
    pub fn observe(&mut self, lives: &[LiveTask]) -> (alerts: Vec<String>)
        ensures
            alerts@.map_values(|s: String| s@) == alerts_for(old(self).seen@, lives@),
            forall|id: Seq<char>| #[trigger] last_state(final(self).seen@, id) == after_poll(old(self).seen@, lives@, id),
    {
        let ghost start = self.seen@;
        let mut out: Vec<String> = Vec::new();
        let mut i: usize = 0;
        while i < lives.len()
            invariant
                i <= lives@.len(),
                out@.map_values(|s: String| s@) == alerts_for(start, lives@.take(i as int)),
                forall|id: Seq<char>| #[trigger] last_state(self.seen@, id) == after_poll(start, lives@.take(i as int), id),
            decreases lives@.len() - i,
        {
            let t = &lives[i];
            assert(lives@.take(i + 1).drop_last() =~= lives@.take(i as int));
            assert(lives@.take(i + 1).last() == *t);
            let was = self.was_recording(t.id.as_str());
            let ghost before = out@.map_values(|s: String| s@);
            if !was && t.recording {
                let mut m: Vec<char> = Vec::new();
                push_str(&mut m, "🚨 **开播提醒**\n\n👤 **主播**: ");
                push_str(&mut m, opt_or(&t.host_name, "未知主播").as_str());
                push_str(&mut m, "\n🎬 **正在录制**: ");
                push_str(&mut m, opt_or(&t.room_name, "无标题").as_str());
                push_str(&mut m, "\n🔗 [点击进入直播间](");
                match &t.live_url {
                    Some(u) => push_str(&mut m, u.as_str()),
                    None => match &t.url {
                        Some(u) => push_str(&mut m, u.as_str()),
                        None => {},
                    },
                }
                m.push(')');
                assert(m@ =~= alert_text(*t));
                out.push(string_of(m.as_slice()));
                assert(out@.map_values(|s: String| s@) =~= before.push(m@));
            }
            let ghost old_seen = self.seen@;
            self.seen.push((t.id.clone(), t.recording));
            assert(self.seen@.drop_last() =~= old_seen);
            assert forall|id: Seq<char>| #[trigger] last_state(self.seen@, id) == after_poll(start, lives@.take(i + 1), id) by {
                assert(self.seen@.last().0@ == lives@.take(i + 1).last().id@);
                assert(last_state(old_seen, id) == after_poll(start, lives@.take(i as int), id));
                assert(lives@.take(i + 1).drop_last() =~= lives@.take(i as int));
            }
            i = i + 1;
        }
        assert(lives@.take(lives@.len() as int) =~= lives@);
        out
    }
}

/// The alerts a poll of `lives` yields after the states `seen`.
pub open spec fn alerts_for(seen: Seq<(String, bool)>, lives: Seq<LiveTask>) -> Seq<Seq<char>>
    decreases lives.len(),
{
    if lives.len() == 0 {
        Seq::empty()
    } else {
        let before = lives.drop_last();
        let rest = alerts_for(seen, before);
        let t = lives.last();
        if !after_poll(seen, before, t.id@) && t.recording { rest.push(alert_text(t)) } else { rest }
    }
}

/// The state remembered for `id` after a poll of `lives` following `seen`.
pub open spec fn after_poll(seen: Seq<(String, bool)>, lives: Seq<LiveTask>, id: Seq<char>) -> bool
    decreases lives.len(),
{
    if lives.len() == 0 {
        last_state(seen, id)
    } else if lives.last().id@ == id {
        lives.last().recording
    } else {
        after_poll(seen, lives.drop_last(), id)
    }
}


/// Every task of a poll, wherever it stands, that records now and was not recording at
/// its last sighting (earlier in the poll, or before it) raises its alert, and no task
/// raises more than one: a task appended to a poll adds its alert exactly when it
/// starts recording, every starting task's alert is among the poll's alerts, and there
/// are never more alerts than tasks.
pub proof fn lemma_every_start_alerts(seen: Seq<(String, bool)>, lives: Seq<LiveTask>, t: LiveTask)
    ensures
        (t.recording && !after_poll(seen, lives, t.id@)) ==> alerts_for(seen, lives.push(t))
            == alerts_for(seen, lives).push(alert_text(t)),
        !(t.recording && !after_poll(seen, lives, t.id@)) ==> alerts_for(seen, lives.push(t)) == alerts_for(seen, lives),
        forall|i: int|
            0 <= i < lives.len() && (#[trigger] lives[i]).recording && !after_poll(seen, lives.take(i), lives[i].id@)
                ==> alerts_for(seen, lives).contains(alert_text(lives[i])),
        alerts_for(seen, lives).len() <= lives.len(),
    decreases lives.len(),
{
    let q = lives.push(t);
    assert(q.drop_last() =~= lives);
    assert(q.last() == t);
    if lives.len() > 0 {
        let w = lives.drop_last();
        let l = lives.last();
        lemma_every_start_alerts(seen, w, l);
        assert(w.push(l) =~= lives);
        assert forall|i: int|
            0 <= i < lives.len() && (#[trigger] lives[i]).recording && !after_poll(seen, lives.take(i), lives[i].id@)
                implies alerts_for(seen, lives).contains(alert_text(lives[i])) by {
            if i < w.len() {
                assert(lives[i] == w[i]);
                assert(lives.take(i) =~= w.take(i));
                let a = alerts_for(seen, w);
                assert(a.contains(alert_text(w[i])));
                let k = choose|k: int| 0 <= k < a.len() && a[k] == alert_text(w[i]);
                assert(alerts_for(seen, lives)[k] == alert_text(lives[i]));
            } else {
                assert(i == w.len());
                assert(lives.take(i) =~= w);
                let a = alerts_for(seen, lives);
                assert(a[a.len() - 1] == alert_text(lives[i]));
            }
        }
    }
}


/// A poll of one task alerts exactly when the task records now and was not recording at
/// its last sighting; a task already seen recording raises no second alert.
pub proof fn lemma_alert_on_start(seen: Seq<(String, bool)>, t: LiveTask)
    ensures
        alerts_for(seen, seq![t]) == (if !last_state(seen, t.id@) && t.recording {
            seq![alert_text(t)]
        } else {
            Seq::<Seq<char>>::empty()
        }),
        last_state(seen, t.id@) ==> alerts_for(seen, seq![t]).len() == 0,
{
    let l = seq![t];
    let e = Seq::<LiveTask>::empty();
    assert(l.drop_last() =~= e);
    assert(l.last() == t);
    assert(alerts_for(seen, e) == Seq::<Seq<char>>::empty());
    assert(after_poll(seen, e, t.id@) == last_state(seen, t.id@));
    assert(alerts_for(seen, l) == (if !after_poll(seen, e, t.id@) && t.recording {
        alerts_for(seen, e).push(alert_text(t))
    } else {
        alerts_for(seen, e)
    }));
    assert(seq![alert_text(t)] =~= Seq::<Seq<char>>::empty().push(alert_text(t)));
}

} // verus!
