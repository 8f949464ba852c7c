//! Menus and the file selector of the upload bot.
use vstd::prelude::*;
use std::collections::HashSet;
use crate::media_control::format::{escape_html, html_escaped};
use crate::media_control::keyboard::{button, keyboard_view, row_view, Button};
use crate::media_control::selector::PageEntry;
use crate::media_control::storage::texts;
use crate::paths::{components, extension_of, extension_of_chars, path_starts_with, render, same_path, same_path_chars, strip_base};
use crate::text::{str_eq, chars_of, decimal, ends_with, has_suffix, lowercase, push_chars, push_decimal, push_str, sort_strings, string_of, texts_sorted, to_lowercase, to_uppercase, uppercase};
use crate::media_control::keyboard::nav_row;
use crate::media_control::storage::DirListing;
use crate::media_control::callback::{lemma_fixed_literals, lemma_no_underscore_in_number, lemma_not_prefix};
use crate::text::{lemma_decimal_parses, lemma_split_join, lemma_split_plain, split_on, starts_with, usize_or_zero};
use crate::vpsupload::session::{callback_complete, vp_route, RouteView};

verus! {

broadcast use vstd::std_specs::hash::group_hash_axioms;

/// The name of a progress bar theme.
pub open spec fn theme_name(theme: nat) -> Seq<char> {
    if theme == 1 {
        "🟩🟩⬜⬜ 彩色水果"@
    } else if theme == 2 {
        "━━── 简约细线"@
    } else {
        "▰▰▱▱ 科幻方块"@
    }
}

/// The main menu text.
pub open spec fn vp_main_menu_text(base_dir: Seq<char>, active: Option<Seq<char>>, upload_count: nat, theme: nat) -> Seq<char> {
    let busy = match active {
        Some(n) => "\n⚡ <b>[当前任务]</b> <code>"@ + html_escaped(n) + "</code>"@,
        None => "\n🟢 <b>[系统状态]</b> <code>空闲中 (随时就绪)</code>"@,
    };
    let uploads = if upload_count > 0 {
        "\n☁️ <b>[上传任务]</b> <code>"@ + decimal(upload_count) + " 个任务在排队/运行</code>"@
    } else {
        Seq::empty()
    };
    "<b>╔══════ 🎬 VPS 多媒体控制面板 ══════╗</b>\n\n📁 <b>存储根目录:</b> <code>"@ + html_escaped(base_dir) + "</code>\n🎨 <b>当前进度条皮肤:</b> <code>"@
        + theme_name(theme) + "</code>\n"@ + busy + seq!['\n'] + uploads
        + "\n\n<i>💡 提示: 发送 /uploads 查看上传，/stop 中断独占任务。</i>\n<b>╚════════════════════════════════╝</b>"@
}

/// The main menu keyboard.
pub open spec fn vp_main_rows() -> Seq<Seq<(Seq<char>, Seq<char>)>> {
    seq![
        seq![("📂 浏览与操作本地文件"@, "init_browse"@)],
        seq![("📡 RTMP 推流"@, "init_stream"@), ("☁️ YouTube 上传"@, "init_youtube"@)],
        seq![("✂️ 智能视频合并"@, "init_concat"@), ("🔄 批量转码 MP4"@, "init_convert"@)],
        seq![("🎨 切换进度条皮肤"@, "menu_skin_settings"@), ("🗑️ 批量清理文件"@, "init_delete"@)],
    ]
}

/// The main menu for the base directory, the running exclusive task if any, the number of
/// queued uploads and the user's theme.
pub fn build_main_menu(base_dir: &str, active: Option<&str>, upload_count: usize, theme: usize) -> (r: (String, Vec<Vec<Button>>))
    ensures
        r.0@ == vp_main_menu_text(base_dir@, match active { Some(n) => Some(n@), None => None }, upload_count as nat, theme as nat),
        keyboard_view(r.1@) == vp_main_rows(),
{
    let mut out: Vec<char> = Vec::new();
    push_str(&mut out, "<b>╔══════ 🎬 VPS 多媒体控制面板 ══════╗</b>\n\n📁 <b>存储根目录:</b> <code>");
    push_str(&mut out, escape_html(base_dir).as_str());
    push_str(&mut out, "</code>\n🎨 <b>当前进度条皮肤:</b> <code>");
    let tn: &str = if theme == 1 { "🟩🟩⬜⬜ 彩色水果" } else if theme == 2 { "━━── 简约细线" } else { "▰▰▱▱ 科幻方块" };
    push_str(&mut out, tn);
    push_str(&mut out, "</code>\n");
    match active {
        Some(n) => {
            push_str(&mut out, "\n⚡ <b>[当前任务]</b> <code>");
            push_str(&mut out, escape_html(n).as_str());
            push_str(&mut out, "</code>");
        },
        None => push_str(&mut out, "\n🟢 <b>[系统状态]</b> <code>空闲中 (随时就绪)</code>"),
    }
    out.push('\n');
    if upload_count > 0 {
        push_str(&mut out, "\n☁️ <b>[上传任务]</b> <code>");
        push_decimal(&mut out, upload_count as u64);
        push_str(&mut out, " 个任务在排队/运行</code>");
    }
    push_str(&mut out, "\n\n<i>💡 提示: 发送 /uploads 查看上传，/stop 中断独占任务。</i>\n<b>╚════════════════════════════════╝</b>");
    assert(out@ =~= vp_main_menu_text(base_dir@, match active { Some(n) => Some(n@), None => None }, upload_count as nat, theme as nat));
    let k = vec![
        vec![button("📂 浏览与操作本地文件", "init_browse")],
        vec![button("📡 RTMP 推流", "init_stream"), button("☁️ YouTube 上传", "init_youtube")],
        vec![button("✂️ 智能视频合并", "init_concat"), button("🔄 批量转码 MP4", "init_convert")],
        vec![button("🎨 切换进度条皮肤", "menu_skin_settings"), button("🗑️ 批量清理文件", "init_delete")],
    ];
    assert(keyboard_view(k@) =~~= vp_main_rows());
    (string_of(out.as_slice()), k)
}

/// The theme selector's text.
pub open spec fn skin_menu_text() -> Seq<char> {
    "<b>🎨 选择你喜爱的进度条“视觉皮肤”：</b>\n\n设置后，推流、转码、以及 YouTube 上传进度条将实时切换为该样式。"@
}

/// The theme selector's keyboard.
pub open spec fn skin_menu_rows() -> Seq<Seq<(Seq<char>, Seq<char>)>> {
    seq![
        seq![("▰▰▱▱ 科幻方块"@, "set_skin_0"@)],
        seq![("🟩🟩⬜⬜ 彩色水果"@, "set_skin_1"@)],
        seq![("━━── 简约细线"@, "set_skin_2"@)],
        seq![("🔙 返回主菜单"@, "menu_main"@)],
    ]
}

/// The theme selector.
pub fn build_skin_selector_menu() -> (r: (String, Vec<Vec<Button>>))
    ensures
        r.0@ == skin_menu_text(),
        keyboard_view(r.1@) == skin_menu_rows(),
{
    let k = vec![
        vec![button("▰▰▱▱ 科幻方块", "set_skin_0")],
        vec![button("🟩🟩⬜⬜ 彩色水果", "set_skin_1")],
        vec![button("━━── 简约细线", "set_skin_2")],
        vec![button("🔙 返回主菜单", "menu_main")],
    ];
    assert(keyboard_view(k@) =~~= skin_menu_rows());
    ("<b>🎨 选择你喜爱的进度条“视觉皮肤”：</b>\n\n设置后，推流、转码、以及 YouTube 上传进度条将实时切换为该样式。".to_owned(), k)
}


// ── the file selector ───────────────────────────────────────────────────────

/// A directory entry as read from disk.
#[derive(Debug)]
pub struct VpEntry {
    pub name: String,
    pub is_dir: bool,
    pub is_file: bool,
}

/// The extension a name is matched by: a dot and the text after the name's last dot,
/// lower-cased; `None` when the name has no extension.
pub open spec fn match_ext(name: Seq<char>) -> Option<Seq<char>> {
    match extension_of(name) {
        Some(e) => Some(lowercase(seq!['.'] + e)),
        None => None,
    }
}

/// The name has an extension, and it equals a configured one, both lower-cased.
pub open spec fn listed_video(name: Seq<char>, exts: Seq<Seq<char>>) -> bool {
    match_ext(name) matches Some(m) && exists|i: int| 0 <= i < exts.len() && #[trigger] lowercase(exts[i]) == m
}

/// The names of directories among the entries, in order.
pub open spec fn dir_names(entries: Seq<VpEntry>) -> Seq<Seq<char>>
    decreases entries.len(),
{
    if entries.len() == 0 {
        Seq::empty()
    } else {
        let rest = dir_names(entries.drop_last());
        if entries.last().is_dir { rest.push(entries.last().name@) } else { rest }
    }
}

/// The names of files among the entries whose extension is listed, in order.
pub open spec fn video_names(entries: Seq<VpEntry>, exts: Seq<Seq<char>>) -> Seq<Seq<char>>
    decreases entries.len(),
{
    if entries.len() == 0 {
        Seq::empty()
    } else {
        let rest = video_names(entries.drop_last(), exts);
        let e = entries.last();
        if !e.is_dir && e.is_file && listed_video(e.name@, exts) { rest.push(e.name@) } else { rest }
    }
}

/// A listing keeps every directory entry and every video file entry, in entry order:
/// its directories are the entries that are directories, by name, and its files are the
/// entries that are files with a listed extension, by name. An entry added at the end
/// is listed after the others exactly when it is of that kind.
pub proof fn lemma_listing_keeps_every_entry(entries: Seq<VpEntry>, exts: Seq<Seq<char>>, e: VpEntry)
    ensures
        dir_names(entries) == entries.filter(|x: VpEntry| x.is_dir).map_values(|x: VpEntry| x.name@),
        dir_names(entries).len() == entries.filter(|x: VpEntry| x.is_dir).len(),
        video_names(entries, exts) == entries.filter(
            |x: VpEntry| !x.is_dir && x.is_file && listed_video(x.name@, exts),
        ).map_values(|x: VpEntry| x.name@),
        e.is_dir ==> dir_names(entries.push(e)) == dir_names(entries).push(e.name@),
        !e.is_dir ==> dir_names(entries.push(e)) == dir_names(entries),
        (!e.is_dir && e.is_file && listed_video(e.name@, exts)) ==> video_names(entries.push(e), exts)
            == video_names(entries, exts).push(e.name@),
    decreases entries.len(),
{
    reveal(Seq::filter);
    let fd = |x: VpEntry| x.is_dir;
    let fv = |x: VpEntry| !x.is_dir && x.is_file && listed_video(x.name@, exts);
    let g = |x: VpEntry| x.name@;
    let q = entries.push(e);
    assert(q.drop_last() =~= entries);
    assert(q.last() == e);
    if entries.len() > 0 {
        let w = entries.drop_last();
        let l = entries.last();
        lemma_listing_keeps_every_entry(w, exts, l);
        if l.is_dir {
            assert(w.filter(fd).push(l).map_values(g) =~= w.filter(fd).map_values(g).push(g(l)));
        }
        if fv(l) {
            assert(w.filter(fv).push(l).map_values(g) =~= w.filter(fv).map_values(g).push(g(l)));
        }
    } else {
        assert(entries.filter(fd) =~= Seq::<VpEntry>::empty());
        assert(entries.filter(fd).map_values(g) =~= Seq::<Seq<char>>::empty());
        assert(entries.filter(fv) =~= Seq::<VpEntry>::empty());
        assert(entries.filter(fv).map_values(g) =~= Seq::<Seq<char>>::empty());
    }
}


fn ext_listed(name: &str, exts: &[String]) -> (r: bool)
    ensures
        r == listed_video(name@, texts(exts@)),
{
    let nc = chars_of(name);
    let raw: Vec<char> = match extension_of_chars(nc.as_slice()) {
        Some(e) => e,
        None => return false,
    };
    let mut dotted: Vec<char> = Vec::new();
    dotted.push('.');
    push_chars(&mut dotted, raw.as_slice());
    assert(dotted@ =~= seq!['.'] + raw@);
    let low = to_lowercase(string_of(dotted.as_slice()).as_str());
    let ghost es = texts(exts@);
    let mut i: usize = 0;
    while i < exts.len()
        invariant
            i <= exts@.len(),
            es == texts(exts@),
            match_ext(name@) == Some(low@),
            forall|k: int| 0 <= k < i ==> #[trigger] lowercase(es[k]) != low@,
        decreases exts@.len() - i,
    {
        let e = to_lowercase(exts[i].as_str());
        if str_eq(e.as_str(), low.as_str()) {
            assert(lowercase(es[i as int]) == low@);
            return true;
        }
        i = i + 1;
    }
    false
}

/// The directories and the listed video files among `entries`, each sorted by name.
pub fn vp_listing(entries: &[VpEntry], exts: &[String]) -> (r: DirListing)
    ensures
        texts_sorted(texts(r.dirs@)),
        texts(r.dirs@).to_multiset() == dir_names(entries@).to_multiset(),
        texts_sorted(texts(r.files@)),
        texts(r.files@).to_multiset() == video_names(entries@, texts(exts@)).to_multiset(),
{
    let mut dirs: Vec<String> = Vec::new();
    let mut files: Vec<String> = Vec::new();
    let mut i: usize = 0;
    while i < entries.len()
        invariant
            i <= entries@.len(),
            texts(dirs@) == dir_names(entries@.take(i as int)),
            texts(files@) == video_names(entries@.take(i as int), texts(exts@)),
        decreases entries@.len() - i,
    {
        let e = &entries[i];
        assert(entries@.take(i + 1).drop_last() =~= entries@.take(i as int));
        assert(entries@.take(i + 1).last() == *e);
        if e.is_dir {
            let ghost before = texts(dirs@);
            dirs.push(e.name.clone());
            assert(texts(dirs@) =~= before.push(e.name@));
        } else if e.is_file && ext_listed(e.name.as_str(), exts) {
            let ghost before = texts(files@);
            files.push(e.name.clone());
            assert(texts(files@) =~= before.push(e.name@));
        }
        i = i + 1;
    }
    assert(entries@.take(entries@.len() as int) =~= entries@);
    DirListing { dirs: sort_strings(dirs), files: sort_strings(files) }
}

/// The number of pages for `n` items, `per_page` to a page (rounded up).
pub open spec fn vp_total_pages(n: nat, per_page: nat) -> nat {
    ((n + per_page - 1) / (per_page as int)) as nat
}

/// The shown page, the range of items on it, and the number of pages: a page beyond the
/// last shows the last (the first when there are none).
pub fn vp_page_bounds(n: usize, per_page: usize, page: usize) -> (r: (usize, usize, usize, usize))
    requires
        per_page > 0,
        n + per_page <= usize::MAX,
    ensures
        r.3 == vp_total_pages(n as nat, per_page as nat),
        r.0 == (if page < (if r.3 > 0 { r.3 - 1 } else { 0 }) { page as int } else { if r.3 > 0 { r.3 - 1 } else { 0 } }),
        r.1 == r.0 * per_page,
        r.2 == (if r.1 + per_page < n { r.1 + per_page } else { n as int }),
        r.1 <= r.2 <= n || n == 0,
{
    let total = (n + per_page - 1) / per_page;
    let last = if total > 0 { total - 1 } else { 0 };
    let p = if page < last { page } else { last };
    proof {
        if total > 0 {
            assert((total - 1) * per_page < n) by (nonlinear_arith)
                requires
                    total as int == (n + per_page - 1) / (per_page as int),
                    total > 0,
                    per_page > 0,
            ;
            assert(p * per_page <= (total - 1) * per_page) by (nonlinear_arith)
                requires
                    p <= total - 1,
                    per_page > 0,
            ;
        } else {
            assert(p == 0);
            assert(p * per_page == 0) by (nonlinear_arith)
                requires
                    p == 0,
            ;
        }
    }
    assert(p * per_page <= n);
    let start = p * per_page;
    let end = if start + per_page < n { start + per_page } else { n };
    (p, start, end, total)
}



/// Actions that choose several files.
pub open spec fn vp_is_multi(action: Seq<char>) -> bool {
    action == "youtube"@ || action == "concat"@ || action == "convert"@ || action == "delete"@
}

/// The button of the item with index `idx`.
pub open spec fn vp_item_button(name: Seq<char>, idx: nat, page: nat, action: Seq<char>, e: PageEntry, chosen: Set<usize>) -> (Seq<char>, Seq<char>) {
    if e.is_dir {
        ("📁 "@ + name, "enterdir_"@ + action + seq!['_'] + decimal(idx))
    } else if vp_is_multi(action) {
        ((if chosen.contains(idx as usize) { "✅ "@ } else { "⬜️ "@ }) + seq!['['] + e.size_text@ + "] "@ + name,
            "toggle_"@ + action + seq!['_'] + decimal(idx) + seq!['_'] + decimal(page))
    } else {
        (seq!['['] + e.size_text@ + "] "@ + name, "execsingle_"@ + action + seq!['_'] + decimal(idx))
    }
}

/// The selector's keyboard: the page's items, the page-turning row, the way up unless at
/// the base, the batch button when a multi-file action has choices, and the main menu.
pub open spec fn vp_rows(
    action: Seq<char>,
    names: Seq<Seq<char>>,
    entries: Seq<PageEntry>,
    start: nat,
    page: nat,
    total_pages: nat,
    at_base: bool,
    chosen: Set<usize>,
) -> Seq<Seq<(Seq<char>, Seq<char>)>> {
    let nav = nav_row(action, page, total_pages);
    Seq::new(names.len(), |i: int| seq![vp_item_button(names[i], (start + i) as nat, page, action, entries[i], chosen)])
        + (if nav.len() > 0 { seq![nav] } else { Seq::empty() })
        + (if !at_base { seq![seq![("⬆️ 返回上一层目录"@, "updir_"@ + action)]] } else { Seq::empty() })
        + (if vp_is_multi(action) && chosen.len() > 0 {
            seq![seq![("▶️ 确认执行 (选中 "@ + decimal(chosen.len()) + " 个文件)"@, "execbatch_"@ + action)]]
        } else {
            Seq::empty()
        })
        + seq![seq![("🔙 返回主菜单"@, "menu_main"@)]]
}

fn joined(a: &str, b: &str) -> (r: String)
    ensures
        r@ == a@ + b@,
{
    let mut out: Vec<char> = Vec::new();
    push_str(&mut out, a);
    push_str(&mut out, b);
    string_of(out.as_slice())
}

fn numbered(a: &str, b: &str, n: usize) -> (r: String)
    ensures
        r@ == a@ + b@ + seq!['_'] + decimal(n as nat),
{
    let mut out: Vec<char> = Vec::new();
    push_str(&mut out, a);
    push_str(&mut out, b);
    out.push('_');
    push_decimal(&mut out, n as u64);
    string_of(out.as_slice())
}

/// Builds the selector's keyboard for the items `names` of page `page` (of
/// `total_pages`), the first with index `start`; `chosen` holds the chosen indices.
pub fn vp_selector_rows(
    action: &str,
    names: &[String],
    entries: &[PageEntry],
    start: usize,
    page: usize,
    total_pages: usize,
    at_base: bool,
    chosen: &HashSet<usize>,
) -> (r: Vec<Vec<Button>>)
    requires
        names@.len() == entries@.len(),
        start + names@.len() <= usize::MAX,
    ensures
        keyboard_view(r@) == vp_rows(action@, texts(names@), entries@, start as nat, page as nat, total_pages as nat, at_base, chosen@),
{
    proof {
        reveal_strlit("youtube");
        reveal_strlit("concat");
        reveal_strlit("convert");
        reveal_strlit("delete");
    }
    let multi = crate::text::str_eq(action, "youtube") || crate::text::str_eq(action, "concat")
        || crate::text::str_eq(action, "convert") || crate::text::str_eq(action, "delete");
    let ghost want_items = Seq::new(names@.len(), |i: int| seq![vp_item_button(texts(names@)[i], (start + i) as nat, page as nat, action@, entries@[i], chosen@)]);
    let mut rows: Vec<Vec<Button>> = Vec::new();
    let mut i: usize = 0;
    while i < names.len()
        invariant
            i <= names@.len(),
            names@.len() == entries@.len(),
            start + names@.len() <= usize::MAX,
            multi == vp_is_multi(action@),
            want_items == Seq::new(names@.len(), |i: int| seq![vp_item_button(texts(names@)[i], (start + i) as nat, page as nat, action@, entries@[i], chosen@)]),
            keyboard_view(rows@) == want_items.take(i as int),
        decreases names@.len() - i,
    {
        let idx = start + i;
        let name = names[i].as_str();
        let b: Button = if entries[i].is_dir {
            Button { text: joined("📁 ", name), data: numbered("enterdir_", action, idx) }
        } else if multi {
            let mut label: Vec<char> = Vec::new();
            if chosen.contains(&idx) {
                push_str(&mut label, "✅ ");
            } else {
                push_str(&mut label, "⬜️ ");
            }
            label.push('[');
            push_str(&mut label, entries[i].size_text.as_str());
            push_str(&mut label, "] ");
            push_str(&mut label, name);
            let mut data: Vec<char> = chars_of(numbered("toggle_", action, idx).as_str());
            data.push('_');
            push_decimal(&mut data, page as u64);
            Button { text: string_of(label.as_slice()), data: string_of(data.as_slice()) }
        } else {
            let mut label: Vec<char> = Vec::new();
            label.push('[');
            push_str(&mut label, entries[i].size_text.as_str());
            push_str(&mut label, "] ");
            push_str(&mut label, name);
            Button { text: string_of(label.as_slice()), data: numbered("execsingle_", action, idx) }
        };
        assert(button_pair(b) == vp_item_button(texts(names@)[i as int], (start + i) as nat, page as nat, action@, entries@[i as int], chosen@));
        let row = vec![b];
        assert(row_view(row@) =~= seq![button_pair(b)]);
        let ghost before = keyboard_view(rows@);
        rows.push(row);
        assert(keyboard_view(rows@) =~= before.push(row_view(row@)));
        assert(keyboard_view(rows@) =~= want_items.take(i + 1));
        i = i + 1;
    }
    assert(want_items.take(names@.len() as int) =~= want_items);
    let ghost nav_spec = nav_row(action@, page as nat, total_pages as nat);
    let mut nav: Vec<Button> = Vec::new();
    if page > 0 {
        nav.push(Button { text: "⬅️ 上一页".to_owned(), data: numbered("menu_", action, page - 1) });
    }
    if total_pages > 0 && page < total_pages - 1 {
        nav.push(Button { text: "➡️ 下一页".to_owned(), data: numbered("menu_", action, page + 1) });
    }
    assert(row_view(nav@) =~~= nav_spec);
    let ghost b1 = keyboard_view(rows@);
    if nav.len() > 0 {
        rows.push(nav);
    }
    assert(keyboard_view(rows@) =~~= b1 + (if nav_spec.len() > 0 { seq![nav_spec] } else { Seq::empty() }));
    let ghost b2 = keyboard_view(rows@);
    if !at_base {
        rows.push(vec![Button { text: "⬆️ 返回上一层目录".to_owned(), data: joined("updir_", action) }]);
    }
    assert(keyboard_view(rows@) =~~= b2 + (if !at_base { seq![seq![("⬆️ 返回上一层目录"@, "updir_"@ + action@)]] } else { Seq::empty() }));
    let ghost b3 = keyboard_view(rows@);
    let count = chosen.len();
    if multi && count > 0 {
        let mut label: Vec<char> = chars_of("▶️ 确认执行 (选中 ");
        push_decimal(&mut label, count as u64);
        push_str(&mut label, " 个文件)");
        rows.push(vec![Button { text: string_of(label.as_slice()), data: joined("execbatch_", action) }]);
    }
    assert(keyboard_view(rows@) =~~= b3 + (if vp_is_multi(action@) && chosen@.len() > 0 {
        seq![seq![("▶️ 确认执行 (选中 "@ + decimal(chosen@.len()) + " 个文件)"@, "execbatch_"@ + action@)]]
    } else {
        Seq::empty()
    }));
    let ghost b4 = keyboard_view(rows@);
    rows.push(vec![button("🔙 返回主菜单", "menu_main")]);
    assert(keyboard_view(rows@) =~~= b4 + seq![seq![("🔙 返回主菜单"@, "menu_main"@)]]);
    rows
}

/// A button as its label and data.
pub open spec fn button_pair(b: Button) -> (Seq<char>, Seq<char>) {
    (b.text@, b.data@)
}

/// The directory shown in the header: `🏠` for the base (or a directory outside it),
/// `🏠/{rest}` below it.
pub open spec fn vp_shown_dir(dir: Seq<char>, base: Seq<char>) -> Seq<char> {
    let rel = if path_starts_with(dir, base) {
        render(components(dir).skip(components(base).len() as int))
    } else {
        Seq::empty()
    };
    if rel.len() == 0 {
        "🏠"@
    } else {
        "🏠/"@ + rel
    }
}

/// The selector's header.
pub open spec fn vp_header_text(dir: Seq<char>, base: Seq<char>, action: Seq<char>, page: nat, total_pages: nat) -> Seq<char> {
    "📂 路径: <code>"@ + html_escaped(vp_shown_dir(dir, base)) + "</code>\n👉 模式: <b>["@ + html_escaped(uppercase(action))
        + "]</b> (页 "@ + decimal(page + 1) + seq!['/'] + decimal(if total_pages > 0 { total_pages } else { 1 }) + seq![')']
}

/// Builds the selector's header.
pub fn vp_selector_header(dir: &str, base: &str, action: &str, page: usize, total_pages: usize) -> (r: String)
    requires
        page < usize::MAX,
    ensures
        r@ == vp_header_text(dir@, base@, action@, page as nat, total_pages as nat),
{
    let rel: Vec<char> = match strip_base(chars_of(dir).as_slice(), chars_of(base).as_slice()) {
        Some(v) => v,
        None => Vec::new(),
    };
    let mut shown: Vec<char> = Vec::new();
    if rel.len() == 0 {
        push_str(&mut shown, "🏠");
    } else {
        push_str(&mut shown, "🏠/");
        push_chars(&mut shown, rel.as_slice());
    }
    assert(shown@ =~= vp_shown_dir(dir@, base@));
    let mut out: Vec<char> = Vec::new();
    push_str(&mut out, "📂 路径: <code>");
    push_str(&mut out, escape_html(string_of(shown.as_slice()).as_str()).as_str());
    push_str(&mut out, "</code>\n👉 模式: <b>[");
    push_str(&mut out, escape_html(to_uppercase(action).as_str()).as_str());
    push_str(&mut out, "]</b> (页 ");
    push_decimal(&mut out, (page + 1) as u64);
    out.push('/');
    push_decimal(&mut out, if total_pages > 0 { total_pages as u64 } else { 1 });
    out.push(')');
    assert(out@ =~= vp_header_text(dir@, base@, action@, page as nat, total_pages as nat));
    string_of(out.as_slice())
}


/// Text that holds no `_`.
pub open spec fn plain_part(s: Seq<char>) -> bool {
    forall|i: int| 0 <= i < s.len() ==> s[i] != '_'
}

proof fn lemma_split_three(p: Seq<char>, a: Seq<char>, b: Seq<char>)
    requires
        plain_part(p),
        plain_part(a),
        plain_part(b),
    ensures
        split_on(p + seq!['_'] + a + seq!['_'] + b, '_') == seq![p, a, b],
{
    lemma_split_plain(b, '_');
    lemma_split_join(a, b, '_');
    lemma_split_join(p, a + seq!['_'] + b, '_');
    assert(p + seq!['_'] + a + seq!['_'] + b =~= p + seq!['_'] + (a + seq!['_'] + b));
    assert(seq![p] + (seq![a] + seq![b]) =~= seq![p, a, b]);
}

proof fn lemma_split_four(p: Seq<char>, a: Seq<char>, b: Seq<char>, c: Seq<char>)
    requires
        plain_part(p),
        plain_part(a),
        plain_part(b),
        plain_part(c),
    ensures
        split_on(p + seq!['_'] + a + seq!['_'] + b + seq!['_'] + c, '_') == seq![p, a, b, c],
{
    lemma_split_three(a, b, c);
    lemma_split_join(p, a + seq!['_'] + b + seq!['_'] + c, '_');
    assert(p + seq!['_'] + a + seq!['_'] + b + seq!['_'] + c =~= p + seq!['_'] + (a + seq!['_'] + b + seq!['_'] + c));
    assert(seq![p] + seq![a, b, c] =~= seq![p, a, b, c]);
}

/// Every callback the upload bot's selector hands out is complete and reads back as what
/// it names: an item's button (a directory to enter, a file to choose, a file to act on),
/// a page, the way up and the batch run, for an action key without `_`.
pub proof fn lemma_vp_selector_data_routes(
    name: Seq<char>,
    idx: nat,
    page: nat,
    action: Seq<char>,
    e: PageEntry,
    chosen: Set<usize>,
)
    requires
        plain_part(action),
        idx <= usize::MAX,
        page <= usize::MAX,
    ensures
        callback_complete(vp_item_button(name, idx, page, action, e, chosen).1),
        vp_route(vp_item_button(name, idx, page, action, e, chosen).1) == (if e.is_dir {
            RouteView::EnterDir(action, idx as usize)
        } else if vp_is_multi(action) {
            RouteView::Toggle(action, idx as usize, page as usize)
        } else {
            RouteView::ExecSingle(action, idx as usize)
        }),
        callback_complete("menu_"@ + action + seq!['_'] + decimal(page)),
        vp_route("menu_"@ + action + seq!['_'] + decimal(page)) == RouteView::Menu(action, page as usize),
        callback_complete("updir_"@ + action),
        vp_route("updir_"@ + action) == RouteView::UpDir(action),
        callback_complete("execbatch_"@ + action),
        vp_route("execbatch_"@ + action) == RouteView::ExecBatch(action),
{
    lemma_fixed_literals();
    lemma_no_underscore_in_number(idx);
    lemma_no_underscore_in_number(page);
    lemma_decimal_parses(idx);
    lemma_decimal_parses(page);
    let di = decimal(idx);
    let dp = decimal(page);
    let mn = seq!['m', 'e', 'n', 'u'];
    let ed = seq!['e', 'n', 't', 'e', 'r', 'd', 'i', 'r'];
    let tg = seq!['t', 'o', 'g', 'g', 'l', 'e'];
    let es = seq!['e', 'x', 'e', 'c', 's', 'i', 'n', 'g', 'l', 'e'];
    assert(plain_part(mn) && plain_part(ed) && plain_part(tg) && plain_part(es));
    // the page button
    let m = "menu_"@ + action + seq!['_'] + dp;
    assert(m =~= mn + seq!['_'] + action + seq!['_'] + dp);
    lemma_split_three(mn, action, dp);
    assert(m[5 + action.len() as int] == '_');
    if 5 + action.len() < 9 {
        reveal_strlit("menu_main");
        assert("menu_main"@ =~= seq!['m', 'e', 'n', 'u', '_', 'm', 'a', 'i', 'n']);
        lemma_not_prefix(m, "menu_main"@, 5 + action.len() as int);
    }
    lemma_not_prefix(m, "init_"@, 0);
    assert(m.take(5) =~= "menu_"@);
    // the entry buttons
    let en = "enterdir_"@ + action + seq!['_'] + di;
    assert(en =~= ed + seq!['_'] + action + seq!['_'] + di);
    lemma_split_three(ed, action, di);
    lemma_not_prefix(en, "menu_main"@, 0);
    lemma_not_prefix(en, "init_"@, 0);
    lemma_not_prefix(en, "menu_"@, 0);
    assert(en.take(9) =~= "enterdir_"@);
    let t = "toggle_"@ + action + seq!['_'] + di + seq!['_'] + dp;
    assert(t =~= tg + seq!['_'] + action + seq!['_'] + di + seq!['_'] + dp);
    lemma_split_four(tg, action, di, dp);
    lemma_not_prefix(t, "menu_main"@, 0);
    lemma_not_prefix(t, "init_"@, 0);
    lemma_not_prefix(t, "menu_"@, 0);
    lemma_not_prefix(t, "enterdir_"@, 0);
    lemma_not_prefix(t, "updir_"@, 0);
    assert(t.take(7) =~= "toggle_"@);
    let x = "execsingle_"@ + action + seq!['_'] + di;
    assert(x =~= es + seq!['_'] + action + seq!['_'] + di);
    lemma_split_three(es, action, di);
    lemma_not_prefix(x, "menu_main"@, 0);
    lemma_not_prefix(x, "init_"@, 0);
    lemma_not_prefix(x, "menu_"@, 0);
    lemma_not_prefix(x, "enterdir_"@, 1);
    lemma_not_prefix(x, "updir_"@, 0);
    lemma_not_prefix(x, "toggle_"@, 0);
    assert(x.take(11) =~= "execsingle_"@);
    // the way up and the batch run
    let u = "updir_"@ + action;
    lemma_not_prefix(u, "menu_main"@, 0);
    lemma_not_prefix(u, "init_"@, 0);
    lemma_not_prefix(u, "menu_"@, 0);
    lemma_not_prefix(u, "enterdir_"@, 0);
    assert(u.take(6) =~= "updir_"@);
    assert(u.skip(6) =~= action);
    let b = "execbatch_"@ + action;
    lemma_not_prefix(b, "menu_main"@, 0);
    lemma_not_prefix(b, "init_"@, 0);
    lemma_not_prefix(b, "menu_"@, 0);
    lemma_not_prefix(b, "enterdir_"@, 1);
    lemma_not_prefix(b, "updir_"@, 0);
    lemma_not_prefix(b, "toggle_"@, 0);
    lemma_not_prefix(b, "execsingle_"@, 4);
    assert(b.take(10) =~= "execbatch_"@);
    assert(b.skip(10) =~= action);
}

} // verus!
