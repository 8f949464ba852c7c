//! The file selector view: the header text and the buttons of the current page.
use vstd::prelude::*;
use crate::media_control::errors::AppError;
use crate::media_control::callback::{callback_route, lemma_selector_data_routes, CallbackRoute};
use crate::media_control::format::{escape_html, html_escaped};
use crate::media_control::keyboard::pairs_view;
use crate::media_control::state::{action_display_name, action_is_multi_select, action_name, ActionType, AppState};
use crate::media_control::storage::{join_path, PathGuard};
use crate::paths::{components, join, path_starts_with, render, same_path, same_path_chars, strip_base};
use crate::text::{chars_of, decimal, push_chars, push_decimal, push_str, string_of};

verus! {

/// What the selector shows of one listed entry, as read from the file system.
#[derive(Debug, Clone)]
pub struct PageEntry {
    /// The entry is a directory.
    pub is_dir: bool,
    /// The file's size, formatted.
    pub size_text: String,
}

/// Some chosen path names the same file as `path`.
pub open spec fn is_chosen(chosen: Seq<Seq<char>>, path: Seq<char>) -> bool {
    exists|j: int| 0 <= j < chosen.len() && same_path(#[trigger] chosen[j], path)
}

/// The button of one entry: directories are entered; files are toggled when the action
/// works on chosen files, and acted on directly otherwise.
pub open spec fn entry_button(
    name: Seq<char>,
    idx: nat,
    page: nat,
    action: ActionType,
    is_dir: bool,
    size_text: Seq<char>,
    checked: bool,
) -> (Seq<char>, Seq<char>) {
    let an = action_name(action);
    if is_dir {
        ("📁 "@ + name, "enterdir_"@ + an + seq!['_'] + decimal(idx))
    } else if action_is_multi_select(action) {
        ((if checked { "✅ "@ } else { "⬜️ "@ }) + seq!['['] + size_text + "] "@ + name,
            "toggle_"@ + an + seq!['_'] + decimal(idx) + seq!['_'] + decimal(page))
    } else {
        (seq!['['] + size_text + "] "@ + name, "execsingle_"@ + an + seq!['_'] + decimal(idx))
    }
}

/// The buttons of a page whose first entry has index `start`.
pub open spec fn page_buttons(
    dir: Seq<char>,
    names: Seq<Seq<char>>,
    entries: Seq<PageEntry>,
    start: nat,
    page: nat,
    action: ActionType,
    chosen: Seq<Seq<char>>,
) -> Seq<(Seq<char>, Seq<char>)> {
    Seq::new(
        names.len(),
        |i: int|
            entry_button(
                names[i],
                (start + i) as nat,
                page,
                action,
                entries[i].is_dir,
                entries[i].size_text@,
                is_chosen(chosen, join(dir, names[i])),
            ),
    )
}

fn chosen_contains(chosen: &[String], path: &[char]) -> (r: bool)
    ensures
        r == is_chosen(chosen@.map_values(|s: String| s@), path@),
{
    let ghost cs = chosen@.map_values(|s: String| s@);
    let mut j: usize = 0;
    while j < chosen.len()
        invariant
            j <= chosen@.len(),
            cs == chosen@.map_values(|s: String| s@),
            forall|k: int| 0 <= k < j ==> !same_path(#[trigger] cs[k], path@),
        decreases chosen@.len() - j,
    {
        let c = chars_of(chosen[j].as_str());
        if same_path_chars(c.as_slice(), path) {
            assert(same_path(cs[j as int], path@));
            return true;
        }
        j = j + 1;
    }
    false
}

/// The buttons for the entries `names` of the current page, whose first entry has index
/// `start_index` in the listing; `entries` describes each of them, `chosen` holds the
/// paths chosen for `action`.
pub fn page_buttons_of(
    dir: &str,
    names: &[String],
    entries: &[PageEntry],
    start_index: usize,
    page: usize,
    action: ActionType,
    chosen: &[String],
) -> (r: Vec<(String, String)>)
    requires
        names@.len() == entries@.len(),
        start_index + names@.len() <= usize::MAX,
    ensures
        pairs_view(r@) == page_buttons(
            dir@,
            names@.map_values(|s: String| s@),
            entries@,
            start_index as nat,
            page as nat,
            action,
            chosen@.map_values(|s: String| s@),
        ),
{
    let ghost want = page_buttons(
        dir@,
        names@.map_values(|s: String| s@),
        entries@,
        start_index as nat,
        page as nat,
        action,
        chosen@.map_values(|s: String| s@),
    );
    let an = action.as_str();
    let multi = action.is_multi_select();
    let mut out: Vec<(String, String)> = Vec::new();
    let mut i: usize = 0;
    while i < names.len()
        invariant
            i <= names@.len(),
            names@.len() == entries@.len(),
            start_index + names@.len() <= usize::MAX,
            an@ == action_name(action),
            multi == action_is_multi_select(action),
            want == page_buttons(
                dir@,
                names@.map_values(|s: String| s@),
                entries@,
                start_index as nat,
                page as nat,
                action,
                chosen@.map_values(|s: String| s@),
            ),
            pairs_view(out@) == want.take(i as int),
        decreases names@.len() - i,
    {
        let name = names[i].as_str();
        let idx = start_index + i;
        let mut label: Vec<char> = Vec::new();
        let mut data: Vec<char> = Vec::new();
        if entries[i].is_dir {
            push_str(&mut label, "📁 ");
            push_str(&mut label, name);
            push_str(&mut data, "enterdir_");
            push_str(&mut data, an);
            data.push('_');
            push_decimal(&mut data, idx as u64);
        } else if multi {
            let path = join_path(dir, name);
            let pc = chars_of(path.as_str());
            let checked = chosen_contains(chosen, pc.as_slice());
            if checked {
                push_str(&mut label, "✅ ");
            } else {
                push_str(&mut label, "⬜️ ");
            }
            label.push('[');
            push_str(&mut label, entries[i].size_text.as_str());
            push_str(&mut label, "] ");
            push_str(&mut label, name);
            push_str(&mut data, "toggle_");
            push_str(&mut data, an);
            data.push('_');
            push_decimal(&mut data, idx as u64);
            data.push('_');
            push_decimal(&mut data, page as u64);
            assert(checked == is_chosen(chosen@.map_values(|s: String| s@), join(dir@, names@[i as int]@)));
        } else {
            label.push('[');
            push_str(&mut label, entries[i].size_text.as_str());
            push_str(&mut label, "] ");
            push_str(&mut label, name);
            push_str(&mut data, "execsingle_");
            push_str(&mut data, an);
            data.push('_');
            push_decimal(&mut data, idx as u64);
        }
        let item = (string_of(label.as_slice()), string_of(data.as_slice()));
        assert((item.0@, item.1@) == want[i as int]);
        let ghost before = pairs_view(out@);
        out.push(item);
        assert(pairs_view(out@) =~= before.push((item.0@, item.1@)));
        assert(pairs_view(out@) =~= want.take(i + 1));
        i = i + 1;
    }
    assert(want.take(names@.len() as int) =~= want);
    out
}

/// The directory shown in the header: `🏠` for the base itself, `🏠/{rest}` below it,
/// and `🏠/{dir}` for a directory outside the base.
pub open spec fn shown_dir(dir: Seq<char>, base: Seq<char>) -> Seq<char> {
    let rel = if path_starts_with(dir, base) {
        render(components(dir).skip(components(base).len() as int))
    } else {
        dir
    };
    if rel.len() == 0 || rel == seq!['.'] {
        "🏠"@
    } else {
        "🏠/"@ + rel
    }
}

/// The selector's header: the directory, the mode and page, the exclusive task and the
/// uploads when there are any, and a note for an empty directory.
pub open spec fn selector_header_text(
    dir: Seq<char>,
    base: Seq<char>,
    action: ActionType,
    page: nat,
    total_pages: nat,
    active_task: Option<Seq<char>>,
    upload_count: nat,
    listing_empty: bool,
) -> Seq<char> {
    "📂 路径: <code>"@ + html_escaped(shown_dir(dir, base)) + "</code>\n👉 模式: ["@ + html_escaped(
        action_display_name(action),
    ) + "] (页 "@ + decimal(page + 1) + seq!['/'] + decimal(total_pages) + seq![')'] + (match active_task {
        Some(n) => "\n🔒 独占任务: <code>"@ + html_escaped(n) + "</code>"@,
        None => Seq::empty(),
    }) + (if upload_count > 0 {
        "\n☁️ YouTube 上传/排队: <code>"@ + decimal(upload_count) + "</code>"@
    } else {
        Seq::empty()
    }) + (if listing_empty {
        "\n\n⚠️ 当前目录下既无子文件夹也无视频文件。"@
    } else {
        Seq::empty()
    })
}

/// The directory as the header shows it.
pub fn shown_dir_of(dir: &str, base: &str) -> (r: String)
    ensures
        r@ == shown_dir(dir@, base@),
{
    let d = chars_of(dir);
    let b = chars_of(base);
    let rel: Vec<char> = match strip_base(d.as_slice(), b.as_slice()) {
        Some(v) => v,
        None => d,
    };
    let mut out: Vec<char> = Vec::new();
    if rel.len() == 0 || (rel.len() == 1 && rel[0] == '.') {
        proof {
            if rel@.len() == 1 && rel@[0] == '.' {
                assert(rel@ =~= seq!['.']);
            }
        }
        push_str(&mut out, "🏠");
    } else {
        assert(rel@ != seq!['.']);
        push_str(&mut out, "🏠/");
        push_chars(&mut out, rel.as_slice());
    }
    string_of(out.as_slice())
}

/// Builds the selector's header.
pub fn selector_header(
    dir: &str,
    base: &str,
    action: ActionType,
    page: usize,
    total_pages: usize,
    active_task: Option<&str>,
    upload_count: usize,
    listing_empty: bool,
) -> (r: String)
    requires
        page < usize::MAX,
    ensures
        r@ == selector_header_text(
            dir@,
            base@,
            action,
            page as nat,
            total_pages as nat,
            match active_task {
                Some(n) => Some(n@),
                None => None,
            },
            upload_count as nat,
            listing_empty,
        ),
{
    let mut out: Vec<char> = Vec::new();
    push_str(&mut out, "📂 路径: <code>");
    let shown = shown_dir_of(dir, base);
    push_str(&mut out, escape_html(shown.as_str()).as_str());
    push_str(&mut out, "</code>\n👉 模式: [");
    push_str(&mut out, escape_html(action.display_name()).as_str());
    push_str(&mut out, "] (页 ");
    push_decimal(&mut out, (page + 1) as u64);
    out.push('/');
    push_decimal(&mut out, total_pages as u64);
    out.push(')');
    let ghost head = out@;
    match active_task {
        Some(n) => {
            push_str(&mut out, "\n🔒 独占任务: <code>");
            push_str(&mut out, escape_html(n).as_str());
            push_str(&mut out, "</code>");
        },
        None => {},
    }
    let ghost with_task = out@;
    if upload_count > 0 {
        push_str(&mut out, "\n☁️ YouTube 上传/排队: <code>");
        push_decimal(&mut out, upload_count as u64);
        push_str(&mut out, "</code>");
    }
    let ghost with_uploads = out@;
    if listing_empty {
        push_str(&mut out, "\n\n⚠️ 当前目录下既无子文件夹也无视频文件。");
    }
    assert(out@ =~= selector_header_text(
        dir@,
        base@,
        action,
        page as nat,
        total_pages as nat,
        match active_task {
            Some(n) => Some(n@),
            None => None,
        },
        upload_count as nat,
        listing_empty,
    ));
    string_of(out.as_slice())
}

impl AppState {
    /// The directory to show: the current one when it lies inside the guard's base;
    /// otherwise the current directory is reset to `base_dir`, which is shown.
    /// `resolved_current` is the canonical form of the current directory.
    pub fn shown_directory(&mut self, base_dir: &str, guard: &PathGuard, resolved_base: Option<&str>, resolved_current: Option<&str>) -> (r: String)
        ensures
            guard.inside(old(self).current_dir@, resolved_base, resolved_current) ==> r@ == old(self).current_dir@
                && *final(self) == *old(self),
            !guard.inside(old(self).current_dir@, resolved_base, resolved_current) ==> r@ == base_dir@
                && final(self).current_dir@ == base_dir@,
            final(self).selections == old(self).selections,
            final(self).youtube_pool == old(self).youtube_pool,
            final(self).active_task == old(self).active_task,
            final(self).current_files == old(self).current_files,
    {
        match guard.assert_inside(self.current_dir.as_str(), resolved_base, resolved_current) {
            Ok(_) => self.current_dir.clone(),
            Err(_) => {
                self.current_dir = base_dir.to_owned();
                base_dir.to_owned()
            },
        }
    }
}


/// Every entry button of the selector sends data that routes back to its entry: entering
/// a directory, toggling a file for a multi-file action, or acting on it alone.
pub proof fn lemma_entry_button_routes(
    name: Seq<char>,
    idx: nat,
    page: nat,
    action: ActionType,
    is_dir: bool,
    size_text: Seq<char>,
    checked: bool,
)
    requires
        idx <= usize::MAX,
        page <= usize::MAX,
    ensures
        callback_route(entry_button(name, idx, page, action, is_dir, size_text, checked).1) == Ok::<CallbackRoute, Seq<char>>(
            if is_dir {
                CallbackRoute::EnterDir { action, idx: idx as usize }
            } else if action_is_multi_select(action) {
                CallbackRoute::Toggle { action, idx: idx as usize, page: page as usize }
            } else {
                CallbackRoute::ExecSingle { action, idx: idx as usize }
            },
        ),
{
    lemma_selector_data_routes(action, idx, page);
}

} // verus!
