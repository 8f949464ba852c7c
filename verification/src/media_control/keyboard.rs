//! Inline keyboards, as rows of buttons that each carry a label and callback data.
use vstd::prelude::*;
use crate::text::{chars_of, decimal, push_decimal, push_str, string_of};

verus! {

/// An inline-keyboard button: its label and the callback data it sends.
#[derive(Debug, Clone)]
pub struct Button {
    pub text: String,
    pub data: String,
}

/// A button as its label and data.
pub open spec fn button_view(b: Button) -> (Seq<char>, Seq<char>) {
    (b.text@, b.data@)
}

/// A row of buttons as labels and data.
pub open spec fn row_view(r: Seq<Button>) -> Seq<(Seq<char>, Seq<char>)> {
    r.map_values(|b: Button| button_view(b))
}

/// A keyboard as rows of labels and data.
pub open spec fn keyboard_view(k: Seq<Vec<Button>>) -> Seq<Seq<(Seq<char>, Seq<char>)>> {
    k.map_values(|r: Vec<Button>| row_view(r@))
}

/// Pairs of texts as plain sequences.
pub open spec fn pairs_view(items: Seq<(String, String)>) -> Seq<(Seq<char>, Seq<char>)> {
    items.map_values(|p: (String, String)| (p.0@, p.1@))
}

/// A button with the given label and data.
pub fn button(text: &str, data: &str) -> (b: Button)
    ensures
        b.text@ == text@,
        b.data@ == data@,
{
    Button { text: text.to_owned(), data: data.to_owned() }
}

/// The main menu.
pub open spec fn main_menu_rows() -> Seq<Seq<(Seq<char>, Seq<char>)>> {
    seq![
        seq![("📂 浏览远程文件"@, "init_browse"@)],
        seq![("📡 RTMP 单路推流"@, "init_stream"@), ("☁️ YouTube 上传"@, "init_youtube"@)],
        seq![("✂️ 智能视频合并"@, "init_concat"@)],
        seq![("🔄 批量转码 MP4"@, "init_convert"@)],
        seq![("🗑️ 批量删除文件"@, "init_delete"@)],
    ]
}

/// Builds the main menu keyboard.
pub fn main_menu_keyboard() -> (k: Vec<Vec<Button>>)
    ensures
        keyboard_view(k@) == main_menu_rows(),
{
    let k = vec![
        vec![button("📂 浏览远程文件", "init_browse")],
        vec![button("📡 RTMP 单路推流", "init_stream"), button("☁️ YouTube 上传", "init_youtube")],
        vec![button("✂️ 智能视频合并", "init_concat")],
        vec![button("🔄 批量转码 MP4", "init_convert")],
        vec![button("🗑️ 批量删除文件", "init_delete")],
    ];
    assert(keyboard_view(k@) =~~= main_menu_rows());
    k
}

/// The page-turning buttons: back when there is a previous page, forward when there is a
/// next one.
pub open spec fn nav_row(action: Seq<char>, page: nat, total_pages: nat) -> Seq<(Seq<char>, Seq<char>)> {
    (if page > 0 {
        seq![("⬅️ 上一页"@, "menu_"@ + action + seq!['_'] + decimal((page - 1) as nat))]
    } else {
        Seq::empty()
    }) + (if page + 1 < total_pages {
        seq![("➡️ 下一页"@, "menu_"@ + action + seq!['_'] + decimal(page + 1))]
    } else {
        Seq::empty()
    })
}

/// The file selector: one row per item, the page-turning row when it has buttons, the
/// way up unless at the base directory, the batch button when files are chosen, and the
/// way back to the main menu.
pub open spec fn selector_rows(
    items: Seq<(Seq<char>, Seq<char>)>,
    page: nat,
    total_pages: nat,
    action: Seq<char>,
    is_at_base: bool,
    selected_count: nat,
) -> Seq<Seq<(Seq<char>, Seq<char>)>> {
    let nav = nav_row(action, page, total_pages);
    items.map_values(|it: (Seq<char>, Seq<char>)| seq![it])
        + (if nav.len() > 0 { seq![nav] } else { Seq::empty() })
        + (if !is_at_base { seq![seq![("⬆️ 返回上一级目录"@, "updir_"@ + action)]] } else { Seq::empty() })
        + (if selected_count > 0 {
            seq![seq![("▶️ 确认执行 ("@ + decimal(selected_count) + " 个文件)"@, "execbatch_"@ + action)]]
        } else {
            Seq::empty()
        })
        + seq![seq![("🔙 返回主菜单"@, "menu_main"@)]]
}

fn page_data(action: &str, page: usize) -> (s: String)
    ensures
        s@ == "menu_"@ + action@ + seq!['_'] + decimal(page as nat),
{
    let mut out: Vec<char> = Vec::new();
    push_str(&mut out, "menu_");
    push_str(&mut out, action);
    out.push('_');
    push_decimal(&mut out, page as u64);
    string_of(out.as_slice())
}

fn prefixed(prefix: &str, action: &str) -> (s: String)
    ensures
        s@ == prefix@ + action@,
{
    let mut out: Vec<char> = Vec::new();
    push_str(&mut out, prefix);
    push_str(&mut out, action);
    string_of(out.as_slice())
}

/// Builds the file selector keyboard from the current page's `(label, data)` items.
pub fn file_selector_keyboard(
    items: &[(String, String)],
    page: usize,
    total_pages: usize,
    action: &str,
    is_at_base: bool,
    selected_count: usize,
) -> (k: Vec<Vec<Button>>)
    ensures
        keyboard_view(k@) == selector_rows(
            pairs_view(items@),
            page as nat,
            total_pages as nat,
            action@,
            is_at_base,
            selected_count as nat,
        ),
{
    let ghost want_items = pairs_view(items@).map_values(|it: (Seq<char>, Seq<char>)| seq![it]);
    let mut rows: Vec<Vec<Button>> = Vec::new();
    let mut i: usize = 0;
    while i < items.len()
        invariant
            i <= items@.len(),
            want_items == pairs_view(items@).map_values(|it: (Seq<char>, Seq<char>)| seq![it]),
            keyboard_view(rows@) == want_items.take(i as int),
        decreases items@.len() - i,
    {
        let b = Button { text: items[i].0.clone(), data: items[i].1.clone() };
        let row = vec![b];
        assert(row_view(row@) =~= seq![(items@[i as int].0@, items@[i as int].1@)]);
        assert(want_items[i as int] == seq![pairs_view(items@)[i as int]]);
        let ghost before = keyboard_view(rows@);
        rows.push(row);
        assert(keyboard_view(rows@) =~= before.push(row_view(row@)));
        assert(keyboard_view(rows@) =~= want_items.take(i + 1));
        i = i + 1;
    }
    assert(want_items.take(items@.len() as int) =~= want_items);
    let ghost nav_spec = nav_row(action@, page as nat, total_pages as nat);
    let mut nav: Vec<Button> = Vec::new();
    if page > 0 {
        let d = page_data(action, page - 1);
        nav.push(Button { text: "⬅️ 上一页".to_owned(), data: d });
    }
    if total_pages > 0 && page < total_pages - 1 {
        let d = page_data(action, page + 1);
        nav.push(Button { text: "➡️ 下一页".to_owned(), data: d });
    }
    assert(row_view(nav@) =~~= nav_spec);
    let ghost before_nav = keyboard_view(rows@);
    if nav.len() > 0 {
        rows.push(nav);
    }
    assert(keyboard_view(rows@) =~~= before_nav + (if nav_spec.len() > 0 { seq![nav_spec] } else { Seq::empty() }));
    let ghost before_up = keyboard_view(rows@);
    if !is_at_base {
        rows.push(vec![Button { text: "⬆️ 返回上一级目录".to_owned(), data: prefixed("updir_", action) }]);
    }
    assert(keyboard_view(rows@) =~~= before_up + (if !is_at_base {
        seq![seq![("⬆️ 返回上一级目录"@, "updir_"@ + action@)]]
    } else {
        Seq::empty()
    }));
    let ghost before_exec = keyboard_view(rows@);
    if selected_count > 0 {
        let mut label: Vec<char> = chars_of("▶️ 确认执行 (");
        push_decimal(&mut label, selected_count as u64);
        push_str(&mut label, " 个文件)");
        rows.push(vec![Button { text: string_of(label.as_slice()), data: prefixed("execbatch_", action) }]);
    }
    assert(keyboard_view(rows@) =~~= before_exec + (if selected_count > 0 {
        seq![seq![("▶️ 确认执行 ("@ + decimal(selected_count as nat) + " 个文件)"@, "execbatch_"@ + action@)]]
    } else {
        Seq::empty()
    }));
    let ghost before_main = keyboard_view(rows@);
    rows.push(vec![button("🔙 返回主菜单", "menu_main")]);
    assert(keyboard_view(rows@) =~~= before_main + seq![seq![("🔙 返回主菜单"@, "menu_main"@)]]);
    rows
}

/// The delete confirmation.
pub open spec fn delete_confirmation_rows() -> Seq<Seq<(Seq<char>, Seq<char>)>> {
    seq![seq![("✅ 确认删除"@, "confirm_delete"@), ("取消"@, "cancel_delete"@)]]
}

/// Builds the delete confirmation keyboard.
pub fn delete_confirmation_keyboard() -> (k: Vec<Vec<Button>>)
    ensures
        keyboard_view(k@) == delete_confirmation_rows(),
{
    let k = vec![vec![button("✅ 确认删除", "confirm_delete"), button("取消", "cancel_delete")]];
    assert(keyboard_view(k@) =~~= delete_confirmation_rows());
    k
}

/// The single way back to the main menu.
pub open spec fn back_to_main_rows() -> Seq<Seq<(Seq<char>, Seq<char>)>> {
    seq![seq![("🔙 返回主菜单"@, "menu_main"@)]]
}

/// Builds the keyboard with one button back to the main menu.
pub fn back_to_main_keyboard() -> (k: Vec<Vec<Button>>)
    ensures
        keyboard_view(k@) == back_to_main_rows(),
{
    let k = vec![vec![button("🔙 返回主菜单", "menu_main")]];
    assert(keyboard_view(k@) =~~= back_to_main_rows());
    k
}

} // verus!
