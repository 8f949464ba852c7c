//! Inline-keyboard callbacks: parsing the callback data and the state changes they cause.
//!
//! | data | meaning |
//! |------|---------|
//! | `menu_main` | back to the main menu |
//! | `init_{action}` | open the file selector |
//! | `menu_{action}_{page}` | turn the page |
//! | `enterdir_{action}_{idx}` | enter a sub-directory |
//! | `updir_{action}` | go to the parent directory |
//! | `toggle_{action}_{idx}_{page}` | choose or unchoose a file |
//! | `execsingle_{action}_{idx}` | act on one file |
//! | `execbatch_{action}` | act on the chosen files |
//! | `confirm_delete` / `cancel_delete` | answer the delete confirmation |
use vstd::prelude::*;
use crate::media_control::errors::AppError;
use crate::media_control::state::{action_from_name, action_name, lemma_action_name_roundtrip, ActionType, AppState, path_texts};
use crate::media_control::storage::{join_path, resolved_or, PathGuard};
use crate::paths::{components, join, last_index_of, parent, parent_chars, path_starts_with, same_path, same_path_chars, starts_with_path};
use crate::text::{chars_eq, chars_of, has_prefix, parse_usize_or_zero, push_chars, push_str, str_eq, string_of, sub_chars, usize_or_zero, starts_with, sort_strings, texts_sorted};
use crate::paths::{last_index, lemma_last_index_after};
use crate::text::{decimal, lemma_decimal_parses, all_digits};

verus! {

/// What a callback asks for.
#[derive(Debug, Clone, Copy, PartialEq, Eq, Structural)]
pub enum CallbackRoute {
    MainMenu,
    CancelDelete,
    ConfirmDelete,
    Init { action: ActionType },
    Menu { action: ActionType, page: usize },
    EnterDir { action: ActionType, idx: usize },
    UpDir { action: ActionType },
    Toggle { action: ActionType, idx: usize, page: usize },
    ExecSingle { action: ActionType, idx: usize },
    ExecBatch { action: ActionType },
    /// A known prefix without the parts it needs: nothing is done.
    Ignored,
    /// Unrecognised data.
    Unknown,
}

/// The action named `name`, or the unknown name.
pub open spec fn named_action(name: Seq<char>) -> Result<ActionType, Seq<char>> {
    match action_from_name(name) {
        Some(a) => Ok(a),
        None => Err(name),
    }
}

/// The route for `rest` = `{action}_{n}`: split at the last `_`.
pub open spec fn route_one_number(rest: Seq<char>, tag: int) -> Result<CallbackRoute, Seq<char>> {
    let d = last_index_of(rest, '_');
    if d < 0 {
        Ok(CallbackRoute::Ignored)
    } else {
        let n = usize_or_zero(rest.skip(d + 1));
        match named_action(rest.take(d)) {
            Ok(a) => Ok(if tag == 0 {
                CallbackRoute::Menu { action: a, page: n }
            } else if tag == 1 {
                CallbackRoute::EnterDir { action: a, idx: n }
            } else {
                CallbackRoute::ExecSingle { action: a, idx: n }
            }),
            Err(e) => Err(e),
        }
    }
}

/// The route for `rest` = `{action}_{idx}_{page}`: split at the last two `_`.
pub open spec fn route_toggle(rest: Seq<char>) -> Result<CallbackRoute, Seq<char>> {
    let d1 = last_index_of(rest, '_');
    let left = rest.take(d1);
    let d2 = last_index_of(left, '_');
    if d1 < 0 || d2 < 0 {
        Ok(CallbackRoute::Ignored)
    } else {
        match named_action(left.take(d2)) {
            Ok(a) => Ok(CallbackRoute::Toggle {
                action: a,
                idx: usize_or_zero(left.skip(d2 + 1)),
                page: usize_or_zero(rest.skip(d1 + 1)),
            }),
            Err(e) => Err(e),
        }
    }
}

/// The route for `rest` = `{action}`.
pub open spec fn route_action_only(rest: Seq<char>, tag: int) -> Result<CallbackRoute, Seq<char>> {
    match named_action(rest) {
        Ok(a) => Ok(if tag == 0 {
            CallbackRoute::Init { action: a }
        } else if tag == 1 {
            CallbackRoute::UpDir { action: a }
        } else {
            CallbackRoute::ExecBatch { action: a }
        }),
        Err(e) => Err(e),
    }
}

/// The meaning of callback data; an unknown action name is an error carrying that name.
pub open spec fn callback_route(data: Seq<char>) -> Result<CallbackRoute, Seq<char>> {
    if data == "menu_main"@ {
        Ok(CallbackRoute::MainMenu)
    } else if data == "cancel_delete"@ {
        Ok(CallbackRoute::CancelDelete)
    } else if data == "confirm_delete"@ {
        Ok(CallbackRoute::ConfirmDelete)
    } else if starts_with(data, "init_"@) {
        route_action_only(data.skip("init_"@.len() as int), 0)
    } else if starts_with(data, "menu_"@) {
        route_one_number(data.skip("menu_"@.len() as int), 0)
    } else if starts_with(data, "enterdir_"@) {
        route_one_number(data.skip("enterdir_"@.len() as int), 1)
    } else if starts_with(data, "updir_"@) {
        route_action_only(data.skip("updir_"@.len() as int), 1)
    } else if starts_with(data, "toggle_"@) {
        route_toggle(data.skip("toggle_"@.len() as int))
    } else if starts_with(data, "execsingle_"@) {
        route_one_number(data.skip("execsingle_"@.len() as int), 2)
    } else if starts_with(data, "execbatch_"@) {
        route_action_only(data.skip("execbatch_"@.len() as int), 2)
    } else {
        Ok(CallbackRoute::Unknown)
    }
}

/// The error for an unknown action name: `Unknown action: {name}`.
fn unknown_action(name: &[char]) -> (e: AppError)
    ensures
        e matches AppError::InvalidArgument { message: m } && m@ == "Unknown action: "@ + name@,
{
    let mut m: Vec<char> = Vec::new();
    push_str(&mut m, "Unknown action: ");
    push_chars(&mut m, name);
    AppError::InvalidArgument { message: string_of(m.as_slice()) }
}

fn action_of(name: &[char]) -> (r: Result<ActionType, AppError>)
    ensures
        named_action(name@) matches Ok(a) ==> r == Ok::<ActionType, AppError>(a),
        named_action(name@) matches Err(n) ==> (r matches Err(AppError::InvalidArgument { message: m })
            && m@ == "Unknown action: "@ + n),
{
    let s = string_of(name);
    match ActionType::from_str(s.as_str()) {
        Some(a) => Ok(a),
        None => Err(unknown_action(name)),
    }
}

fn rest_after(data: &[char], prefix: &str) -> (r: Option<Vec<char>>)
    ensures
        starts_with(data@, prefix@) ==> (r matches Some(v) && v@ == data@.skip(prefix@.len() as int)),
        !starts_with(data@, prefix@) ==> r is None,
{
    let p = chars_of(prefix);
    if has_prefix(data, p.as_slice()) {
        Some(sub_chars(data, p.len(), data.len()))
    } else {
        None
    }
}

fn parse_one_number(rest: &[char], tag: u8) -> (r: Result<CallbackRoute, AppError>)
    requires
        tag <= 2,
    ensures
        route_one_number(rest@, tag as int) matches Ok(x) ==> r == Ok::<CallbackRoute, AppError>(x),
        route_one_number(rest@, tag as int) matches Err(n) ==> (r matches Err(AppError::InvalidArgument { message: m })
            && m@ == "Unknown action: "@ + n),
{
    match last_index(rest, '_') {
        None => Ok(CallbackRoute::Ignored),
        Some(d) => {
            let len = rest.len();
            let num = sub_chars(rest, d + 1, len);
            let name = sub_chars(rest, 0, d);
            assert(num@ =~= rest@.skip(d + 1));
            assert(name@ =~= rest@.take(d as int));
            let n = parse_usize_or_zero(num.as_slice());
            let a = action_of(name.as_slice())?;
            Ok(if tag == 0 {
                CallbackRoute::Menu { action: a, page: n }
            } else if tag == 1 {
                CallbackRoute::EnterDir { action: a, idx: n }
            } else {
                CallbackRoute::ExecSingle { action: a, idx: n }
            })
        },
    }
}

fn parse_action_only(rest: &[char], tag: u8) -> (r: Result<CallbackRoute, AppError>)
    requires
        tag <= 2,
    ensures
        route_action_only(rest@, tag as int) matches Ok(x) ==> r == Ok::<CallbackRoute, AppError>(x),
        route_action_only(rest@, tag as int) matches Err(n) ==> (r matches Err(AppError::InvalidArgument { message: m })
            && m@ == "Unknown action: "@ + n),
{
    let a = action_of(rest)?;
    Ok(if tag == 0 {
        CallbackRoute::Init { action: a }
    } else if tag == 1 {
        CallbackRoute::UpDir { action: a }
    } else {
        CallbackRoute::ExecBatch { action: a }
    })
}

fn parse_toggle(rest: &[char]) -> (r: Result<CallbackRoute, AppError>)
    ensures
        route_toggle(rest@) matches Ok(x) ==> r == Ok::<CallbackRoute, AppError>(x),
        route_toggle(rest@) matches Err(n) ==> (r matches Err(AppError::InvalidArgument { message: m })
            && m@ == "Unknown action: "@ + n),
{
    match last_index(rest, '_') {
        None => Ok(CallbackRoute::Ignored),
        Some(d1) => {
            let left = sub_chars(rest, 0, d1);
            assert(left@ =~= rest@.take(d1 as int));
            match last_index(left.as_slice(), '_') {
                None => Ok(CallbackRoute::Ignored),
                Some(d2) => {
                    let len = rest.len();
                    let page_text = sub_chars(rest, d1 + 1, len);
                    let idx_text = sub_chars(left.as_slice(), d2 + 1, left.len());
                    let name = sub_chars(left.as_slice(), 0, d2);
                    assert(page_text@ =~= rest@.skip(d1 + 1));
                    assert(idx_text@ =~= left@.skip(d2 + 1));
                    assert(name@ =~= left@.take(d2 as int));
                    let page = parse_usize_or_zero(page_text.as_slice());
                    let idx = parse_usize_or_zero(idx_text.as_slice());
                    let a = action_of(name.as_slice())?;
                    Ok(CallbackRoute::Toggle { action: a, idx, page })
                },
            }
        },
    }
}

/// Parses callback data. Unrecognised data is `Unknown`; a known prefix whose action
/// name is not an action is an `InvalidArgument` error naming it.
pub fn parse_callback(data: &str) -> (r: Result<CallbackRoute, AppError>)
    ensures
        callback_route(data@) matches Ok(x) ==> r == Ok::<CallbackRoute, AppError>(x),
        callback_route(data@) matches Err(n) ==> (r matches Err(AppError::InvalidArgument { message: m })
            && m@ == "Unknown action: "@ + n),
{
    if str_eq(data, "menu_main") {
        return Ok(CallbackRoute::MainMenu);
    }
    if str_eq(data, "cancel_delete") {
        return Ok(CallbackRoute::CancelDelete);
    }
    if str_eq(data, "confirm_delete") {
        return Ok(CallbackRoute::ConfirmDelete);
    }
    let d = chars_of(data);
    if let Some(rest) = rest_after(d.as_slice(), "init_") {
        return parse_action_only(rest.as_slice(), 0);
    }
    if let Some(rest) = rest_after(d.as_slice(), "menu_") {
        return parse_one_number(rest.as_slice(), 0);
    }
    if let Some(rest) = rest_after(d.as_slice(), "enterdir_") {
        return parse_one_number(rest.as_slice(), 1);
    }
    if let Some(rest) = rest_after(d.as_slice(), "updir_") {
        return parse_action_only(rest.as_slice(), 1);
    }
    if let Some(rest) = rest_after(d.as_slice(), "toggle_") {
        return parse_toggle(rest.as_slice());
    }
    if let Some(rest) = rest_after(d.as_slice(), "execsingle_") {
        return parse_one_number(rest.as_slice(), 2);
    }
    if let Some(rest) = rest_after(d.as_slice(), "execbatch_") {
        return parse_action_only(rest.as_slice(), 2);
    }
    Ok(CallbackRoute::Unknown)
}

// ── state changes ───────────────────────────────────────────────────────────

/// What blocks a batch delete.
#[derive(Debug, Clone, PartialEq)]
pub enum DeleteCheck {
    /// Nothing blocks it.
    Clear,
    /// An exclusive task runs.
    TaskRunning { task_name: String },
    /// Uploads run.
    UploadsRunning { count: usize },
}

impl AppState {
    /// The path of the `idx`-th listed entry in the current directory.
    pub open spec fn spec_item_path(&self, idx: int) -> Option<Seq<char>> {
        if 0 <= idx < self.current_files@.len() {
            Some(join(self.current_dir@, self.current_files@[idx]@))
        } else {
            None
        }
    }

    /// The path of the `idx`-th listed entry, if there is one.
    pub fn item_path(&self, idx: usize) -> (r: Option<String>)
        ensures
            r matches Some(p) ==> self.spec_item_path(idx as int) == Some(p@),
            r is None ==> self.spec_item_path(idx as int) is None,
    {
        if idx < self.current_files.len() {
            Some(join_path(self.current_dir.as_str(), self.current_files[idx].as_str()))
        } else {
            None
        }
    }

    /// Opens the file selector for `action` at `base_dir`: its choices and any pending
    /// delete are dropped.
    pub fn init_action(&mut self, base_dir: &str, action: &ActionType)
        ensures
            final(self).current_dir@ == base_dir@,
            final(self).selections.slot(*action) is None,
            final(self).selections.same_except(&old(self).selections, *action),
            final(self).pending_delete_files@.len() == 0,
            final(self).youtube_pool == old(self).youtube_pool,
            final(self).active_task == old(self).active_task,
            final(self).current_files == old(self).current_files,
            final(self).cancel_flag == old(self).cancel_flag,
            final(self).youtube_max_concurrent == old(self).youtube_max_concurrent,
            final(self).current_process_pid == old(self).current_process_pid,
    {
        self.current_dir = base_dir.to_owned();
        self.clear_selections(action);
        self.pending_delete_files = Vec::new();
    }

    /// Enters the `idx`-th listed entry when it exists and lies inside the guard's base;
    /// the action's choices and any pending delete are dropped. Returns whether the
    /// entry existed. `resolved_item` is the canonical form of the entry's path.
    pub fn enter_dir(&mut self, idx: usize, action: &ActionType, guard: &PathGuard, resolved_base: Option<&str>, resolved_item: Option<&str>) -> (r: Result<bool, AppError>)
        ensures
            old(self).spec_item_path(idx as int) is None ==> r == Ok::<bool, AppError>(false) && *final(self) == *old(self),
            old(self).spec_item_path(idx as int) matches Some(p) ==> {
                &&& guard.inside(p, resolved_base, resolved_item) ==> {
                    &&& r == Ok::<bool, AppError>(true)
                    &&& final(self).current_dir@ == p
                    &&& final(self).selections.slot(*action) is None
                    &&& final(self).selections.same_except(&old(self).selections, *action)
                    &&& final(self).pending_delete_files@.len() == 0
                    &&& final(self).youtube_pool == old(self).youtube_pool
                    &&& final(self).active_task == old(self).active_task
                    &&& final(self).current_files == old(self).current_files
                    &&& final(self).cancel_flag == old(self).cancel_flag
                    &&& final(self).youtube_max_concurrent == old(self).youtube_max_concurrent
                    &&& final(self).current_process_pid == old(self).current_process_pid
                }
                &&& !guard.inside(p, resolved_base, resolved_item) ==> (r matches Err(AppError::PathTraversal { path: t })
                    && t@ == resolved_or(resolved_item, p)) && *final(self) == *old(self)
            },
    {
        if idx >= self.current_files.len() {
            return Ok(false);
        }
        let new_dir = guard.safe_join(self.current_dir.as_str(), self.current_files[idx].as_str(), resolved_base, resolved_item)?;
        self.current_dir = new_dir;
        self.clear_selections(action);
        self.pending_delete_files = Vec::new();
        Ok(true)
    }

    /// Goes to the parent directory unless already at `base_dir`; the current directory
    /// and its parent must lie inside the guard's base. The action's choices and any
    /// pending delete are dropped. `resolved_current` and `resolved_parent` are the
    /// canonical forms of the current directory and of its parent.
    pub fn go_up(&mut self, base_dir: &str, action: &ActionType, guard: &PathGuard, resolved_base: Option<&str>, resolved_current: Option<&str>, resolved_parent: Option<&str>) -> (r: Result<(), AppError>)
        ensures
            !guard.inside(old(self).current_dir@, resolved_base, resolved_current) ==> (r matches Err(AppError::PathTraversal { path: t })
                && t@ == resolved_or(resolved_current, old(self).current_dir@)) && *final(self) == *old(self),
            guard.inside(old(self).current_dir@, resolved_base, resolved_current) ==> {
                let cur = old(self).current_dir@;
                let moves = !same_path(cur, base_dir@) && parent(cur) is Some;
                &&& (moves && !guard.inside(parent(cur)->0, resolved_base, resolved_parent)) ==> (r matches Err(AppError::PathTraversal { path: t })
                    && t@ == resolved_or(resolved_parent, parent(cur)->0)) && *final(self) == *old(self)
                &&& (!moves || guard.inside(parent(cur)->0, resolved_base, resolved_parent)) ==> {
                    &&& r is Ok
                    &&& final(self).current_dir@ == if moves { parent(cur)->0 } else { cur }
                    &&& final(self).selections.slot(*action) is None
                    &&& final(self).selections.same_except(&old(self).selections, *action)
                    &&& final(self).pending_delete_files@.len() == 0
                    &&& final(self).youtube_pool == old(self).youtube_pool
                    &&& final(self).active_task == old(self).active_task
                    &&& final(self).current_files == old(self).current_files
                    &&& final(self).cancel_flag == old(self).cancel_flag
                    &&& final(self).youtube_max_concurrent == old(self).youtube_max_concurrent
                    &&& final(self).current_process_pid == old(self).current_process_pid
                }
            },
    {
        let current = guard.assert_inside(self.current_dir.as_str(), resolved_base, resolved_current)?;
        let cur = chars_of(current.as_str());
        let base = chars_of(base_dir);
        let at_base = same_path_chars(cur.as_slice(), base.as_slice());
        if !at_base {
            match parent_chars(cur.as_slice()) {
                Some(p) => {
                    let ps = string_of(p.as_slice());
                    let checked = guard.assert_inside(ps.as_str(), resolved_base, resolved_parent)?;
                    self.current_dir = checked;
                },
                None => {},
            }
        }
        self.clear_selections(action);
        self.pending_delete_files = Vec::new();
        Ok(())
    }

    /// Chooses or unchooses the `idx`-th listed entry for `action` when it exists and lies
    /// inside the guard's base; any pending delete is dropped.
    pub fn toggle_item(&mut self, idx: usize, action: &ActionType, guard: &PathGuard, resolved_base: Option<&str>, resolved_item: Option<&str>) -> (r: Result<(), AppError>)
        ensures
            old(self).spec_item_path(idx as int) is None ==> r is Ok && *final(self) == *old(self),
            old(self).spec_item_path(idx as int) matches Some(p) ==> {
                &&& guard.inside(p, resolved_base, resolved_item) ==> {
                    &&& r is Ok
                    &&& old(self).selections.chosen(*action).contains(p) ==> final(self).selections.chosen(*action)
                        == old(self).selections.chosen(*action).remove(p)
                    &&& !old(self).selections.chosen(*action).contains(p) ==> final(self).selections.chosen(*action)
                        == old(self).selections.chosen(*action).insert(p)
                    &&& final(self).selections.same_except(&old(self).selections, *action)
                    &&& final(self).pending_delete_files@.len() == 0
                    &&& final(self).current_dir == old(self).current_dir
                    &&& final(self).youtube_pool == old(self).youtube_pool
                    &&& final(self).active_task == old(self).active_task
                    &&& final(self).current_files == old(self).current_files
                    &&& final(self).cancel_flag == old(self).cancel_flag
                    &&& final(self).youtube_max_concurrent == old(self).youtube_max_concurrent
                    &&& final(self).current_process_pid == old(self).current_process_pid
                }
                &&& !guard.inside(p, resolved_base, resolved_item) ==> (r matches Err(AppError::PathTraversal { path: t })
                    && t@ == resolved_or(resolved_item, p)) && *final(self) == *old(self)
            },
    {
        let path = match self.item_path(idx) {
            Some(p) => p,
            None => return Ok(()),
        };
        let safe = guard.assert_inside(path.as_str(), resolved_base, resolved_item)?;
        self.toggle_selection(action, safe.as_str());
        self.pending_delete_files = Vec::new();
        Ok(())
    }

    /// The `idx`-th listed entry to act on, when it exists and lies inside the guard's base.
    pub fn single_target(&self, idx: usize, guard: &PathGuard, resolved_base: Option<&str>, resolved_item: Option<&str>) -> (r: Result<Option<String>, AppError>)
        ensures
            self.spec_item_path(idx as int) is None ==> r matches Ok(None),
            self.spec_item_path(idx as int) matches Some(p) ==> {
                &&& guard.inside(p, resolved_base, resolved_item) ==> (r matches Ok(Some(q)) && q@ == p)
                &&& !guard.inside(p, resolved_base, resolved_item) ==> (r matches Err(AppError::PathTraversal { path: t })
                    && t@ == resolved_or(resolved_item, p))
            },
    {
        let path = match self.item_path(idx) {
            Some(p) => p,
            None => return Ok(None),
        };
        let safe = guard.assert_inside(path.as_str(), resolved_base, resolved_item)?;
        Ok(Some(safe))
    }

    /// Clears finished work, then reports what blocks a batch delete: a running exclusive
    /// task first, then running uploads.
    pub fn delete_precheck(&mut self) -> (r: DeleteCheck)
        ensures
            old(self).spec_has_active_task() ==> (r matches DeleteCheck::TaskRunning { task_name: n }
                && n@ == old(self).active_task->0.name@),
            !old(self).spec_has_active_task() && old(self).spec_active_youtube_count() > 0 ==> r
                == (DeleteCheck::UploadsRunning { count: old(self).spec_active_youtube_count() as usize }),
            !old(self).spec_has_active_task() && old(self).spec_active_youtube_count() == 0 ==> (r
                == DeleteCheck::Clear),
            final(self).spec_has_active_task() == old(self).spec_has_active_task(),
            final(self).spec_active_youtube_count() == old(self).spec_active_youtube_count(),
    {
        self.cleanup_active_task();
        self.cleanup_youtube_pool();
        if self.has_active_task() {
            let name = match self.active_task_name() {
                Some(n) => n.to_owned(),
                None => "运行中任务".to_owned(),
            };
            return DeleteCheck::TaskRunning { task_name: name };
        }
        let count = self.active_youtube_count();
        if count > 0 {
            DeleteCheck::UploadsRunning { count }
        } else {
            DeleteCheck::Clear
        }
    }
}


// ── the data the selector sends ─────────────────────────────────────────────

/// The data of the button that turns to page `page`.
pub open spec fn page_data(a: ActionType, page: nat) -> Seq<char> {
    "menu_"@ + action_name(a) + seq!['_'] + decimal(page)
}

/// The data of the button that enters entry `idx`.
pub open spec fn enter_data(a: ActionType, idx: nat) -> Seq<char> {
    "enterdir_"@ + action_name(a) + seq!['_'] + decimal(idx)
}

/// The data of the button that toggles entry `idx` on page `page`.
pub open spec fn toggle_data(a: ActionType, idx: nat, page: nat) -> Seq<char> {
    "toggle_"@ + action_name(a) + seq!['_'] + decimal(idx) + seq!['_'] + decimal(page)
}

/// The data of the button that acts on entry `idx` alone.
pub open spec fn single_data(a: ActionType, idx: nat) -> Seq<char> {
    "execsingle_"@ + action_name(a) + seq!['_'] + decimal(idx)
}

/// The data of the buttons that open the selector, go up, and act on the chosen files.
pub open spec fn init_data(a: ActionType) -> Seq<char> {
    "init_"@ + action_name(a)
}

/// The data of the button that goes up.
pub open spec fn updir_data(a: ActionType) -> Seq<char> {
    "updir_"@ + action_name(a)
}

/// The data of the button that acts on the chosen files.
pub open spec fn batch_data(a: ActionType) -> Seq<char> {
    "execbatch_"@ + action_name(a)
}

proof fn lemma_name_plain(a: ActionType)
    ensures
        action_name(a).len() >= 6,
        forall|i: int| 0 <= i < action_name(a).len() ==> action_name(a)[i] != '_',
        action_name(a)[0] != 'm',
{
    reveal_strlit("browse");
    reveal_strlit("stream");
    reveal_strlit("youtube");
    reveal_strlit("concat");
    reveal_strlit("convert");
    reveal_strlit("delete");
}

pub(crate) proof fn lemma_no_underscore_in_number(n: nat)
    ensures
        forall|i: int| 0 <= i < decimal(n).len() ==> decimal(n)[i] != '_',
{
    lemma_decimal_parses(n);
    assert forall|i: int| 0 <= i < decimal(n).len() implies decimal(n)[i] != '_' by {
        assert('0' <= decimal(n)[i] && decimal(n)[i] <= '9');
    }
}

/// `rest` = `{name}_{n}` splits at its last `_` into the name and the number.
proof fn lemma_one_number(a: ActionType, n: nat, tag: int)
    requires
        n <= usize::MAX,
        0 <= tag <= 2,
    ensures
        route_one_number(action_name(a) + seq!['_'] + decimal(n), tag) == Ok::<CallbackRoute, Seq<char>>(
            if tag == 0 {
                CallbackRoute::Menu { action: a, page: n as usize }
            } else if tag == 1 {
                CallbackRoute::EnterDir { action: a, idx: n as usize }
            } else {
                CallbackRoute::ExecSingle { action: a, idx: n as usize }
            },
        ),
{
    let name = action_name(a);
    let rest = name + seq!['_'] + decimal(n);
    lemma_no_underscore_in_number(n);
    lemma_last_index_after(name, decimal(n), '_');
    assert(name.push('_') + decimal(n) =~= rest);
    let d = last_index_of(rest, '_');
    assert(d == name.len());
    assert(rest.take(d) =~= name);
    assert(rest.skip(d + 1) =~= decimal(n));
    lemma_decimal_parses(n);
    lemma_action_name_roundtrip(a, name);
}

/// `rest` = `{name}_{idx}_{page}` splits into the name and the two numbers.
proof fn lemma_two_numbers(a: ActionType, idx: nat, page: nat)
    requires
        idx <= usize::MAX,
        page <= usize::MAX,
    ensures
        route_toggle(action_name(a) + seq!['_'] + decimal(idx) + seq!['_'] + decimal(page))
            == Ok::<CallbackRoute, Seq<char>>(CallbackRoute::Toggle { action: a, idx: idx as usize, page: page as usize }),
{
    let name = action_name(a);
    let left = name + seq!['_'] + decimal(idx);
    let rest = left + seq!['_'] + decimal(page);
    lemma_no_underscore_in_number(idx);
    lemma_no_underscore_in_number(page);
    lemma_last_index_after(left, decimal(page), '_');
    assert(left.push('_') + decimal(page) =~= rest);
    assert(rest.take(left.len() as int) =~= left);
    assert(rest.skip(left.len() as int + 1) =~= decimal(page));
    lemma_last_index_after(name, decimal(idx), '_');
    assert(name.push('_') + decimal(idx) =~= left);
    assert(left.take(name.len() as int) =~= name);
    assert(left.skip(name.len() as int + 1) =~= decimal(idx));
    lemma_decimal_parses(idx);
    lemma_decimal_parses(page);
    lemma_action_name_roundtrip(a, name);
}

pub(crate) proof fn lemma_not_prefix(s: Seq<char>, p: Seq<char>, k: int)
    requires
        0 <= k < p.len(),
        k < s.len(),
        s[k] != p[k],
    ensures
        !starts_with(s, p),
        s != p,
{
    if starts_with(s, p) {
        assert(s.take(p.len() as int)[k] == s[k]);
    }
}

pub(crate) proof fn lemma_fixed_literals()
    ensures
        "menu_main"@.len() == 9 && "menu_main"@[0] == 'm' && "menu_main"@[5] == 'm',
        "cancel_delete"@.len() == 13 && "cancel_delete"@[0] == 'c',
        "confirm_delete"@.len() == 14 && "confirm_delete"@[0] == 'c',
        "init_"@ == seq!['i', 'n', 'i', 't', '_'],
        "menu_"@ == seq!['m', 'e', 'n', 'u', '_'],
        "enterdir_"@ == seq!['e', 'n', 't', 'e', 'r', 'd', 'i', 'r', '_'],
        "updir_"@ == seq!['u', 'p', 'd', 'i', 'r', '_'],
        "toggle_"@ == seq!['t', 'o', 'g', 'g', 'l', 'e', '_'],
        "execsingle_"@ == seq!['e', 'x', 'e', 'c', 's', 'i', 'n', 'g', 'l', 'e', '_'],
        "execbatch_"@ == seq!['e', 'x', 'e', 'c', 'b', 'a', 't', 'c', 'h', '_'],
{
    reveal_strlit("menu_main");
    reveal_strlit("cancel_delete");
    reveal_strlit("confirm_delete");
    reveal_strlit("init_");
    reveal_strlit("menu_");
    reveal_strlit("enterdir_");
    reveal_strlit("updir_");
    reveal_strlit("toggle_");
    reveal_strlit("execsingle_");
    reveal_strlit("execbatch_");
    assert("init_"@ =~= seq!['i', 'n', 'i', 't', '_']);
    assert("menu_"@ =~= seq!['m', 'e', 'n', 'u', '_']);
    assert("enterdir_"@ =~= seq!['e', 'n', 't', 'e', 'r', 'd', 'i', 'r', '_']);
    assert("updir_"@ =~= seq!['u', 'p', 'd', 'i', 'r', '_']);
    assert("toggle_"@ =~= seq!['t', 'o', 'g', 'g', 'l', 'e', '_']);
    assert("execsingle_"@ =~= seq!['e', 'x', 'e', 'c', 's', 'i', 'n', 'g', 'l', 'e', '_']);
    assert("execbatch_"@ =~= seq!['e', 'x', 'e', 'c', 'b', 'a', 't', 'c', 'h', '_']);
}

proof fn lemma_page_route(a: ActionType, page: nat)
    requires
        page <= usize::MAX,
    ensures
        callback_route(page_data(a, page)) == Ok::<CallbackRoute, Seq<char>>(CallbackRoute::Menu { action: a, page: page as usize }),
{
    lemma_fixed_literals();
    lemma_name_plain(a);
    let name = action_name(a);
    let d = page_data(a, page);
    assert(d[0] == 'm' && d[5] == name[0]);
    lemma_not_prefix(d, "menu_main"@, 5);
    lemma_not_prefix(d, "cancel_delete"@, 0);
    lemma_not_prefix(d, "confirm_delete"@, 0);
    lemma_not_prefix(d, "init_"@, 0);
    assert(d.take(5) =~= "menu_"@);
    assert(d.skip(5) =~= name + seq!['_'] + decimal(page));
    lemma_one_number(a, page, 0);
}

proof fn lemma_enter_route(a: ActionType, idx: nat)
    requires
        idx <= usize::MAX,
    ensures
        callback_route(enter_data(a, idx)) == Ok::<CallbackRoute, Seq<char>>(CallbackRoute::EnterDir { action: a, idx: idx as usize }),
{
    lemma_fixed_literals();
    lemma_name_plain(a);
    let name = action_name(a);
    let d = enter_data(a, idx);
    assert(d[0] == 'e');
    lemma_not_prefix(d, "menu_main"@, 0);
    lemma_not_prefix(d, "cancel_delete"@, 0);
    lemma_not_prefix(d, "confirm_delete"@, 0);
    lemma_not_prefix(d, "init_"@, 0);
    lemma_not_prefix(d, "menu_"@, 0);
    assert(d.take(9) =~= "enterdir_"@);
    assert(d.skip(9) =~= name + seq!['_'] + decimal(idx));
    lemma_one_number(a, idx, 1);
}

proof fn lemma_toggle_route(a: ActionType, idx: nat, page: nat)
    requires
        idx <= usize::MAX,
        page <= usize::MAX,
    ensures
        callback_route(toggle_data(a, idx, page)) == Ok::<CallbackRoute, Seq<char>>(
            CallbackRoute::Toggle { action: a, idx: idx as usize, page: page as usize },
        ),
{
    lemma_fixed_literals();
    lemma_name_plain(a);
    let name = action_name(a);
    let d = toggle_data(a, idx, page);
    assert(d[0] == 't');
    lemma_not_prefix(d, "menu_main"@, 0);
    lemma_not_prefix(d, "cancel_delete"@, 0);
    lemma_not_prefix(d, "confirm_delete"@, 0);
    lemma_not_prefix(d, "init_"@, 0);
    lemma_not_prefix(d, "menu_"@, 0);
    lemma_not_prefix(d, "enterdir_"@, 0);
    lemma_not_prefix(d, "updir_"@, 0);
    assert(d.take(7) =~= "toggle_"@);
    assert(d.skip(7) =~= name + seq!['_'] + decimal(idx) + seq!['_'] + decimal(page));
    lemma_two_numbers(a, idx, page);
}

proof fn lemma_single_route(a: ActionType, idx: nat)
    requires
        idx <= usize::MAX,
    ensures
        callback_route(single_data(a, idx)) == Ok::<CallbackRoute, Seq<char>>(CallbackRoute::ExecSingle { action: a, idx: idx as usize }),
{
    lemma_fixed_literals();
    lemma_name_plain(a);
    let name = action_name(a);
    let d = single_data(a, idx);
    assert(d[0] == 'e' && d[1] == 'x');
    lemma_not_prefix(d, "menu_main"@, 0);
    lemma_not_prefix(d, "cancel_delete"@, 0);
    lemma_not_prefix(d, "confirm_delete"@, 0);
    lemma_not_prefix(d, "init_"@, 0);
    lemma_not_prefix(d, "menu_"@, 0);
    lemma_not_prefix(d, "enterdir_"@, 1);
    lemma_not_prefix(d, "updir_"@, 0);
    lemma_not_prefix(d, "toggle_"@, 0);
    assert(d.take(11) =~= "execsingle_"@);
    assert(d.skip(11) =~= name + seq!['_'] + decimal(idx));
    lemma_one_number(a, idx, 2);
}

proof fn lemma_action_only_routes(a: ActionType)
    ensures
        callback_route(init_data(a)) == Ok::<CallbackRoute, Seq<char>>(CallbackRoute::Init { action: a }),
        callback_route(updir_data(a)) == Ok::<CallbackRoute, Seq<char>>(CallbackRoute::UpDir { action: a }),
        callback_route(batch_data(a)) == Ok::<CallbackRoute, Seq<char>>(CallbackRoute::ExecBatch { action: a }),
{
    lemma_fixed_literals();
    lemma_name_plain(a);
    lemma_action_name_roundtrip(a, action_name(a));
    let name = action_name(a);
    let i = init_data(a);
    assert(i[0] == 'i');
    lemma_not_prefix(i, "menu_main"@, 0);
    lemma_not_prefix(i, "cancel_delete"@, 0);
    lemma_not_prefix(i, "confirm_delete"@, 0);
    assert(i.take(5) =~= "init_"@);
    assert(i.skip(5) =~= name);
    let u = updir_data(a);
    assert(u[0] == 'u');
    lemma_not_prefix(u, "menu_main"@, 0);
    lemma_not_prefix(u, "cancel_delete"@, 0);
    lemma_not_prefix(u, "confirm_delete"@, 0);
    lemma_not_prefix(u, "init_"@, 0);
    lemma_not_prefix(u, "menu_"@, 0);
    lemma_not_prefix(u, "enterdir_"@, 0);
    assert(u.take(6) =~= "updir_"@);
    assert(u.skip(6) =~= name);
    let b = batch_data(a);
    assert(b[0] == 'e' && b[1] == 'x' && b[4] == 'b');
    lemma_not_prefix(b, "menu_main"@, 0);
    lemma_not_prefix(b, "cancel_delete"@, 0);
    lemma_not_prefix(b, "confirm_delete"@, 0);
    lemma_not_prefix(b, "init_"@, 0);
    lemma_not_prefix(b, "menu_"@, 0);
    lemma_not_prefix(b, "enterdir_"@, 1);
    lemma_not_prefix(b, "updir_"@, 0);
    lemma_not_prefix(b, "toggle_"@, 0);
    lemma_not_prefix(b, "execsingle_"@, 4);
    assert(b.take(10) =~= "execbatch_"@);
    assert(b.skip(10) =~= name);
}

/// Every button the selector and its keyboard show sends data that is read back as what
/// the button stands for: its page, its entry, its toggle, its single action, or its
/// action's start, way up and batch.
pub proof fn lemma_selector_data_routes(a: ActionType, idx: nat, page: nat)
    requires
        idx <= usize::MAX,
        page <= usize::MAX,
    ensures
        callback_route(page_data(a, page)) == Ok::<CallbackRoute, Seq<char>>(CallbackRoute::Menu { action: a, page: page as usize }),
        callback_route(enter_data(a, idx)) == Ok::<CallbackRoute, Seq<char>>(CallbackRoute::EnterDir { action: a, idx: idx as usize }),
        callback_route(toggle_data(a, idx, page)) == Ok::<CallbackRoute, Seq<char>>(
            CallbackRoute::Toggle { action: a, idx: idx as usize, page: page as usize },
        ),
        callback_route(single_data(a, idx)) == Ok::<CallbackRoute, Seq<char>>(CallbackRoute::ExecSingle { action: a, idx: idx as usize }),
        callback_route(init_data(a)) == Ok::<CallbackRoute, Seq<char>>(CallbackRoute::Init { action: a }),
        callback_route(updir_data(a)) == Ok::<CallbackRoute, Seq<char>>(CallbackRoute::UpDir { action: a }),
        callback_route(batch_data(a)) == Ok::<CallbackRoute, Seq<char>>(CallbackRoute::ExecBatch { action: a }),
{
    lemma_page_route(a, page);
    lemma_enter_route(a, idx);
    lemma_toggle_route(a, idx, page);
    lemma_single_route(a, idx);
    lemma_action_only_routes(a);
}

} // verus!
