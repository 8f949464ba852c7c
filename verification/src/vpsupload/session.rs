//! A user's browsing session, the callbacks that change it, and the task board.
use vstd::prelude::*;
use std::collections::HashSet;
use crate::paths::{join, join_chars, parent, parent_chars, path_starts_with, starts_with_path};
use crate::media_control::state::toggled;
use crate::text::{parse_unsigned, parse_unsigned_chars, chars_of, push_str, split_chars, split_on, starts_with, str_eq, string_of, usize_or_zero, parse_usize_or_zero, has_prefix, sub_chars};

verus! {

broadcast use vstd::std_specs::hash::group_hash_axioms;

/// One user's place in the file tree and what they chose.
pub struct UserSession {
    /// Directory being browsed.
    pub current_dir: String,
    /// Names listed in it, by index.
    pub current_files: Vec<String>,
    /// Chosen indices, per action.
    pub selected_youtube: HashSet<usize>,
    pub selected_concat: HashSet<usize>,
    pub selected_convert: HashSet<usize>,
    pub selected_delete: HashSet<usize>,
    /// Files awaiting the delete confirmation.
    pub pending_delete_files: Vec<String>,
    /// Progress bar theme: 0 blocks, 1 fruit, 2 thin line.
    pub progress_bar_theme: usize,
}

/// Which set an action key chooses into: `concat`, `convert` and `delete` have their own,
/// every other key shares the upload set.
pub open spec fn slot_index(action: Seq<char>) -> nat {
    if action == "concat"@ {
        1
    } else if action == "convert"@ {
        2
    } else if action == "delete"@ {
        3
    } else {
        0
    }
}

impl UserSession {
    /// The set chosen into by slot `k` (see `slot_index`); slots above 3 are the upload set.
    pub open spec fn slot(&self, k: nat) -> HashSet<usize> {
        if k == 1 {
            self.selected_concat
        } else if k == 2 {
            self.selected_convert
        } else if k == 3 {
            self.selected_delete
        } else {
            self.selected_youtube
        }
    }

    /// A fresh session at `default_dir`: nothing listed or chosen, the first theme.
    pub fn new(default_dir: &str) -> (s: Self)
        ensures
            s.current_dir@ == default_dir@,
            s.current_files@.len() == 0,
            forall|k: nat| (#[trigger] s.slot(k))@ == Set::<usize>::empty(),
            s.pending_delete_files@.len() == 0,
            s.progress_bar_theme == 0,
    {
        UserSession {
            current_dir: default_dir.to_owned(),
            current_files: Vec::new(),
            selected_youtube: HashSet::new(),
            selected_concat: HashSet::new(),
            selected_convert: HashSet::new(),
            selected_delete: HashSet::new(),
            pending_delete_files: Vec::new(),
            progress_bar_theme: 0,
        }
    }

    /// The set of indices chosen for `action`, to read or change.
    pub fn get_selected(&mut self, action: &str) -> (r: &mut HashSet<usize>)
        ensures
            *r == old(self).slot(slot_index(action@)),
            final(self).slot(slot_index(action@)) == *final(r),
            final(self).current_dir == old(self).current_dir,
            final(self).current_files == old(self).current_files,
            final(self).pending_delete_files == old(self).pending_delete_files,
            final(self).progress_bar_theme == old(self).progress_bar_theme,
            forall|j: nat| j < 4 && j != slot_index(action@) ==> #[trigger] final(self).slot(j) == old(self).slot(j),
    {
        proof {
            reveal_strlit("concat");
            reveal_strlit("convert");
            reveal_strlit("delete");
            assert("concat"@[3] != "convert"@[3]);
            assert("delete"@[0] != "concat"@[0] && "delete"@[0] != "convert"@[0]);
        }
        if str_eq(action, "concat") {
            &mut self.selected_concat
        } else if str_eq(action, "convert") {
            &mut self.selected_convert
        } else if str_eq(action, "delete") {
            &mut self.selected_delete
        } else {
            &mut self.selected_youtube
        }
    }

    /// Forgets every choice and the pending deletion.
    pub fn clear_all_selected(&mut self)
        ensures
            forall|k: nat| (#[trigger] final(self).slot(k))@ == Set::<usize>::empty(),
            final(self).pending_delete_files@.len() == 0,
            final(self).current_dir == old(self).current_dir,
            final(self).current_files == old(self).current_files,
            final(self).progress_bar_theme == old(self).progress_bar_theme,
    {
        self.selected_youtube.clear();
        self.selected_concat.clear();
        self.selected_convert.clear();
        self.selected_delete.clear();
        self.pending_delete_files = Vec::new();
    }
}


// ── callbacks ───────────────────────────────────────────────────────────────

/// What a callback asks for, as read from its data.
#[derive(Debug)]
pub enum VpRoute {
    MainMenu,
    Init { action: String },
    Menu { action: String, page: usize },
    EnterDir { action: String, idx: usize },
    UpDir { action: String },
    Toggle { action: String, idx: usize, page: usize },
    ExecSingle { action: String, idx: usize },
    ExecBatch { action: String },
    ConfirmDelete,
    CancelDelete,
    Ignored,
}

/// A route with its texts as sequences.
pub enum RouteView {
    MainMenu,
    Init(Seq<char>),
    Menu(Seq<char>, usize),
    EnterDir(Seq<char>, usize),
    UpDir(Seq<char>),
    Toggle(Seq<char>, usize, usize),
    ExecSingle(Seq<char>, usize),
    ExecBatch(Seq<char>),
    ConfirmDelete,
    CancelDelete,
    Ignored,
}

/// The plain form of a route.
pub open spec fn route_view(r: VpRoute) -> RouteView {
    match r {
        VpRoute::MainMenu => RouteView::MainMenu,
        VpRoute::Init { action } => RouteView::Init(action@),
        VpRoute::Menu { action, page } => RouteView::Menu(action@, page),
        VpRoute::EnterDir { action, idx } => RouteView::EnterDir(action@, idx),
        VpRoute::UpDir { action } => RouteView::UpDir(action@),
        VpRoute::Toggle { action, idx, page } => RouteView::Toggle(action@, idx, page),
        VpRoute::ExecSingle { action, idx } => RouteView::ExecSingle(action@, idx),
        VpRoute::ExecBatch { action } => RouteView::ExecBatch(action@),
        VpRoute::ConfirmDelete => RouteView::ConfirmDelete,
        VpRoute::CancelDelete => RouteView::CancelDelete,
        VpRoute::Ignored => RouteView::Ignored,
    }
}

/// The callback data has the `_`-separated parts its prefix reads: three for page,
/// directory and single-file data, four for toggles.
pub open spec fn callback_complete(data: Seq<char>) -> bool {
    let n = split_on(data, '_').len();
    if data == "menu_main"@ || starts_with(data, "init_"@) {
        true
    } else if starts_with(data, "menu_"@) || starts_with(data, "enterdir_"@) {
        n >= 3
    } else if starts_with(data, "updir_"@) {
        true
    } else if starts_with(data, "toggle_"@) {
        n >= 4
    } else if starts_with(data, "execsingle_"@) {
        n >= 3
    } else {
        true
    }
}

/// The route of callback data: prefixes are tried in order; parts are split at `_`,
/// numbers that do not parse count as 0.
pub open spec fn vp_route(data: Seq<char>) -> RouteView {
    let parts = split_on(data, '_');
    if data == "menu_main"@ {
        RouteView::MainMenu
    } else if starts_with(data, "init_"@) {
        RouteView::Init(data.skip(5))
    } else if starts_with(data, "menu_"@) {
        RouteView::Menu(parts[1], usize_or_zero(parts[2]))
    } else if starts_with(data, "enterdir_"@) {
        RouteView::EnterDir(parts[1], usize_or_zero(parts[2]))
    } else if starts_with(data, "updir_"@) {
        RouteView::UpDir(data.skip(6))
    } else if starts_with(data, "toggle_"@) {
        RouteView::Toggle(parts[1], usize_or_zero(parts[2]), usize_or_zero(parts[3]))
    } else if starts_with(data, "execsingle_"@) {
        RouteView::ExecSingle(parts[1], usize_or_zero(parts[2]))
    } else if starts_with(data, "execbatch_"@) {
        RouteView::ExecBatch(data.skip(10))
    } else if data == "confirm_delete"@ {
        RouteView::ConfirmDelete
    } else if data == "cancel_delete"@ {
        RouteView::CancelDelete
    } else {
        RouteView::Ignored
    }
}

fn begins(d: &[char], p: &str) -> (r: bool)
    ensures
        r == starts_with(d@, p@),
{
    let pc = chars_of(p);
    has_prefix(d, pc.as_slice())
}

/// Whether callback data has the parts its prefix reads.
pub fn is_callback_complete(data: &str) -> (r: bool)
    ensures
        r == callback_complete(data@),
{
    let d = chars_of(data);
    let n = split_chars(d.as_slice(), '_').len();
    if str_eq(data, "menu_main") || begins(d.as_slice(), "init_") {
        true
    } else if begins(d.as_slice(), "menu_") || begins(d.as_slice(), "enterdir_") {
        n >= 3
    } else if begins(d.as_slice(), "updir_") {
        true
    } else if begins(d.as_slice(), "toggle_") {
        n >= 4
    } else if begins(d.as_slice(), "execsingle_") {
        n >= 3
    } else {
        true
    }
}

fn text_after(d: &[char], k: usize) -> (r: String)
    requires
        k <= d@.len(),
    ensures
        r@ == d@.skip(k as int),
{
    let v = sub_chars(d, k, d.len());
    assert(v@ =~= d@.skip(k as int));
    string_of(v.as_slice())
}

/// Reads callback data whose parts are complete (see `is_callback_complete`).
pub fn parse_vp_callback(data: &str) -> (r: VpRoute)
    requires
        callback_complete(data@),
    ensures
        route_view(r) == vp_route(data@),
{
    let d = chars_of(data);
    let parts = split_chars(d.as_slice(), '_');
    proof {
        reveal_strlit("init_");
        reveal_strlit("updir_");
        reveal_strlit("execbatch_");
    }
    if str_eq(data, "menu_main") {
        VpRoute::MainMenu
    } else if begins(d.as_slice(), "init_") {
        VpRoute::Init { action: text_after(d.as_slice(), 5) }
    } else if begins(d.as_slice(), "menu_") {
        VpRoute::Menu { action: string_of(parts[1].as_slice()), page: parse_usize_or_zero(parts[2].as_slice()) }
    } else if begins(d.as_slice(), "enterdir_") {
        VpRoute::EnterDir { action: string_of(parts[1].as_slice()), idx: parse_usize_or_zero(parts[2].as_slice()) }
    } else if begins(d.as_slice(), "updir_") {
        VpRoute::UpDir { action: text_after(d.as_slice(), 6) }
    } else if begins(d.as_slice(), "toggle_") {
        VpRoute::Toggle {
            action: string_of(parts[1].as_slice()),
            idx: parse_usize_or_zero(parts[2].as_slice()),
            page: parse_usize_or_zero(parts[3].as_slice()),
        }
    } else if begins(d.as_slice(), "execsingle_") {
        VpRoute::ExecSingle { action: string_of(parts[1].as_slice()), idx: parse_usize_or_zero(parts[2].as_slice()) }
    } else if begins(d.as_slice(), "execbatch_") {
        VpRoute::ExecBatch { action: text_after(d.as_slice(), 10) }
    } else if str_eq(data, "confirm_delete") {
        VpRoute::ConfirmDelete
    } else if str_eq(data, "cancel_delete") {
        VpRoute::CancelDelete
    } else {
        VpRoute::Ignored
    }
}

/// What the upload bot does with a button press.
#[derive(Debug)]
pub enum VpPress {
    /// Nothing: the press is not the admin's, or its data is incomplete.
    Ignored,
    /// Shows the progress bar skins.
    SkinMenu,
    /// Sets the user's progress bar skin.
    SetSkin { theme: usize },
    /// A browsing or task callback.
    Route(VpRoute),
}

/// The skin that `set_skin_{n}` data chooses.
pub open spec fn set_skin_theme(data: Seq<char>) -> Option<usize> {
    if starts_with(data, "set_skin_"@) {
        match parse_unsigned(data.skip(9)) {
            Some(n) => if n <= usize::MAX { Some(n as usize) } else { None },
            None => None,
        }
    } else {
        None
    }
}

/// Reads a button press: only the admin's presses count; the skin menu and skin choices
/// come first, then callback data whose parts are complete is routed.
pub fn route_vp_press(from_admin: bool, data: &str) -> (r: VpPress)
    ensures
        !from_admin ==> (r is Ignored),
        from_admin && data@ == "menu_skin_settings"@ ==> (r is SkinMenu),
        from_admin && data@ != "menu_skin_settings"@ && set_skin_theme(data@) is Some ==> (r
            == VpPress::SetSkin { theme: set_skin_theme(data@)->0 }),
        from_admin && data@ != "menu_skin_settings"@ && set_skin_theme(data@) is None ==> ({
            &&& callback_complete(data@) ==> (r matches VpPress::Route(v) && route_view(v) == vp_route(data@))
            &&& !callback_complete(data@) ==> (r is Ignored)
        }),
{
    if !from_admin {
        return VpPress::Ignored;
    }
    if str_eq(data, "menu_skin_settings") {
        return VpPress::SkinMenu;
    }
    let d = chars_of(data);
    proof {
        reveal_strlit("set_skin_");
    }
    if begins(d.as_slice(), "set_skin_") {
        let rest = sub_chars(d.as_slice(), 9, d.len());
        assert(rest@ =~= data@.skip(9));
        match parse_unsigned_chars(rest.as_slice(), usize::MAX as u64) {
            Some(n) => {
                return VpPress::SetSkin { theme: n as usize };
            },
            None => {},
        }
    }
    if !is_callback_complete(data) {
        return VpPress::Ignored;
    }
    VpPress::Route(parse_vp_callback(data))
}

/// The path of the `idx`-th listed entry, when there is one.
pub open spec fn entry_path(s: UserSession, idx: int) -> Option<Seq<char>> {
    if 0 <= idx < s.current_files@.len() {
        Some(join(s.current_dir@, s.current_files@[idx]@))
    } else {
        None
    }
}

/// The paths of the chosen entries that are listed, in index order.
pub open spec fn chosen_paths(s: UserSession, chosen: Set<usize>, upto: int) -> Seq<Seq<char>>
    decreases upto,
{
    if upto <= 0 {
        Seq::empty()
    } else {
        let rest = chosen_paths(s, chosen, upto - 1);
        if upto - 1 < s.current_files@.len() && chosen.contains((upto - 1) as usize) {
            rest.push(join(s.current_dir@, s.current_files@[upto - 1]@))
        } else {
            rest
        }
    }
}

impl UserSession {
    /// Opens the selector for `action` at `base_dir`, forgetting the action's choices.
    pub fn init_action(&mut self, action: &str, base_dir: &str)
        ensures
            final(self).current_dir@ == base_dir@,
            final(self).slot(slot_index(action@))@ == Set::<usize>::empty(),
            final(self).current_files == old(self).current_files,
            forall|j: nat| j < 4 && j != slot_index(action@) ==> #[trigger] final(self).slot(j) == old(self).slot(j),
    {
        self.current_dir = base_dir.to_owned();
        self.get_selected(action).clear();
    }

    /// Enters the `idx`-th listed entry when there is one, forgetting the action's choices.
    pub fn enter_dir(&mut self, action: &str, idx: usize)
        ensures
            entry_path(*old(self), idx as int) matches Some(p) ==> {
                &&& final(self).current_dir@ == p
                &&& final(self).slot(slot_index(action@))@ == Set::<usize>::empty()
                &&& forall|j: nat| j < 4 && j != slot_index(action@) ==> #[trigger] final(self).slot(j) == old(self).slot(j)
                &&& final(self).current_files == old(self).current_files
            },
            entry_path(*old(self), idx as int) is None ==> *final(self) == *old(self),
    {
        if idx < self.current_files.len() {
            let j = join_chars(chars_of(self.current_dir.as_str()).as_slice(), chars_of(self.current_files[idx].as_str()).as_slice());
            self.current_dir = string_of(j.as_slice());
            self.get_selected(action).clear();
        }
    }

    /// Goes to the parent directory when it lies at or below `base_dir`; the action's
    /// choices are forgotten either way.
    pub fn up_dir(&mut self, action: &str, base_dir: &str)
        ensures
            (match parent(old(self).current_dir@) {
                Some(p) => if path_starts_with(p, base_dir@) {
                    final(self).current_dir@ == p
                } else {
                    final(self).current_dir == old(self).current_dir
                },
                None => final(self).current_dir == old(self).current_dir,
            }),
            final(self).slot(slot_index(action@))@ == Set::<usize>::empty(),
            forall|j: nat| j < 4 && j != slot_index(action@) ==> #[trigger] final(self).slot(j) == old(self).slot(j),
            final(self).current_files == old(self).current_files,
    {
        match parent_chars(chars_of(self.current_dir.as_str()).as_slice()) {
            Some(p) => {
                if starts_with_path(p.as_slice(), chars_of(base_dir).as_slice()) {
                    self.current_dir = string_of(p.as_slice());
                }
            },
            None => {},
        }
        self.get_selected(action).clear();
    }

    /// Chooses entry `idx` for `action`, or unchooses it when chosen.
    pub fn toggle(&mut self, action: &str, idx: usize)
        ensures
            old(self).slot(slot_index(action@))@.contains(idx) ==> final(self).slot(slot_index(action@))@
                == old(self).slot(slot_index(action@))@.remove(idx),
            !old(self).slot(slot_index(action@))@.contains(idx) ==> final(self).slot(slot_index(action@))@
                == old(self).slot(slot_index(action@))@.insert(idx),
            final(self).slot(slot_index(action@))@ == toggled(old(self).slot(slot_index(action@))@, idx),
            forall|j: nat| j < 4 && j != slot_index(action@) ==> #[trigger] final(self).slot(j) == old(self).slot(j),
            final(self).current_dir == old(self).current_dir,
            final(self).current_files == old(self).current_files,
    {
        let set = self.get_selected(action);
        if set.contains(&idx) {
            set.remove(&idx);
        } else {
            set.insert(idx);
        }
    }

    /// The path of the `idx`-th listed entry.
    pub fn single_path(&self, idx: usize) -> (r: Option<String>)
        ensures
            r matches Some(p) ==> entry_path(*self, idx as int) == Some(p@),
            r is None ==> entry_path(*self, idx as int) is None,
    {
        if idx < self.current_files.len() {
            let j = join_chars(chars_of(self.current_dir.as_str()).as_slice(), chars_of(self.current_files[idx].as_str()).as_slice());
            Some(string_of(j.as_slice()))
        } else {
            None
        }
    }

    /// The set of indices chosen for `action`, to read.
    pub fn selected_ref(&self, action: &str) -> (r: &HashSet<usize>)
        ensures
            *r == self.slot(slot_index(action@)),
    {
        proof {
            reveal_strlit("concat");
            reveal_strlit("convert");
            reveal_strlit("delete");
            assert("concat"@[3] != "convert"@[3]);
            assert("delete"@[0] != "concat"@[0] && "delete"@[0] != "convert"@[0]);
        }
        if str_eq(action, "concat") {
            &self.selected_concat
        } else if str_eq(action, "convert") {
            &self.selected_convert
        } else if str_eq(action, "delete") {
            &self.selected_delete
        } else {
            &self.selected_youtube
        }
    }

    /// The paths of the listed entries chosen for `action`, in index order.
    pub fn batch_paths(&self, action: &str) -> (r: Vec<String>)
        ensures
            r@.map_values(|s: String| s@) == chosen_paths(*self, self.slot(slot_index(action@))@, self.current_files@.len() as int),
    {
        let n = self.current_files.len();
        let dir = chars_of(self.current_dir.as_str());
        let set = self.selected_ref(action);
        let ghost chosen = set@;
        let mut out: Vec<String> = Vec::new();
        let mut i: usize = 0;
        while i < n
            invariant
                i <= n,
                n == self.current_files@.len(),
                dir@ == self.current_dir@,
                set@ == chosen,
                chosen == self.slot(slot_index(action@))@,
                out@.map_values(|s: String| s@) == chosen_paths(*self, chosen, i as int),
            decreases n - i,
        {
            let ghost before = out@;
            if set.contains(&i) {
                let j = join_chars(dir.as_slice(), chars_of(self.current_files[i].as_str()).as_slice());
                out.push(string_of(j.as_slice()));
                assert(out@.map_values(|s: String| s@) =~= before.map_values(|s: String| s@).push(j@));
            }
            i = i + 1;
        }
        out
    }
}

} // verus!
