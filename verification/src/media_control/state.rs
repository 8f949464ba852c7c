//! The panel's state: the exclusive task slot, the upload pool and file selections.
//!
//! Running work (spawned tasks, processes, timers) lives with the caller; this state
//! holds what the decisions read: names, whether a task has finished, the chosen files.
use vstd::prelude::*;
use crate::media_control::errors::AppError;
use crate::text::{chars_eq, chars_of, str_eq};

verus! {

/// The operation a file selector is opened for.
#[derive(Debug, Clone, Copy, Hash, PartialEq, Eq, Structural)]
pub enum ActionType {
    /// Show file details.
    Browse,
    /// Stream one file over RTMP.
    Stream,
    /// Upload files to YouTube.
    Youtube,
    /// Merge files.
    Concat,
    /// Remux files to MP4.
    Convert,
    /// Delete files.
    Delete,
}

/// The callback name of an action.
pub open spec fn action_name(a: ActionType) -> Seq<char> {
    match a {
        ActionType::Browse => "browse"@,
        ActionType::Stream => "stream"@,
        ActionType::Youtube => "youtube"@,
        ActionType::Concat => "concat"@,
        ActionType::Convert => "convert"@,
        ActionType::Delete => "delete"@,
    }
}

/// The action a callback name denotes.
pub open spec fn action_from_name(s: Seq<char>) -> Option<ActionType> {
    if s == "browse"@ {
        Some(ActionType::Browse)
    } else if s == "stream"@ {
        Some(ActionType::Stream)
    } else if s == "youtube"@ {
        Some(ActionType::Youtube)
    } else if s == "concat"@ {
        Some(ActionType::Concat)
    } else if s == "convert"@ {
        Some(ActionType::Convert)
    } else if s == "delete"@ {
        Some(ActionType::Delete)
    } else {
        None
    }
}

/// The label of an action shown to the user.
pub open spec fn action_display_name(a: ActionType) -> Seq<char> {
    match a {
        ActionType::Browse => "浏览与查看详情"@,
        ActionType::Stream => "推流"@,
        ActionType::Youtube => "上传 YT"@,
        ActionType::Concat => "合并"@,
        ActionType::Convert => "转码 MP4"@,
        ActionType::Delete => "删除"@,
    }
}

/// Actions that work on a set of chosen files.
pub open spec fn action_is_multi_select(a: ActionType) -> bool {
    a == ActionType::Youtube || a == ActionType::Concat || a == ActionType::Convert || a
        == ActionType::Delete
}

impl ActionType {
    /// Parses a callback name.
    pub fn from_str(s: &str) -> (r: Option<Self>)
        ensures
            r == action_from_name(s@),
    {
        if str_eq(s, "browse") {
            Some(ActionType::Browse)
        } else if str_eq(s, "stream") {
            Some(ActionType::Stream)
        } else if str_eq(s, "youtube") {
            Some(ActionType::Youtube)
        } else if str_eq(s, "concat") {
            Some(ActionType::Concat)
        } else if str_eq(s, "convert") {
            Some(ActionType::Convert)
        } else if str_eq(s, "delete") {
            Some(ActionType::Delete)
        } else {
            None
        }
    }

    /// The callback name.
    pub fn as_str(&self) -> (s: &'static str)
        ensures
            s@ == action_name(*self),
    {
        match self {
            ActionType::Browse => "browse",
            ActionType::Stream => "stream",
            ActionType::Youtube => "youtube",
            ActionType::Concat => "concat",
            ActionType::Convert => "convert",
            ActionType::Delete => "delete",
        }
    }

    /// The label shown to the user.
    pub fn display_name(&self) -> (s: &'static str)
        ensures
            s@ == action_display_name(*self),
    {
        match self {
            ActionType::Browse => "浏览与查看详情",
            ActionType::Stream => "推流",
            ActionType::Youtube => "上传 YT",
            ActionType::Concat => "合并",
            ActionType::Convert => "转码 MP4",
            ActionType::Delete => "删除",
        }
    }

    /// Whether the action works on a set of chosen files.
    pub fn is_multi_select(&self) -> (b: bool)
        ensures
            b == action_is_multi_select(*self),
    {
        match self {
            ActionType::Youtube | ActionType::Concat | ActionType::Convert | ActionType::Delete => true,
            _ => false,
        }
    }
}

/// Parsing a printed action name gives the action back, and a name parses to an
/// action only if it is that action's printed name.
pub proof fn lemma_action_name_roundtrip(a: ActionType, s: Seq<char>)
    ensures
        action_from_name(action_name(a)) == Some(a),
        action_from_name(s) == Some(a) ==> action_name(a) == s,
{
    reveal_strlit("browse");
    reveal_strlit("stream");
    reveal_strlit("youtube");
    reveal_strlit("concat");
    reveal_strlit("convert");
    reveal_strlit("delete");
    let b = "browse"@;
    let st = "stream"@;
    let y = "youtube"@;
    let c = "concat"@;
    let cv = "convert"@;
    let d = "delete"@;
    assert(b[0] == 'b' && st[0] == 's' && y[0] == 'y' && c[0] == 'c' && cv[0] == 'c' && d[0] == 'd');
    assert(c[2] == 'n' && cv[2] == 'n' && c.len() == 6 && cv.len() == 7);
    assert(st != b);
    assert(y != b && y != st);
    assert(c != b && c != st && c != y);
    assert(cv != b && cv != st && cv != y && cv != c);
    assert(d != b && d != st && d != y && d != c && d != cv);
}

// ── the exclusive task slot and the upload pool ─────────────────────────────

/// The exclusive task (stream, merge, remux or delete) that holds the slot.
pub struct TaskInfo {
    /// Name shown to the user.
    pub name: String,
    /// Whether the task's work has ended.
    pub finished: bool,
}

/// The state of an upload's worker.
pub struct UploadHandle {
    /// Whether the worker has ended.
    pub finished: bool,
}

/// An upload in the pool.
pub struct UploadTask {
    /// File name shown to the user.
    pub filename: String,
    /// Full path of the file.
    pub path: String,
    /// Status text.
    pub status: String,
    /// Progress in percent.
    pub progress: u32,
    /// Whether cancellation has been requested.
    pub cancel_requested: bool,
    /// The worker, once one has been started.
    pub handle: Option<UploadHandle>,
}

/// An upload together with its id.
pub struct UploadEntry {
    /// The pool key.
    pub task_id: String,
    /// The upload.
    pub task: UploadTask,
}

/// An upload whose worker exists and has not ended.
pub open spec fn upload_running(t: UploadTask) -> bool {
    t.handle matches Some(h) && !h.finished
}

/// Number of running uploads.
pub open spec fn running_count(pool: Seq<UploadEntry>) -> nat
    decreases pool.len(),
{
    if pool.len() == 0 {
        0
    } else {
        running_count(pool.drop_last()) + if upload_running(pool.last().task) { 1nat } else { 0nat }
    }
}

/// The running uploads, in order.
pub open spec fn running_only(pool: Seq<UploadEntry>) -> Seq<UploadEntry>
    decreases pool.len(),
{
    if pool.len() == 0 {
        Seq::empty()
    } else {
        let r = running_only(pool.drop_last());
        if upload_running(pool.last().task) { r.push(pool.last()) } else { r }
    }
}

proof fn lemma_running_only_count(pool: Seq<UploadEntry>)
    requires
        forall|i: int| 0 <= i < pool.len() ==> upload_running(#[trigger] pool[i].task),
    ensures
        running_count(pool) == pool.len(),
    decreases pool.len(),
{
    if pool.len() > 0 {
        lemma_running_only_count(pool.drop_last());
    }
}

proof fn lemma_running_only_all_running(pool: Seq<UploadEntry>)
    ensures
        forall|i: int| 0 <= i < running_only(pool).len() ==> upload_running(#[trigger] running_only(pool)[i].task),
        running_only(pool).len() == running_count(pool),
    decreases pool.len(),
{
    if pool.len() > 0 {
        lemma_running_only_all_running(pool.drop_last());
    }
}

/// The pool without the uploads keyed `id`.
pub open spec fn without_id(pool: Seq<UploadEntry>, id: Seq<char>) -> Seq<UploadEntry>
    decreases pool.len(),
{
    if pool.len() == 0 {
        Seq::empty()
    } else {
        let r = without_id(pool.drop_last(), id);
        if pool.last().task_id@ == id { r } else { r.push(pool.last()) }
    }
}

/// The text of each path in a list.
pub open spec fn path_texts(v: Seq<String>) -> Seq<Seq<char>> {
    v.map_values(|p: String| p@)
}

/// `s` with `x` removed when present, added when absent.
pub open spec fn toggled<T>(s: Set<T>, x: T) -> Set<T> {
    if s.contains(x) { s.remove(x) } else { s.insert(x) }
}

/// Toggling the same element twice gives the set back.
pub proof fn lemma_toggle_twice<T>(s: Set<T>, x: T)
    ensures
        toggled(toggled(s, x), x) == s,
{
    if s.contains(x) {
        assert(s.remove(x).insert(x) =~= s);
    } else {
        assert(s.insert(x).remove(x) =~= s);
    }
}

/// The files chosen for each action; `None` when nothing has been recorded for it.
pub struct Selections {
    pub browse: Option<Vec<String>>,
    pub stream: Option<Vec<String>>,
    pub youtube: Option<Vec<String>>,
    pub concat: Option<Vec<String>>,
    pub convert: Option<Vec<String>>,
    pub delete: Option<Vec<String>>,
}

impl Selections {
    /// The record for `action`.
    pub open spec fn slot(&self, action: ActionType) -> Option<Vec<String>> {
        match action {
            ActionType::Browse => self.browse,
            ActionType::Stream => self.stream,
            ActionType::Youtube => self.youtube,
            ActionType::Concat => self.concat,
            ActionType::Convert => self.convert,
            ActionType::Delete => self.delete,
        }
    }

    /// The set of paths chosen for `action` (empty when nothing is recorded).
    pub open spec fn chosen(&self, action: ActionType) -> Set<Seq<char>> {
        match self.slot(action) {
            Some(v) => path_texts(v@).to_set(),
            None => Set::empty(),
        }
    }

    /// The paths chosen for `action`, in the order recorded.
    pub open spec fn chosen_list(&self, action: ActionType) -> Seq<Seq<char>> {
        match self.slot(action) {
            Some(v) => path_texts(v@),
            None => Seq::empty(),
        }
    }

    /// Only the record for `action` may differ between `self` and `other`.
    pub open spec fn same_except(&self, other: &Selections, action: ActionType) -> bool {
        forall|a: ActionType| a != action ==> #[trigger] self.slot(a) == other.slot(a)
    }

    /// No records.
    pub fn new() -> (s: Self)
        ensures
            forall|a: ActionType| #[trigger] s.slot(a) is None,
    {
        Selections { browse: None, stream: None, youtube: None, concat: None, convert: None, delete: None }
    }
}

/// Whether `path` is in the list.
fn list_contains(v: &Vec<String>, path: &str) -> (b: bool)
    ensures
        b == path_texts(v@).contains(path@),
{
    let p = chars_of(path);
    let mut i: usize = 0;
    while i < v.len()
        invariant
            i <= v@.len(),
            p@ == path@,
            forall|j: int| 0 <= j < i ==> v@[j]@ != path@,
        decreases v@.len() - i,
    {
        let c = chars_of(v[i].as_str());
        if chars_eq(c.as_slice(), p.as_slice()) {
            assert(path_texts(v@)[i as int] == path@);
            return true;
        }
        i = i + 1;
    }
    assert forall|j: int| 0 <= j < path_texts(v@).len() implies path_texts(v@)[j] != path@ by {
        assert(path_texts(v@)[j] == v@[j]@);
    }
    false
}

/// The list without `path`.
fn list_remove(v: Vec<String>, path: &str) -> (r: Vec<String>)
    ensures
        path_texts(r@).to_set() == path_texts(v@).to_set().remove(path@),
{
    let p = chars_of(path);
    let mut rest = v;
    let ghost all = rest@;
    let mut kept: Vec<String> = Vec::new();
    let ghost mut k: int = 0;
    while rest.len() > 0
        invariant
            0 <= k <= all.len(),
            rest@ == all.skip(k),
            p@ == path@,
            path_texts(kept@).to_set() == path_texts(all.take(k)).to_set().remove(path@),
        decreases rest@.len(),
    {
        let e = rest.remove(0);
        proof {
            assert(all.skip(k).drop_first() =~= all.skip(k + 1));
            assert(path_texts(all.take(k + 1)) =~= path_texts(all.take(k)).push(all[k]@));
            path_texts(all.take(k)).lemma_push_to_set_commute(all[k]@);
        }
        let c = chars_of(e.as_str());
        let ghost before = kept@;
        if !chars_eq(c.as_slice(), p.as_slice()) {
            kept.push(e);
            assert(path_texts(kept@) =~= path_texts(before).push(all[k]@));
            proof { path_texts(before).lemma_push_to_set_commute(all[k]@); }
            assert(path_texts(kept@).to_set() =~= path_texts(all.take(k + 1)).to_set().remove(path@));
        } else {
            assert(path_texts(kept@).to_set() =~= path_texts(all.take(k + 1)).to_set().remove(path@));
        }
        proof {
            k = k + 1;
        }
    }
    assert(all.take(k) =~= all);
    kept
}

/// Adds `path` to the record (creating it), or removes it when present.
fn toggle_slot(slot: &mut Option<Vec<String>>, path: &str)
    ensures
        *final(slot) is Some,
        ({
            let before = match *old(slot) {
                Some(v) => path_texts(v@).to_set(),
                None => Set::empty(),
            };
            let after = path_texts((*final(slot))->0@).to_set();
            &&& before.contains(path@) ==> after == before.remove(path@)
            &&& !before.contains(path@) ==> after == before.insert(path@)
        }),
{
    let mut v: Vec<String> = match slot.take() {
        Some(v) => v,
        None => Vec::new(),
    };
    assert(path_texts(Seq::<String>::empty()).to_set() =~= Set::<Seq<char>>::empty());
    if list_contains(&v, path) {
        let r = list_remove(v, path);
        *slot = Some(r);
    } else {
        let ghost before = v@;
        v.push(path.to_owned());
        assert(path_texts(v@) =~= path_texts(before).push(path@));
        proof { path_texts(before).lemma_push_to_set_commute(path@); }
        assert(path_texts(v@).to_set() =~= path_texts(before).to_set().insert(path@));
        *slot = Some(v);
    }
}

/// The entry with cancellation requested.
pub open spec fn with_cancel(e: UploadEntry) -> UploadEntry {
    UploadEntry { task_id: e.task_id, task: UploadTask { cancel_requested: true, ..e.task } }
}

/// The entry with its worker marked as ended, when it is keyed `id` and has a worker.
pub open spec fn with_finished_if(e: UploadEntry, id: Seq<char>) -> UploadEntry {
    if e.task_id@ == id && e.task.handle is Some {
        UploadEntry { task_id: e.task_id, task: UploadTask { handle: Some(UploadHandle { finished: true }), ..e.task } }
    } else {
        e
    }
}

proof fn lemma_running_count_push(pool: Seq<UploadEntry>, e: UploadEntry)
    ensures
        running_count(pool.push(e)) == running_count(pool) + if upload_running(e.task) { 1nat } else { 0nat },
{
    assert(pool.push(e).drop_last() =~= pool);
}

proof fn lemma_running_count_without(pool: Seq<UploadEntry>, id: Seq<char>)
    ensures
        running_count(without_id(pool, id)) <= running_count(pool),
    decreases pool.len(),
{
    if pool.len() > 0 {
        lemma_running_count_without(pool.drop_last(), id);
        let r = without_id(pool.drop_last(), id);
        if pool.last().task_id@ != id {
            lemma_running_count_push(r, pool.last());
        }
    }
}

/// Applying `f` to every entry cannot add running uploads when `f` never starts one.
proof fn lemma_running_count_map(pool: Seq<UploadEntry>, f: spec_fn(UploadEntry) -> UploadEntry)
    requires
        forall|e: UploadEntry| upload_running(#[trigger] f(e).task) ==> upload_running(e.task),
    ensures
        running_count(pool.map_values(f)) <= running_count(pool),
        (forall|e: UploadEntry| upload_running(#[trigger] f(e).task) == upload_running(e.task))
            ==> running_count(pool.map_values(f)) == running_count(pool),
    decreases pool.len(),
{
    if pool.len() > 0 {
        lemma_running_count_map(pool.drop_last(), f);
        assert(pool.map_values(f).drop_last() =~= pool.drop_last().map_values(f));
        assert(pool.map_values(f).last() == f(pool.last()));
    }
}

/// Global state of the panel.
pub struct AppState {
    /// Directory being browsed.
    pub current_dir: String,
    /// The exclusive task, if one holds the slot.
    pub active_task: Option<TaskInfo>,
    /// Set when running exclusive work should stop.
    pub cancel_flag: bool,
    /// Uploads, keyed by task id.
    pub youtube_pool: Vec<UploadEntry>,
    /// Maximum number of concurrent uploads.
    pub youtube_max_concurrent: usize,
    /// Chosen files, per action.
    pub selections: Selections,
    /// Names listed in the current directory, by index.
    pub current_files: Vec<String>,
    /// Files awaiting delete confirmation.
    pub pending_delete_files: Vec<String>,
    /// The running child process, if any.
    pub current_process_pid: Option<u32>,
}

impl AppState {
    /// An exclusive task holds the slot and has not finished.
    pub open spec fn spec_has_active_task(&self) -> bool {
        self.active_task matches Some(t) && !t.finished
    }

    /// Number of uploads whose workers are running.
    pub open spec fn spec_active_youtube_count(&self) -> nat {
        running_count(self.youtube_pool@)
    }

    /// Exclusive work and uploads never run at the same time.
    pub open spec fn exclusive_and_uploads_disjoint(&self) -> bool {
        !(self.spec_has_active_task() && self.spec_active_youtube_count() > 0)
    }

    /// The initial state for `base_dir`.
    pub fn new(base_dir: &str, youtube_max_concurrent: usize) -> (s: Self)
        ensures
            s.current_dir@ == base_dir@,
            s.active_task is None,
            !s.cancel_flag,
            s.youtube_pool@.len() == 0,
            s.youtube_max_concurrent == youtube_max_concurrent,
            forall|a: ActionType| #[trigger] s.selections.slot(a) is None,
            s.current_files@.len() == 0,
            s.pending_delete_files@.len() == 0,
            s.current_process_pid is None,
            !s.spec_has_active_task(),
            s.spec_active_youtube_count() == 0,
    {
        AppState {
            current_dir: base_dir.to_owned(),
            active_task: None,
            cancel_flag: false,
            youtube_pool: Vec::new(),
            youtube_max_concurrent,
            selections: Selections::new(),
            current_files: Vec::new(),
            pending_delete_files: Vec::new(),
            current_process_pid: None,
        }
    }

    /// Whether an exclusive task is running.
    pub fn has_active_task(&self) -> (b: bool)
        ensures
            b == self.spec_has_active_task(),
    {
        match &self.active_task {
            Some(t) => !t.finished,
            None => false,
        }
    }

    /// The running exclusive task's name.
    pub fn active_task_name(&self) -> (n: Option<&str>)
        ensures
            self.spec_has_active_task() ==> (n matches Some(s) && s@ == self.active_task->0.name@),
            !self.spec_has_active_task() ==> n is None,
    {
        match &self.active_task {
            Some(t) => {
                if !t.finished {
                    Some(t.name.as_str())
                } else {
                    None
                }
            },
            None => None,
        }
    }

    /// Clears the slot if its task has finished.
    pub fn cleanup_active_task(&mut self)
        ensures
            final(self).spec_has_active_task() == old(self).spec_has_active_task(),
            old(self).spec_has_active_task() ==> final(self).active_task == old(self).active_task,
            !old(self).spec_has_active_task() ==> final(self).active_task is None,
            final(self).youtube_pool == old(self).youtube_pool,
            final(self).cancel_flag == old(self).cancel_flag,
            final(self).current_process_pid == old(self).current_process_pid,
            final(self).selections == old(self).selections,
            final(self).current_dir == old(self).current_dir,
            final(self).current_files == old(self).current_files,
            final(self).pending_delete_files == old(self).pending_delete_files,
            final(self).youtube_max_concurrent == old(self).youtube_max_concurrent,
    {
        let finished = match &self.active_task {
            Some(t) => t.finished,
            None => false,
        };
        if finished {
            self.active_task = None;
        }
    }

    /// Drops the uploads whose workers are not running.
    pub fn cleanup_youtube_pool(&mut self)
        ensures
            final(self).youtube_pool@ == running_only(old(self).youtube_pool@),
            final(self).spec_active_youtube_count() == old(self).spec_active_youtube_count(),
            final(self).active_task == old(self).active_task,
            final(self).cancel_flag == old(self).cancel_flag,
            final(self).current_process_pid == old(self).current_process_pid,
            final(self).selections == old(self).selections,
            final(self).current_dir == old(self).current_dir,
            final(self).current_files == old(self).current_files,
            final(self).pending_delete_files == old(self).pending_delete_files,
            final(self).youtube_max_concurrent == old(self).youtube_max_concurrent,
    {
        let mut rest: Vec<UploadEntry> = Vec::new();
        std::mem::swap(&mut rest, &mut self.youtube_pool);
        let ghost all = rest@;
        let mut kept: Vec<UploadEntry> = Vec::new();
        let ghost mut k: int = 0;
        while rest.len() > 0
            invariant
                0 <= k <= all.len(),
                rest@ == all.skip(k),
                kept@ == running_only(all.take(k)),
                running_count(all.take(k)) == kept@.len(),
            decreases rest@.len(),
        {
            let e = rest.remove(0);
            proof {
                assert(all.take(k + 1).drop_last() =~= all.take(k));
                assert(all.take(k + 1).last() == all[k]);
                assert(all.skip(k).drop_first() =~= all.skip(k + 1));
            }
            let running = match &e.task.handle {
                Some(h) => !h.finished,
                None => false,
            };
            if running {
                kept.push(e);
            }
            proof {
                k = k + 1;
            }
        }
        assert(all.take(k) =~= all);
        self.youtube_pool = kept;
        proof {
            lemma_running_only_all_running(all);
            lemma_running_only_count(kept@);
        }
    }

    /// Number of running uploads.
    pub fn active_youtube_count(&self) -> (n: usize)
        ensures
            n == self.spec_active_youtube_count(),
    {
        let mut n: usize = 0;
        let mut i: usize = 0;
        while i < self.youtube_pool.len()
            invariant
                i <= self.youtube_pool@.len(),
                n == running_count(self.youtube_pool@.take(i as int)),
                n <= i,
            decreases self.youtube_pool@.len() - i,
        {
            assert(self.youtube_pool@.take(i + 1).drop_last() =~= self.youtube_pool@.take(i as int));
            let running = match &self.youtube_pool[i].task.handle {
                Some(h) => !h.finished,
                None => false,
            };
            if running {
                n = n + 1;
            }
            i = i + 1;
        }
        assert(self.youtube_pool@.take(self.youtube_pool@.len() as int) =~= self.youtube_pool@);
        n
    }

    /// Claims the exclusive slot for `task_name`.
    ///
    /// Finished work is cleared first. The claim is refused while another exclusive task
    /// runs, and while any upload runs; otherwise the cancel flag is reset and the slot
    /// holds the new, running task.
    pub fn begin_exclusive(&mut self, task_name: &str) -> (r: Result<(), AppError>)
        ensures
            old(self).spec_has_active_task() ==> (r matches Err(AppError::TaskAlreadyRunning {
                task_name: n,
            }) && n@ == old(self).active_task->0.name@),
            !old(self).spec_has_active_task() && old(self).spec_active_youtube_count() > 0 ==> r
                == Err::<(), AppError>(
                AppError::YoutubeUploadBlocking { count: old(self).spec_active_youtube_count() as usize },
            ),
            !old(self).spec_has_active_task() && old(self).spec_active_youtube_count() == 0 ==> {
                &&& r is Ok
                &&& (final(self).active_task matches Some(t) && t.name@ == task_name@ && !t.finished)
                &&& !final(self).cancel_flag
            },
            r is Err ==> final(self).spec_has_active_task() == old(self).spec_has_active_task()
                && final(self).cancel_flag == old(self).cancel_flag,
            final(self).youtube_pool@ == running_only(old(self).youtube_pool@),
            final(self).spec_active_youtube_count() == old(self).spec_active_youtube_count(),
            old(self).exclusive_and_uploads_disjoint() || r is Ok ==> final(self).exclusive_and_uploads_disjoint(),
            r is Err ==> final(self).active_task == (if old(self).spec_has_active_task() { old(self).active_task } else { None }),
            final(self).current_dir == old(self).current_dir,
            final(self).current_files == old(self).current_files,
            final(self).selections == old(self).selections,
            final(self).pending_delete_files == old(self).pending_delete_files,
            final(self).youtube_max_concurrent == old(self).youtube_max_concurrent,
            final(self).current_process_pid == old(self).current_process_pid,
    {
        self.cleanup_active_task();
        self.cleanup_youtube_pool();
        if self.has_active_task() {
            let name = match self.active_task_name() {
                Some(n) => n.to_owned(),
                None => "运行中任务".to_owned(),
            };
            return Err(AppError::TaskAlreadyRunning { task_name: name });
        }
        let upload_count = self.active_youtube_count();
        if upload_count > 0 {
            return Err(AppError::YoutubeUploadBlocking { count: upload_count });
        }
        self.cancel_flag = false;
        self.active_task = Some(TaskInfo { name: task_name.to_owned(), finished: false });
        Ok(())
    }

    /// Releases the exclusive slot when its task ends: the slot, the cancel flag and the
    /// recorded child process are cleared.
    pub fn finish_exclusive(&mut self)
        ensures
            final(self).active_task is None,
            !final(self).cancel_flag,
            final(self).current_process_pid is None,
            final(self).youtube_pool == old(self).youtube_pool,
            final(self).exclusive_and_uploads_disjoint(),
    {
        self.active_task = None;
        self.cancel_flag = false;
        self.current_process_pid = None;
    }

    /// Records that the exclusive task's work has ended.
    pub fn mark_active_finished(&mut self)
        ensures
            !final(self).spec_has_active_task(),
            old(self).active_task is Some ==> (final(self).active_task matches Some(t) && t.name
                == old(self).active_task->0.name && t.finished),
            old(self).active_task is None ==> final(self).active_task is None,
            final(self).youtube_pool == old(self).youtube_pool,
            final(self).exclusive_and_uploads_disjoint(),
    {
        match &mut self.active_task {
            Some(t) => {
                t.finished = true;
            },
            None => {},
        }
    }

    /// Adds an upload to the pool under `task_id`, replacing any upload with that id.
    ///
    /// Refused while an exclusive task runs. The new upload is queued with a running
    /// worker, no progress and no cancellation.
    pub fn begin_upload(&mut self, task_id: &str, filename: &str, path: &str) -> (r: Result<(), AppError>)
        ensures
            old(self).spec_has_active_task() ==> (r matches Err(AppError::TaskAlreadyRunning {
                task_name: n,
            }) && n@ == old(self).active_task->0.name@) && final(self).youtube_pool
                == old(self).youtube_pool,
            !old(self).spec_has_active_task() ==> {
                &&& r is Ok
                &&& final(self).youtube_pool@.len() > 0
                &&& final(self).youtube_pool@.drop_last() == without_id(old(self).youtube_pool@, task_id@)
                &&& final(self).youtube_pool@.last().task_id@ == task_id@
                &&& final(self).youtube_pool@.last().task.filename@ == filename@
                &&& final(self).youtube_pool@.last().task.path@ == path@
                &&& final(self).youtube_pool@.last().task.status@ == "排队中"@
                &&& final(self).youtube_pool@.last().task.progress == 0
                &&& !final(self).youtube_pool@.last().task.cancel_requested
                &&& upload_running(final(self).youtube_pool@.last().task)
            },
            final(self).spec_has_active_task() == old(self).spec_has_active_task(),
            old(self).exclusive_and_uploads_disjoint() || r is Ok ==> final(self).exclusive_and_uploads_disjoint(),
            final(self).active_task == (if old(self).spec_has_active_task() { old(self).active_task } else { None }),
            final(self).cancel_flag == old(self).cancel_flag,
            final(self).current_dir == old(self).current_dir,
            final(self).current_files == old(self).current_files,
            final(self).selections == old(self).selections,
            final(self).pending_delete_files == old(self).pending_delete_files,
            final(self).youtube_max_concurrent == old(self).youtube_max_concurrent,
            final(self).current_process_pid == old(self).current_process_pid,
    {
        self.cleanup_active_task();
        if self.has_active_task() {
            let name = match self.active_task_name() {
                Some(n) => n.to_owned(),
                None => "运行中任务".to_owned(),
            };
            return Err(AppError::TaskAlreadyRunning { task_name: name });
        }
        self.remove_upload(task_id);
        let entry = UploadEntry {
            task_id: task_id.to_owned(),
            task: UploadTask {
                filename: filename.to_owned(),
                path: path.to_owned(),
                status: "排队中".to_owned(),
                progress: 0,
                cancel_requested: false,
                handle: Some(UploadHandle { finished: false }),
            },
        };
        self.youtube_pool.push(entry);
        Ok(())
    }

    /// Removes the uploads keyed `task_id` (when their worker ends).
    pub fn remove_upload(&mut self, task_id: &str)
        ensures
            final(self).youtube_pool@ == without_id(old(self).youtube_pool@, task_id@),
            final(self).spec_active_youtube_count() <= old(self).spec_active_youtube_count(),
            final(self).active_task == old(self).active_task,
            final(self).cancel_flag == old(self).cancel_flag,
            old(self).exclusive_and_uploads_disjoint() ==> final(self).exclusive_and_uploads_disjoint(),
            final(self).current_dir == old(self).current_dir,
            final(self).current_files == old(self).current_files,
            final(self).selections == old(self).selections,
            final(self).pending_delete_files == old(self).pending_delete_files,
            final(self).youtube_max_concurrent == old(self).youtube_max_concurrent,
            final(self).current_process_pid == old(self).current_process_pid,
    {
        let id = chars_of(task_id);
        let mut rest: Vec<UploadEntry> = Vec::new();
        std::mem::swap(&mut rest, &mut self.youtube_pool);
        let ghost all = rest@;
        let mut kept: Vec<UploadEntry> = Vec::new();
        let ghost mut k: int = 0;
        while rest.len() > 0
            invariant
                0 <= k <= all.len(),
                rest@ == all.skip(k),
                kept@ == without_id(all.take(k), task_id@),
                id@ == task_id@,
            decreases rest@.len(),
        {
            let e = rest.remove(0);
            proof {
                assert(all.take(k + 1).drop_last() =~= all.take(k));
                assert(all.take(k + 1).last() == all[k]);
                assert(all.skip(k).drop_first() =~= all.skip(k + 1));
            }
            let eid = chars_of(e.task_id.as_str());
            if !chars_eq(eid.as_slice(), id.as_slice()) {
                kept.push(e);
            }
            proof {
                k = k + 1;
            }
        }
        assert(all.take(k) =~= all);
        self.youtube_pool = kept;
        proof {
            lemma_running_count_without(all, task_id@);
        }
    }

    /// Records that the worker of the upload keyed `task_id` has ended.
    pub fn mark_upload_finished(&mut self, task_id: &str)
        ensures
            final(self).youtube_pool@ == old(self).youtube_pool@.map_values(
                |e: UploadEntry| with_finished_if(e, task_id@),
            ),
            final(self).spec_active_youtube_count() <= old(self).spec_active_youtube_count(),
            final(self).active_task == old(self).active_task,
            old(self).exclusive_and_uploads_disjoint() ==> final(self).exclusive_and_uploads_disjoint(),
            final(self).current_dir == old(self).current_dir,
            final(self).current_files == old(self).current_files,
            final(self).selections == old(self).selections,
            final(self).pending_delete_files == old(self).pending_delete_files,
            final(self).youtube_max_concurrent == old(self).youtube_max_concurrent,
            final(self).current_process_pid == old(self).current_process_pid,
    {
        let id = chars_of(task_id);
        let ghost f = |e: UploadEntry| with_finished_if(e, task_id@);
        let mut rest: Vec<UploadEntry> = Vec::new();
        std::mem::swap(&mut rest, &mut self.youtube_pool);
        let ghost all = rest@;
        let mut done: Vec<UploadEntry> = Vec::new();
        let ghost mut k: int = 0;
        while rest.len() > 0
            invariant
                0 <= k <= all.len(),
                rest@ == all.skip(k),
                done@ == all.take(k).map_values(f),
                id@ == task_id@,
                f == (|e: UploadEntry| with_finished_if(e, task_id@)),
            decreases rest@.len(),
        {
            let mut e = rest.remove(0);
            proof {
                assert(all.skip(k).drop_first() =~= all.skip(k + 1));
            }
            let ghost before = e;
            let eid = chars_of(e.task_id.as_str());
            if chars_eq(eid.as_slice(), id.as_slice()) && e.task.handle.is_some() {
                e.task.handle = Some(UploadHandle { finished: true });
            }
            assert(e == f(before));
            done.push(e);
            proof {
                assert(all.take(k + 1).map_values(f) =~= all.take(k).map_values(f).push(f(all[k])));
                k = k + 1;
            }
        }
        assert(all.take(k) =~= all);
        self.youtube_pool = done;
        proof {
            lemma_running_count_map(all, f);
        }
    }

    /// Sets the status (and the progress, when given) of the upload keyed `task_id`.
    pub fn update_task_status(&mut self, task_id: &str, status: &str, progress: Option<u32>)
        ensures
            final(self).youtube_pool@.len() == old(self).youtube_pool@.len(),
            forall|i: int| 0 <= i < old(self).youtube_pool@.len() ==> {
                let e = #[trigger] old(self).youtube_pool@[i];
                let n = final(self).youtube_pool@[i];
                &&& n.task_id == e.task_id
                &&& n.task.handle == e.task.handle
                &&& n.task.cancel_requested == e.task.cancel_requested
                &&& n.task.filename == e.task.filename
                &&& e.task_id@ == task_id@ ==> n.task.status@ == status@ && n.task.progress == match progress {
                    Some(p) => p,
                    None => e.task.progress,
                }
                &&& e.task_id@ != task_id@ ==> n == e
            },
            final(self).spec_active_youtube_count() == old(self).spec_active_youtube_count(),
            final(self).active_task == old(self).active_task,
            old(self).exclusive_and_uploads_disjoint() ==> final(self).exclusive_and_uploads_disjoint(),
            final(self).current_dir == old(self).current_dir,
            final(self).current_files == old(self).current_files,
            final(self).selections == old(self).selections,
            final(self).pending_delete_files == old(self).pending_delete_files,
            final(self).youtube_max_concurrent == old(self).youtube_max_concurrent,
            final(self).current_process_pid == old(self).current_process_pid,
    {
        let id = chars_of(task_id);
        let mut rest: Vec<UploadEntry> = Vec::new();
        std::mem::swap(&mut rest, &mut self.youtube_pool);
        let ghost all = rest@;
        let mut done: Vec<UploadEntry> = Vec::new();
        let ghost mut k: int = 0;
        while rest.len() > 0
            invariant
                0 <= k <= all.len(),
                rest@ == all.skip(k),
                done@.len() == k,
                forall|i: int| 0 <= i < k ==> {
                    let e = #[trigger] all[i];
                    let n = done@[i];
                    &&& n.task_id == e.task_id
                    &&& n.task.handle == e.task.handle
                    &&& n.task.cancel_requested == e.task.cancel_requested
                    &&& n.task.filename == e.task.filename
                    &&& e.task_id@ == task_id@ ==> n.task.status@ == status@ && n.task.progress == match progress {
                        Some(p) => p,
                        None => e.task.progress,
                    }
                    &&& e.task_id@ != task_id@ ==> n == e
                },
                running_count(done@) == running_count(all.take(k)),
                id@ == task_id@,
            decreases rest@.len(),
        {
            let mut e = rest.remove(0);
            proof {
                assert(all.skip(k).drop_first() =~= all.skip(k + 1));
                assert(all.take(k + 1).drop_last() =~= all.take(k));
            }
            let eid = chars_of(e.task_id.as_str());
            if chars_eq(eid.as_slice(), id.as_slice()) {
                e.task.status = status.to_owned();
                match progress {
                    Some(p) => {
                        e.task.progress = p;
                    },
                    None => {},
                }
            }
            let ghost before_done = done@;
            done.push(e);
            proof {
                assert(done@.drop_last() =~= before_done);
                k = k + 1;
            }
        }
        assert(all.take(k) =~= all);
        self.youtube_pool = done;
    }

    /// Requests that all work stop: sets the cancel flag, asks every upload to cancel,
    /// and returns the child process that should be terminated, if any.
    pub fn cancel_all(&mut self) -> (pid: Option<u32>)
        ensures
            final(self).cancel_flag,
            pid == old(self).current_process_pid,
            final(self).youtube_pool@ == old(self).youtube_pool@.map_values(|e: UploadEntry| with_cancel(e)),
            final(self).spec_active_youtube_count() == old(self).spec_active_youtube_count(),
            final(self).active_task == old(self).active_task,
            old(self).exclusive_and_uploads_disjoint() ==> final(self).exclusive_and_uploads_disjoint(),
    {
        self.cancel_flag = true;
        let ghost f = |e: UploadEntry| with_cancel(e);
        let mut rest: Vec<UploadEntry> = Vec::new();
        std::mem::swap(&mut rest, &mut self.youtube_pool);
        let ghost all = rest@;
        let mut done: Vec<UploadEntry> = Vec::new();
        let ghost mut k: int = 0;
        while rest.len() > 0
            invariant
                0 <= k <= all.len(),
                rest@ == all.skip(k),
                done@ == all.take(k).map_values(f),
                f == (|e: UploadEntry| with_cancel(e)),
            decreases rest@.len(),
        {
            let mut e = rest.remove(0);
            proof {
                assert(all.skip(k).drop_first() =~= all.skip(k + 1));
            }
            let ghost before = e;
            e.task.cancel_requested = true;
            assert(e == f(before));
            done.push(e);
            proof {
                assert(all.take(k + 1).map_values(f) =~= all.take(k).map_values(f).push(f(all[k])));
                k = k + 1;
            }
        }
        assert(all.take(k) =~= all);
        self.youtube_pool = done;
        proof {
            lemma_running_count_map(all, f);
        }
        self.current_process_pid
    }

    /// The paths chosen for `action`, if any are recorded.
    pub fn selections_ref(&self, action: &ActionType) -> (r: Option<&Vec<String>>)
        ensures
            r is Some == self.selections.slot(*action) is Some,
            r is Some ==> *r->0 == self.selections.slot(*action)->0,
    {
        match action {
            ActionType::Browse => self.selections.browse.as_ref(),
            ActionType::Stream => self.selections.stream.as_ref(),
            ActionType::Youtube => self.selections.youtube.as_ref(),
            ActionType::Concat => self.selections.concat.as_ref(),
            ActionType::Convert => self.selections.convert.as_ref(),
            ActionType::Delete => self.selections.delete.as_ref(),
        }
    }

    /// Forgets the paths chosen for `action`.
    pub fn clear_selections(&mut self, action: &ActionType)
        ensures
            final(self).selections.slot(*action) is None,
            final(self).selections.same_except(&old(self).selections, *action),
            final(self).youtube_pool == old(self).youtube_pool,
            final(self).active_task == old(self).active_task,
            final(self).current_dir == old(self).current_dir,
            final(self).current_files == old(self).current_files,
            final(self).pending_delete_files == old(self).pending_delete_files,
            final(self).cancel_flag == old(self).cancel_flag,
            final(self).youtube_max_concurrent == old(self).youtube_max_concurrent,
            final(self).current_process_pid == old(self).current_process_pid,
    {
        match action {
            ActionType::Browse => { self.selections.browse = None; },
            ActionType::Stream => { self.selections.stream = None; },
            ActionType::Youtube => { self.selections.youtube = None; },
            ActionType::Concat => { self.selections.concat = None; },
            ActionType::Convert => { self.selections.convert = None; },
            ActionType::Delete => { self.selections.delete = None; },
        }
    }

    /// Chooses `path` for `action`, or unchooses it when already chosen.
    pub fn toggle_selection(&mut self, action: &ActionType, path: &str)
        ensures
            final(self).selections.slot(*action) is Some,
            old(self).selections.chosen(*action).contains(path@) ==> final(self).selections.chosen(*action)
                == old(self).selections.chosen(*action).remove(path@),
            !old(self).selections.chosen(*action).contains(path@) ==> final(self).selections.chosen(*action)
                == old(self).selections.chosen(*action).insert(path@),
            final(self).selections.chosen(*action) == toggled(old(self).selections.chosen(*action), path@),
            final(self).selections.same_except(&old(self).selections, *action),
            final(self).youtube_pool == old(self).youtube_pool,
            final(self).active_task == old(self).active_task,
            final(self).current_dir == old(self).current_dir,
            final(self).current_files == old(self).current_files,
            final(self).pending_delete_files == old(self).pending_delete_files,
            final(self).cancel_flag == old(self).cancel_flag,
            final(self).youtube_max_concurrent == old(self).youtube_max_concurrent,
            final(self).current_process_pid == old(self).current_process_pid,
    {
        match action {
            ActionType::Browse => toggle_slot(&mut self.selections.browse, path),
            ActionType::Stream => toggle_slot(&mut self.selections.stream, path),
            ActionType::Youtube => toggle_slot(&mut self.selections.youtube, path),
            ActionType::Concat => toggle_slot(&mut self.selections.concat, path),
            ActionType::Convert => toggle_slot(&mut self.selections.convert, path),
            ActionType::Delete => toggle_slot(&mut self.selections.delete, path),
        }
    }
}

} // verus!
