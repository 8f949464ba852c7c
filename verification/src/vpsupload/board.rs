//! The task board: one exclusive task at a time, kept apart from the upload queue.
use vstd::prelude::*;
use crate::paths::join_with;
use crate::text::{decimal, push_chars, push_decimal, push_str, string_of};

verus! {

/// An upload in the queue.
pub struct UploadRecord {
    /// The key the queue holds it under.
    pub key: String,
    /// File name shown to the user.
    pub filename: String,
    /// Status text.
    pub status: String,
    /// Whether it can be told to stop.
    pub cancellable: bool,
}

/// The running exclusive task, if any, and the upload queue.
pub struct TaskBoard {
    pub active: Option<String>,
    pub uploads: Vec<UploadRecord>,
}

/// The refusal when an exclusive task already runs.
pub open spec fn busy_text(name: Seq<char>) -> Seq<char> {
    "已有独占任务正在运行："@ + name
}

/// The refusal while uploads are queued.
pub open spec fn uploads_busy_text(count: nat) -> Seq<char> {
    "当前有 "@ + decimal(count) + " 个 YouTube 上传任务，请等待完成或停用。"@
}

/// What stopping reports for each task stopped: the exclusive task first, then each
/// cancellable upload in queue order.
pub open spec fn stopped_lines(active: Option<String>, uploads: Seq<UploadRecord>) -> Seq<Seq<char>> {
    (match active {
        Some(n) => seq!["独占任务 ["@ + n@ + seq![']']],
        None => Seq::empty(),
    }) + upload_stop_lines(uploads)
}

/// The lines for the cancellable uploads.
pub open spec fn upload_stop_lines(uploads: Seq<UploadRecord>) -> Seq<Seq<char>>
    decreases uploads.len(),
{
    if uploads.len() == 0 {
        Seq::empty()
    } else {
        let rest = upload_stop_lines(uploads.drop_last());
        if uploads.last().cancellable {
            rest.push("上传任务 ["@ + uploads.last().filename@ + seq![']'])
        } else {
            rest
        }
    }
}

/// The line that reports a stopped upload.
pub open spec fn upload_stopped_line(u: UploadRecord) -> Seq<char> {
    "上传任务 ["@ + u.filename@ + seq![']']
}

/// Stopping reports every cancellable upload, in queue order, and nothing else: the
/// upload lines are the cancellable uploads, each as its line; so there is one line per
/// cancellable upload, and an upload queued after others is reported after them.
pub proof fn lemma_stop_reports_every_cancellable(uploads: Seq<UploadRecord>, u: UploadRecord)
    ensures
        upload_stop_lines(uploads) == uploads.filter(|x: UploadRecord| x.cancellable).map_values(
            |x: UploadRecord| upload_stopped_line(x),
        ),
        upload_stop_lines(uploads).len() == uploads.filter(|x: UploadRecord| x.cancellable).len(),
        u.cancellable ==> upload_stop_lines(uploads.push(u)) == upload_stop_lines(uploads).push(upload_stopped_line(u)),
        !u.cancellable ==> upload_stop_lines(uploads.push(u)) == upload_stop_lines(uploads),
    decreases uploads.len(),
{
    reveal(Seq::filter);
    let f = |x: UploadRecord| x.cancellable;
    let g = |x: UploadRecord| upload_stopped_line(x);
    let q = uploads.push(u);
    assert(q.drop_last() =~= uploads);
    assert(q.last() == u);
    if uploads.len() > 0 {
        let w = uploads.drop_last();
        let l = uploads.last();
        lemma_stop_reports_every_cancellable(w, l);
        assert(w.filter(f).map_values(g) == upload_stop_lines(w));
        if l.cancellable {
            assert(w.filter(f).push(l).map_values(g) =~= w.filter(f).map_values(g).push(g(l)));
        }
    } else {
        assert(uploads.filter(f) =~= Seq::<UploadRecord>::empty());
        assert(uploads.filter(f).map_values(g) =~= Seq::<Seq<char>>::empty());
    }
}

impl TaskBoard {
    /// An empty board.
    pub fn new() -> (b: Self)
        ensures
            b.active is None,
            b.uploads@.len() == 0,
    {
        TaskBoard { active: None, uploads: Vec::new() }
    }

    /// Takes the exclusive slot for `name`, unless a task holds it or uploads are queued.
    pub fn start_exclusive_task(&mut self, name: &str) -> (r: Result<(), String>)
        ensures
            old(self).active matches Some(n) ==> (r matches Err(m) && m@ == busy_text(n@)) && *final(self) == *old(self),
            old(self).active is None && old(self).uploads@.len() > 0 ==> (r matches Err(m) && m@ == uploads_busy_text(
                old(self).uploads@.len(),
            )) && *final(self) == *old(self),
            old(self).active is None && old(self).uploads@.len() == 0 ==> r is Ok && (final(self).active matches Some(n)
                && n@ == name@) && final(self).uploads == old(self).uploads,
    {
        match &self.active {
            Some(n) => {
                let mut m: Vec<char> = Vec::new();
                push_str(&mut m, "已有独占任务正在运行：");
                push_str(&mut m, n.as_str());
                return Err(string_of(m.as_slice()));
            },
            None => {},
        }
        if self.uploads.len() > 0 {
            let mut m: Vec<char> = Vec::new();
            push_str(&mut m, "当前有 ");
            push_decimal(&mut m, self.uploads.len() as u64);
            push_str(&mut m, " 个 YouTube 上传任务，请等待完成或停用。");
            assert(m@ =~= uploads_busy_text(self.uploads@.len()));
            return Err(string_of(m.as_slice()));
        }
        self.active = Some(name.to_owned());
        Ok(())
    }

    /// Stops everything: the exclusive task leaves the slot, every upload is marked
    /// `已手动终止`; returns a line per task told to stop.
    pub fn stop_all_tasks(&mut self) -> (r: Vec<String>)
        ensures
            r@.map_values(|s: String| s@) == stopped_lines(old(self).active, old(self).uploads@),
            final(self).active is None,
            final(self).uploads@.len() == old(self).uploads@.len(),
            forall|i: int| 0 <= i < old(self).uploads@.len() ==> {
                &&& (#[trigger] final(self).uploads@[i]).status@ == "已手动终止"@
                &&& final(self).uploads@[i].key == old(self).uploads@[i].key
                &&& final(self).uploads@[i].filename == old(self).uploads@[i].filename
                &&& final(self).uploads@[i].cancellable == old(self).uploads@[i].cancellable
            },
    {
        let mut out: Vec<String> = Vec::new();
        let ghost act = self.active;
        match &self.active {
            Some(n) => {
                let mut m: Vec<char> = Vec::new();
                push_str(&mut m, "独占任务 [");
                push_str(&mut m, n.as_str());
                m.push(']');
                out.push(string_of(m.as_slice()));
                assert(m@ =~= "独占任务 ["@ + n@ + seq![']']);
                assert(out@.map_values(|s: String| s@) =~= seq![m@]);
            },
            None => {
                assert(out@.map_values(|s: String| s@) =~= Seq::<Seq<char>>::empty());
            },
        }
        self.active = None;
        let ghost head = out@.map_values(|s: String| s@);
        assert(head == (match act {
            Some(n) => seq!["独占任务 ["@ + n@ + seq![']']],
            None => Seq::<Seq<char>>::empty(),
        }));
        let ghost old_uploads = self.uploads@;
        let mut rest: Vec<UploadRecord> = Vec::new();
        std::mem::swap(&mut rest, &mut self.uploads);
        let mut i: usize = 0;
        while i < rest.len()
            invariant
                i <= rest@.len(),
                rest@ == old_uploads,
                self.active is None,
                self.uploads@.len() == i,
                forall|k: int| 0 <= k < i ==> {
                    &&& (#[trigger] self.uploads@[k]).status@ == "已手动终止"@
                    &&& self.uploads@[k].key == old_uploads[k].key
                    &&& self.uploads@[k].filename == old_uploads[k].filename
                    &&& self.uploads@[k].cancellable == old_uploads[k].cancellable
                },
                out@.map_values(|s: String| s@) == head + upload_stop_lines(old_uploads.take(i as int)),
            decreases rest@.len() - i,
        {
            let e = &rest[i];
            assert(old_uploads.take(i + 1).drop_last() =~= old_uploads.take(i as int));
            let ghost before = out@.map_values(|s: String| s@);
            assert(old_uploads.take(i + 1).last() == old_uploads[i as int]);
            if e.cancellable {
                let mut m: Vec<char> = Vec::new();
                push_str(&mut m, "上传任务 [");
                push_str(&mut m, e.filename.as_str());
                m.push(']');
                out.push(string_of(m.as_slice()));
                assert(m@ =~= "上传任务 ["@ + old_uploads[i as int].filename@ + seq![']']);
                assert(out@.map_values(|s: String| s@) =~= before.push(m@));
            }
            self.uploads.push(UploadRecord {
                key: e.key.clone(),
                filename: e.filename.clone(),
                status: "已手动终止".to_owned(),
                cancellable: e.cancellable,
            });
            i = i + 1;
        }
        assert(old_uploads.take(old_uploads.len() as int) =~= old_uploads);
        out
    }
}

/// The reply to `/stop` from the lines of what was stopped.
pub open spec fn vp_stop_reply(lines: Seq<Seq<char>>) -> Seq<char> {
    if lines.len() == 0 {
        "ℹ️ 当前没有在运行的任务。"@
    } else {
        "🛑 **已发送终止指令**:\n"@ + join_with(lines, '\n')
    }
}

/// Builds the reply to `/stop`.
pub fn stop_reply(lines: &[String]) -> (r: String)
    ensures
        r@ == vp_stop_reply(lines@.map_values(|s: String| s@)),
{
    if lines.len() == 0 {
        return "ℹ️ 当前没有在运行的任务。".to_owned();
    }
    let ghost ls = lines@.map_values(|s: String| s@);
    let mut out: Vec<char> = Vec::new();
    push_str(&mut out, "🛑 **已发送终止指令**:\n");
    let ghost head = out@;
    let mut i: usize = 0;
    while i < lines.len()
        invariant
            i <= lines@.len(),
            ls == lines@.map_values(|s: String| s@),
            out@ == head + join_with(ls.take(i as int), '\n'),
        decreases lines@.len() - i,
    {
        assert(ls.take(i + 1).drop_last() =~= ls.take(i as int));
        if i > 0 {
            out.push('\n');
        }
        push_str(&mut out, lines[i].as_str());
        proof {
            if i == 0 {
                assert(ls.take(1) =~= seq![ls[0]]);
            }
        }
        assert(out@ =~= head + join_with(ls.take(i + 1), '\n'));
        i = i + 1;
    }
    assert(ls.take(lines@.len() as int) =~= ls);
    string_of(out.as_slice())
}

/// One line of the upload queue listing: number, name, status, formatted progress and
/// formatted running time.
pub open spec fn queue_line(idx: nat, filename: Seq<char>, status: Seq<char>, progress: Seq<char>, elapsed: Seq<char>) -> Seq<char> {
    decimal(idx + 1) + ". `"@ + filename + "` - "@ + status + " ("@ + progress + "%) [耗时 "@ + elapsed + seq![']']
}

/// Builds one line of the upload queue listing.
pub fn queue_line_of(idx: usize, filename: &str, status: &str, progress: &str, elapsed: &str) -> (r: String)
    requires
        idx < usize::MAX,
    ensures
        r@ == queue_line(idx as nat, filename@, status@, progress@, elapsed@),
{
    let mut out: Vec<char> = Vec::new();
    push_decimal(&mut out, (idx + 1) as u64);
    push_str(&mut out, ". `");
    push_str(&mut out, filename);
    push_str(&mut out, "` - ");
    push_str(&mut out, status);
    push_str(&mut out, " (");
    push_str(&mut out, progress);
    push_str(&mut out, "%) [耗时 ");
    push_str(&mut out, elapsed);
    out.push(']');
    assert(out@ =~= queue_line(idx as nat, filename@, status@, progress@, elapsed@));
    string_of(out.as_slice())
}

/// The title of the upload queue listing.
pub open spec fn queue_title(count: nat) -> Seq<char> {
    "📤 **YouTube 上传队列 ("@ + decimal(count) + ")**"@
}

/// Builds the title of the upload queue listing.
pub fn queue_title_of(count: usize) -> (r: String)
    ensures
        r@ == queue_title(count as nat),
{
    let mut out: Vec<char> = Vec::new();
    push_str(&mut out, "📤 **YouTube 上传队列 (");
    push_decimal(&mut out, count as u64);
    push_str(&mut out, ")**");
    assert(out@ =~= queue_title(count as nat));
    string_of(out.as_slice())
}

} // verus!
