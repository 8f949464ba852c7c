//! The exclusive media jobs as state machines: each step takes what the outside world
//! reported (a cancellation check, a probe, an FFmpeg result) and returns the job's next
//! stage and the work to do next, which the caller performs in order.
use vstd::prelude::*;
use crate::media_control::errors::AppError;
use crate::media_control::format::{LocalDateTime, filename_text, rename_base, rename_ext, smart_name, smart_rename, valid_reading, date_pattern, bracket_date_pattern};
use crate::media_control::state::{ActionType, AppState};
use crate::media_control::storage::{concat_list, concat_list_content, free_outcome, join_path, texts, unique_path};
use crate::patterns::{regex_first_match, regex_first_replaced};
use crate::paths::{file_name, file_name_chars, file_stem, join, parent, parent_chars, stem_of_chars};
use crate::text::{chars_of, decimal, push_chars, push_decimal, push_str, string_of};

verus! {

/// Work a job asks for.
#[derive(Debug)]
pub enum JobAction {
    /// Send a new progress message with this text.
    SendText(String),
    /// Edit the progress message to this text.
    EditText(String),
    /// Probe the duration of this file and add it to the input total.
    Probe(String),
    /// Write a concat list file with this content.
    WriteList { path: String, content: String },
    /// Run an FFmpeg concat of a list file into an output file.
    RunConcat { list: String, output: String },
    /// Remux a file into an MPEG-TS file.
    Remux { input: String, output: String },
    /// Remove a file if it exists.
    Remove(String),
    /// Validate the merged output against the inputs.
    Validate(String),
    /// Convert a file to MP4 by remuxing, reporting progress.
    Convert { input: String, output: String },
    /// Stream a file to an RTMP address, reporting progress.
    Stream { input: String, url: String },
    /// Delete a file, reporting whether it was a file and went.
    DeleteFile(String),
    /// Forget the files pending deletion.
    ClearPendingDeletes,
    /// Set the upload's status, and its progress when given.
    SetStatus { status: String, progress: Option<u32> },
    /// Upload a file under a name, reporting the video id or the failure.
    Upload { path: String, filename: String },
    /// The job ends, with this error if any.
    Finish(Option<AppError>),
}

/// A job action with its texts as sequences.
pub enum ActView {
    SendText(Seq<char>),
    EditText(Seq<char>),
    Probe(Seq<char>),
    WriteList(Seq<char>, Seq<char>),
    RunConcat(Seq<char>, Seq<char>),
    Remux(Seq<char>, Seq<char>),
    Remove(Seq<char>),
    Validate(Seq<char>),
    Convert(Seq<char>, Seq<char>),
    Stream(Seq<char>, Seq<char>),
    DeleteFile(Seq<char>),
    ClearPendingDeletes,
    SetStatus(Seq<char>, Option<u32>),
    Upload(Seq<char>, Seq<char>),
    Finish(Option<AppError>),
}

/// The view of one action.
pub open spec fn act_view(a: JobAction) -> ActView {
    match a {
        JobAction::SendText(t) => ActView::SendText(t@),
        JobAction::EditText(t) => ActView::EditText(t@),
        JobAction::Probe(p) => ActView::Probe(p@),
        JobAction::WriteList { path, content } => ActView::WriteList(path@, content@),
        JobAction::RunConcat { list, output } => ActView::RunConcat(list@, output@),
        JobAction::Remux { input, output } => ActView::Remux(input@, output@),
        JobAction::Remove(p) => ActView::Remove(p@),
        JobAction::Validate(p) => ActView::Validate(p@),
        JobAction::Convert { input, output } => ActView::Convert(input@, output@),
        JobAction::Stream { input, url } => ActView::Stream(input@, url@),
        JobAction::DeleteFile(p) => ActView::DeleteFile(p@),
        JobAction::ClearPendingDeletes => ActView::ClearPendingDeletes,
        JobAction::SetStatus { status, progress } => ActView::SetStatus(status@, progress),
        JobAction::Upload { path, filename } => ActView::Upload(path@, filename@),
        JobAction::Finish(e) => ActView::Finish(e),
    }
}

/// The views of a list of actions.
pub open spec fn acts_view(v: Seq<JobAction>) -> Seq<ActView> {
    v.map_values(|a: JobAction| act_view(a))
}

/// Removal of each path, in order.
pub open spec fn removals(paths: Seq<Seq<char>>) -> Seq<ActView> {
    paths.map_values(|p: Seq<char>| ActView::Remove(p))
}

fn push_removals(out: &mut Vec<JobAction>, paths: &[String])
    ensures
        acts_view(final(out)@) == acts_view(old(out)@) + removals(texts(paths@)),
{
    let ghost start = acts_view(out@);
    let mut i: usize = 0;
    while i < paths.len()
        invariant
            i <= paths@.len(),
            acts_view(out@) == start + removals(texts(paths@.take(i as int))),
        decreases paths@.len() - i,
    {
        let ghost before = acts_view(out@);
        out.push(JobAction::Remove(paths[i].clone()));
        assert(acts_view(out@) =~= before.push(ActView::Remove(paths@[i as int]@)));
        assert(removals(texts(paths@.take(i + 1))) =~= removals(texts(paths@.take(i as int))).push(
            ActView::Remove(paths@[i as int]@),
        ));
        i = i + 1;
    }
    assert(paths@.take(paths@.len() as int) =~= paths@);
}

// ── starting an exclusive job ───────────────────────────────────────────────

/// The name under which each action's exclusive job runs.
pub open spec fn job_name(action: ActionType) -> Seq<char> {
    match action {
        ActionType::Stream => "RTMP 推流"@,
        ActionType::Concat => "视频合并"@,
        ActionType::Convert => "批量转码"@,
        ActionType::Delete => "删除文件"@,
        _ => "运行中任务"@,
    }
}

/// The name of the exclusive job for `action`.
pub fn job_name_of(action: ActionType) -> (r: &'static str)
    ensures
        r@ == job_name(action),
{
    match action {
        ActionType::Stream => "RTMP 推流",
        ActionType::Concat => "视频合并",
        ActionType::Convert => "批量转码",
        ActionType::Delete => "删除文件",
        _ => "运行中任务",
    }
}

/// What the user is told when a job cannot start because another holds the slot or
/// uploads run; `None` where the error is shown as it is.
pub open spec fn refusal_text(action: ActionType, e: AppError) -> Option<Seq<char>> {
    match e {
        AppError::TaskAlreadyRunning { task_name } => Some(
            "已有任务正在运行："@ + task_name@ + "\n请先发送 /stop 或等待完成。"@,
        ),
        AppError::YoutubeUploadBlocking { count } => match action {
            ActionType::Concat => Some(
                "当前有 "@ + decimal(count as nat) + " 个 YouTube 上传任务在运行/排队，请先 /stop 或等待完成后再合并。"@,
            ),
            ActionType::Convert => Some(
                "当前有 "@ + decimal(count as nat) + " 个 YouTube 上传任务在运行/排队，请先 /stop 或等待完成后再转码。"@,
            ),
            ActionType::Stream => Some(
                "当前有 "@ + decimal(count as nat)
                    + " 个 YouTube 上传任务在运行/排队。\n为避免边上传边推流导致文件冲突，请先 /stop 或等待上传完成。"@,
            ),
            _ => None,
        },
        _ => None,
    }
}

/// The text shown when a job for `action` is refused with `e`.
pub fn refusal(action: ActionType, e: &AppError) -> (r: Option<String>)
    ensures
        r matches Some(t) ==> refusal_text(action, *e) == Some(t@),
        r is None ==> refusal_text(action, *e) is None,
{
    let mut out: Vec<char> = Vec::new();
    match e {
        AppError::TaskAlreadyRunning { task_name } => {
            push_str(&mut out, "已有任务正在运行：");
            push_str(&mut out, task_name.as_str());
            push_str(&mut out, "\n请先发送 /stop 或等待完成。");
        },
        AppError::YoutubeUploadBlocking { count } => {
            let tail: &str = match action {
                ActionType::Concat => " 个 YouTube 上传任务在运行/排队，请先 /stop 或等待完成后再合并。",
                ActionType::Convert => " 个 YouTube 上传任务在运行/排队，请先 /stop 或等待完成后再转码。",
                ActionType::Stream => " 个 YouTube 上传任务在运行/排队。\n为避免边上传边推流导致文件冲突，请先 /stop 或等待上传完成。",
                _ => return None,
            };
            push_str(&mut out, "当前有 ");
            push_decimal(&mut out, *count as u64);
            push_str(&mut out, tail);
        },
        _ => return None,
    }
    let r = string_of(out.as_slice());
    assert(refusal_text(action, *e) == Some(r@));
    Some(r)
}

impl AppState {
    /// Takes the exclusive slot for a merge of `file_count` files: at least two are needed.
    pub fn begin_concat(&mut self, file_count: usize) -> (r: Result<(), AppError>)
        ensures
            file_count < 2 ==> r == Err::<(), AppError>(AppError::ConcatInsufficientFiles { count: file_count })
                && *final(self) == *old(self),
            file_count >= 2 ==> {
                &&& old(self).spec_has_active_task() ==> (r matches Err(AppError::TaskAlreadyRunning {
                    task_name: n,
                }) && n@ == old(self).active_task->0.name@)
                &&& !old(self).spec_has_active_task() && old(self).spec_active_youtube_count() > 0 ==> r
                    == Err::<(), AppError>(
                    AppError::YoutubeUploadBlocking { count: old(self).spec_active_youtube_count() as usize },
                )
                &&& !old(self).spec_has_active_task() && old(self).spec_active_youtube_count() == 0 ==> {
                    &&& r is Ok
                    &&& (final(self).active_task matches Some(t) && t.name@ == job_name(ActionType::Concat)
                        && !t.finished)
                    &&& !final(self).cancel_flag
                }
            },
    {
        if file_count < 2 {
            return Err(AppError::ConcatInsufficientFiles { count: file_count });
        }
        self.begin_exclusive(job_name_of(ActionType::Concat))
    }
}

// ── merging ─────────────────────────────────────────────────────────────────

/// A run id from the process id and the current time in milliseconds: `{pid}_{ms}`.
pub open spec fn run_id_text(pid: nat, millis: nat) -> Seq<char> {
    decimal(pid) + seq!['_'] + decimal(millis)
}

/// Builds a run id.
pub fn run_id(pid: u32, millis: u64) -> (r: String)
    ensures
        r@ == run_id_text(pid as nat, millis as nat),
{
    let mut out: Vec<char> = Vec::new();
    push_decimal(&mut out, pid as u64);
    out.push('_');
    push_decimal(&mut out, millis);
    string_of(out.as_slice())
}

/// Where a merge works: the first file's directory, or `base_dir`.
pub open spec fn merge_dir(first: Seq<char>, base_dir: Seq<char>) -> Seq<char> {
    match parent(first) {
        Some(p) => p,
        None => base_dir,
    }
}

/// The merged file's first choice of path: the merged name's stem (or `merged`) with
/// `.mp4`, in `dir`.
pub open spec fn merge_target(dir: Seq<char>, merged_name: Seq<char>) -> Seq<char> {
    let stem = match file_stem(merged_name) {
        Some(s) => s,
        None => "merged"@,
    };
    join(dir, stem + ".mp4"@)
}

/// The name shown for the merged file.
pub open spec fn shown_output_name(path: Seq<char>, fallback: Seq<char>) -> Seq<char> {
    match file_name(path) {
        Some(n) => n,
        None => fallback,
    }
}

/// `r` is a name that naming a merge of a file at `path` can give (see `smart_rename`).
pub open spec fn smart_rename_outcome(path: Seq<char>, r: Seq<char>) -> bool {
    let base = rename_base(path);
    let stripped = regex_first_replaced(bracket_date_pattern(), base, Seq::empty());
    &&& regex_first_match(date_pattern(), base) matches Some(d) ==> r == smart_name(base, rename_ext(path), d, stripped)
    &&& regex_first_match(date_pattern(), base) is None ==> exists|t: LocalDateTime|
        valid_reading(t) && r == smart_name(base, rename_ext(path), "Merged_"@ + filename_text(t), stripped)
}

/// `r` is what `unique_path` can give for `path` when asked with `taken`.
pub open spec fn unique_outcome<F: Fn(&str) -> bool>(taken: F, path: Seq<char>, r: Seq<char>) -> bool {
    free_outcome(taken, path, "output"@, r)
}

/// A merge of files into one MP4, first by a direct concat and, when that fails
/// validation, by remuxing each file to MPEG-TS and concatenating those.
pub struct ConcatJob {
    /// The files, in merge order.
    pub files: Vec<String>,
    /// The directory that receives the output and the temporary files.
    pub work_dir: String,
    /// Distinguishes this run's temporary files.
    pub run_id: String,
    /// The concat list of the direct attempt.
    pub list_file: String,
    /// The concat list of the MPEG-TS attempt.
    pub list_file_ts: String,
    /// The output file.
    pub output_path: String,
    /// The output's name, as shown.
    pub output_filename: String,
    /// The MPEG-TS files made so far.
    pub ts_files: Vec<String>,
    /// Where the job stands.
    pub stage: ConcatStage,
}

/// Where a merge stands, and what it waits for.
pub enum ConcatStage {
    /// Waits for the cancellation check before probing file `next`.
    Probing { next: usize },
    /// Waits for the cancellation check after the direct concat.
    DirectRan,
    /// Waits for the validation of the direct concat.
    DirectValidating,
    /// Waits for the cancellation check before remuxing file `next`.
    Fallback { next: usize },
    /// Waits for the result of remuxing file `idx`.
    Remuxing { idx: usize },
    /// Waits for the cancellation check after the remux loop; `ok` when every remux
    /// that ran succeeded.
    FallbackEnded { ok: bool },
    /// Waits for the validation of the final concat.
    FinalValidating,
    /// Waits for the last cancellation check, knowing whether the output passed and
    /// the validation report.
    Concluding { success: bool, report: String },
    /// Finished.
    Done,
}

/// What a merge is told.
pub enum ConcatEvent {
    /// The cancellation flag as read now.
    CancelCheck { cancelled: bool },
    /// The validation of the output: whether it passed, and its report.
    Validated { success: bool, report: String },
    /// Whether a remux succeeded and left a non-empty file.
    Remuxed { ok: bool },
}

/// The message when a merge is cancelled.
pub open spec fn concat_cancelled_text() -> Seq<char> {
    "🛑 **合并任务已手动终止。**"@
}

/// The first message of a merge.
pub open spec fn concat_analyzing_text(count: nat, output_name: Seq<char>) -> Seq<char> {
    "⏳ **正在分析 "@ + decimal(count) + " 个文件的大小和时长...**\n输出文件:\n`"@ + output_name + seq!['`']
}

/// The message of the direct attempt.
pub open spec fn concat_direct_text(output_name: Seq<char>) -> Seq<char> {
    "⏳ **正在尝试极速直连拼接...**\n输出文件:\n`"@ + output_name + seq!['`']
}

/// The message when the direct attempt fails validation.
pub open spec fn concat_fallback_text(report: Seq<char>) -> Seq<char> {
    "⚠️ **直连拼接未通过时长/体积校验！**\n"@ + report + "\n\n正在触发 `.ts` 容错处理机制，请耐心等待..."@
}

/// The message while remuxing file `idx` of `count`.
pub open spec fn concat_remux_text(idx: nat, count: nat, name: Seq<char>) -> Seq<char> {
    "⚙️ **TS 容错转换中** ("@ + decimal(idx + 1) + seq!['/'] + decimal(count) + "):\n`"@ + name + seq!['`']
}

/// The message when a remux fails.
pub open spec fn concat_remux_failed_text() -> Seq<char> {
    "❌ **TS 容错转换失败**\n部分片段无法无损封装为 TS，建议先单文件转码后再试。"@
}

/// The message of the final concat.
pub open spec fn concat_final_text(output_name: Seq<char>) -> Seq<char> {
    "✂️ **TS 容错转换完成，正在进行最终拼接...**\n输出文件:\n`"@ + output_name + seq!['`']
}

/// The message of a successful merge.
pub open spec fn concat_success_text(output_name: Seq<char>, report: Seq<char>) -> Seq<char> {
    "✅ **合并完成!**\n\n📁 新文件: `"@ + output_name + "`\n"@ + report
}

/// The message of a failed merge.
pub open spec fn concat_failure_text(report: Seq<char>) -> Seq<char> {
    "❌ **合并彻底失败**\n"@ + report
        + "\n\n输出文件未通过时长/体积校验。两段视频的编码、分辨率或时间戳可能严重不一致，建议先单文件转码后再试。"@
}

/// The MPEG-TS file for input `idx`.
pub open spec fn ts_path(dir: Seq<char>, run_id: Seq<char>, idx: nat) -> Seq<char> {
    join(dir, ".temp_merge_fallback_"@ + run_id + seq!['_'] + decimal(idx) + ".ts"@)
}

/// The name of a file as shown while remuxing it (empty when it has none).
pub open spec fn name_or_empty(p: Seq<char>) -> Seq<char> {
    match file_name(p) {
        Some(n) => n,
        None => Seq::empty(),
    }
}

/// A merge's next stage, its MPEG-TS files, and the work to do, for one event.
/// An event the stage does not wait for changes nothing.
pub open spec fn concat_next(j: ConcatJob, e: ConcatEvent) -> (ConcatStage, Seq<Seq<char>>, Seq<ActView>) {
    let files = texts(j.files@);
    let n = files.len();
    let ts = texts(j.ts_files@);
    let out = j.output_path@;
    let name = j.output_filename@;
    let cancel_end = seq![ActView::EditText(concat_cancelled_text()), ActView::Finish(Some(AppError::Cancelled))];
    match (j.stage, e) {
        (ConcatStage::Probing { next }, ConcatEvent::CancelCheck { cancelled }) => if cancelled {
            (ConcatStage::Done, ts, cancel_end)
        } else if next + 1 < n {
            (ConcatStage::Probing { next: (next + 1) as usize }, ts, seq![ActView::Probe(files[next as int])])
        } else {
            (
                ConcatStage::DirectRan,
                ts,
                seq![
                    ActView::Probe(files[next as int]),
                    ActView::EditText(concat_direct_text(name)),
                    ActView::WriteList(j.list_file@, concat_list(files)),
                    ActView::RunConcat(j.list_file@, out),
                    ActView::Remove(j.list_file@),
                ],
            )
        },
        (ConcatStage::DirectRan, ConcatEvent::CancelCheck { cancelled }) => if cancelled {
            (
                ConcatStage::Done,
                ts,
                seq![ActView::Remove(out)] + removals(ts) + seq![ActView::Remove(j.list_file_ts@)] + cancel_end,
            )
        } else {
            (ConcatStage::DirectValidating, ts, seq![ActView::Validate(out)])
        },
        (ConcatStage::DirectValidating, ConcatEvent::Validated { success, report }) => if success {
            (
                ConcatStage::Concluding { success: true, report },
                ts,
                removals(ts) + seq![ActView::Remove(j.list_file@), ActView::Remove(j.list_file_ts@)],
            )
        } else {
            (ConcatStage::Fallback { next: 0 }, ts, seq![ActView::EditText(concat_fallback_text(report@))])
        },
        (ConcatStage::Fallback { next }, ConcatEvent::CancelCheck { cancelled }) => if cancelled || next >= n {
            (ConcatStage::FallbackEnded { ok: true }, ts, Seq::empty())
        } else {
            let t = ts_path(j.work_dir@, j.run_id@, next as nat);
            (
                ConcatStage::Remuxing { idx: next },
                ts.push(t),
                seq![
                    ActView::EditText(concat_remux_text(next as nat, n, name_or_empty(files[next as int]))),
                    ActView::Remux(files[next as int], t),
                ],
            )
        },
        (ConcatStage::Remuxing { idx }, ConcatEvent::Remuxed { ok }) => if !ok {
            (ConcatStage::FallbackEnded { ok: false }, ts, Seq::empty())
        } else if idx + 1 < n {
            (ConcatStage::Fallback { next: (idx + 1) as usize }, ts, Seq::empty())
        } else {
            (ConcatStage::FallbackEnded { ok: true }, ts, Seq::empty())
        },
        (ConcatStage::FallbackEnded { ok }, ConcatEvent::CancelCheck { cancelled }) => if cancelled {
            (
                ConcatStage::Done,
                ts,
                seq![ActView::Remove(out)] + removals(ts) + seq![ActView::Remove(j.list_file_ts@)] + cancel_end,
            )
        } else if !ok {
            (
                ConcatStage::Done,
                ts,
                removals(ts) + seq![
                    ActView::Remove(out),
                    ActView::Remove(j.list_file_ts@),
                    ActView::EditText(concat_remux_failed_text()),
                    ActView::Finish(None),
                ],
            )
        } else {
            (
                ConcatStage::FinalValidating,
                ts,
                seq![
                    ActView::WriteList(j.list_file_ts@, concat_list(ts)),
                    ActView::EditText(concat_final_text(name)),
                    ActView::RunConcat(j.list_file_ts@, out),
                    ActView::Validate(out),
                ],
            )
        },
        (ConcatStage::FinalValidating, ConcatEvent::Validated { success, report }) => (
            ConcatStage::Concluding { success, report },
            ts,
            removals(ts) + seq![ActView::Remove(j.list_file@), ActView::Remove(j.list_file_ts@)],
        ),
        (ConcatStage::Concluding { success, report }, ConcatEvent::CancelCheck { cancelled }) => if cancelled {
            (ConcatStage::Done, ts, seq![ActView::Remove(out)] + cancel_end)
        } else if success {
            (
                ConcatStage::Done,
                ts,
                seq![ActView::EditText(concat_success_text(name, report@)), ActView::Finish(None)],
            )
        } else {
            (
                ConcatStage::Done,
                ts,
                seq![ActView::Remove(out), ActView::EditText(concat_failure_text(report@)), ActView::Finish(None)],
            )
        },
        _ => (j.stage, ts, Seq::empty()),
    }
}


fn direct_msg(name: &str) -> (r: String)
    ensures
        r@ == concat_direct_text(name@),
{
    let mut out: Vec<char> = Vec::new();
    push_str(&mut out, "⏳ **正在尝试极速直连拼接...**\n输出文件:\n`");
    push_str(&mut out, name);
    out.push('`');
    assert(out@ =~= concat_direct_text(name@));
    string_of(out.as_slice())
}

fn final_msg(name: &str) -> (r: String)
    ensures
        r@ == concat_final_text(name@),
{
    let mut out: Vec<char> = Vec::new();
    push_str(&mut out, "✂️ **TS 容错转换完成，正在进行最终拼接...**\n输出文件:\n`");
    push_str(&mut out, name);
    out.push('`');
    assert(out@ =~= concat_final_text(name@));
    string_of(out.as_slice())
}

fn fallback_msg(report: &str) -> (r: String)
    ensures
        r@ == concat_fallback_text(report@),
{
    let mut out: Vec<char> = Vec::new();
    push_str(&mut out, "⚠️ **直连拼接未通过时长/体积校验！**\n");
    push_str(&mut out, report);
    push_str(&mut out, "\n\n正在触发 `.ts` 容错处理机制，请耐心等待...");
    assert(out@ =~= concat_fallback_text(report@));
    string_of(out.as_slice())
}

fn failure_msg(report: &str) -> (r: String)
    ensures
        r@ == concat_failure_text(report@),
{
    let mut out: Vec<char> = Vec::new();
    push_str(&mut out, "❌ **合并彻底失败**\n");
    push_str(&mut out, report);
    push_str(&mut out, "\n\n输出文件未通过时长/体积校验。两段视频的编码、分辨率或时间戳可能严重不一致，建议先单文件转码后再试。");
    assert(out@ =~= concat_failure_text(report@));
    string_of(out.as_slice())
}

fn analyzing_msg(count: usize, name: &str) -> (r: String)
    ensures
        r@ == concat_analyzing_text(count as nat, name@),
{
    let mut out: Vec<char> = Vec::new();
    push_str(&mut out, "⏳ **正在分析 ");
    push_decimal(&mut out, count as u64);
    push_str(&mut out, " 个文件的大小和时长...**\n输出文件:\n`");
    push_str(&mut out, name);
    out.push('`');
    assert(out@ =~= concat_analyzing_text(count as nat, name@));
    string_of(out.as_slice())
}

fn remux_msg(idx: usize, count: usize, name: &str) -> (r: String)
    requires
        idx < count,
    ensures
        r@ == concat_remux_text(idx as nat, count as nat, name@),
{
    let mut out: Vec<char> = Vec::new();
    push_str(&mut out, "⚙️ **TS 容错转换中** (");
    push_decimal(&mut out, (idx + 1) as u64);
    out.push('/');
    push_decimal(&mut out, count as u64);
    push_str(&mut out, "):\n`");
    push_str(&mut out, name);
    out.push('`');
    assert(out@ =~= concat_remux_text(idx as nat, count as nat, name@));
    string_of(out.as_slice())
}

fn success_msg(name: &str, report: &str) -> (r: String)
    ensures
        r@ == concat_success_text(name@, report@),
{
    let mut out: Vec<char> = Vec::new();
    push_str(&mut out, "✅ **合并完成!**\n\n📁 新文件: `");
    push_str(&mut out, name);
    push_str(&mut out, "`\n");
    push_str(&mut out, report);
    assert(out@ =~= concat_success_text(name@, report@));
    string_of(out.as_slice())
}

fn ts_path_of(dir: &str, run_id: &str, idx: usize) -> (r: String)
    ensures
        r@ == ts_path(dir@, run_id@, idx as nat),
{
    let mut name: Vec<char> = Vec::new();
    push_str(&mut name, ".temp_merge_fallback_");
    push_str(&mut name, run_id);
    name.push('_');
    push_decimal(&mut name, idx as u64);
    push_str(&mut name, ".ts");
    let n = string_of(name.as_slice());
    assert(n@ =~= ".temp_merge_fallback_"@ + run_id@ + seq!['_'] + decimal(idx as nat) + ".ts"@);
    join_path(dir, n.as_str())
}

fn name_or_empty_of(p: &str) -> (r: String)
    ensures
        r@ == name_or_empty(p@),
{
    let c = chars_of(p);
    match file_name_chars(c.as_slice()) {
        Some(n) => string_of(n.as_slice()),
        None => {
            let e: Vec<char> = Vec::new();
            assert(e@ =~= Seq::<char>::empty());
            string_of(e.as_slice())
        },
    }
}

fn list_path(dir: &str, prefix: &str, run_id: &str) -> (r: String)
    ensures
        r@ == join(dir@, prefix@ + run_id@ + ".txt"@),
{
    let mut name: Vec<char> = Vec::new();
    push_str(&mut name, prefix);
    push_str(&mut name, run_id);
    push_str(&mut name, ".txt");
    let n = string_of(name.as_slice());
    join_path(dir, n.as_str())
}

impl ConcatJob {
    /// The job's invariant: at least one file, and every index it waits on lies among them.
    pub open spec fn wf(&self) -> bool {
        &&& self.files@.len() >= 1
        &&& match self.stage {
            ConcatStage::Probing { next } => next < self.files@.len(),
            ConcatStage::Remuxing { idx } => idx < self.files@.len(),
            _ => true,
        }
    }

    /// Plans a merge of `files` (at least two, in order) with temporary names marked by
    /// `run_id`; `taken` tells which output paths exist. Returns the job, waiting to probe
    /// its first file, and the first message.
    pub fn start<F: Fn(&str) -> bool>(files: Vec<String>, base_dir: &str, run_id: &str, taken: &F) -> (r: (ConcatJob, Vec<JobAction>))
        requires
            files@.len() >= 2,
            forall|s: &str| #[trigger] taken.requires((s,)),
        ensures
            r.0.wf(),
            r.0.stage == (ConcatStage::Probing { next: 0 }),
            r.0.files@ == files@,
            r.0.run_id@ == run_id@,
            r.0.ts_files@.len() == 0,
            r.0.work_dir@ == merge_dir(files@[0]@, base_dir@),
            r.0.list_file@ == join(r.0.work_dir@, ".concat_list_"@ + run_id@ + ".txt"@),
            r.0.list_file_ts@ == join(r.0.work_dir@, ".concat_list_ts_"@ + run_id@ + ".txt"@),
            exists|m: Seq<char>| smart_rename_outcome(files@[0]@, m) && unique_outcome(
                *taken,
                merge_target(r.0.work_dir@, m),
                r.0.output_path@,
            ),
            r.0.output_filename@ == shown_output_name(r.0.output_path@, "merged.mp4"@),
            acts_view(r.1@) == seq![ActView::SendText(concat_analyzing_text(files@.len() as nat, r.0.output_filename@))],
    {
        let first = chars_of(files[0].as_str());
        let work_dir: String = match parent_chars(first.as_slice()) {
            Some(p) => string_of(p.as_slice()),
            None => base_dir.to_owned(),
        };
        let merged = smart_rename(files[0].as_str());
        assert(smart_rename_outcome(files@[0]@, merged@));
        let mc = chars_of(merged.as_str());
        let mut target_name: Vec<char> = match file_name_chars(mc.as_slice()) {
            Some(n) => stem_of_chars(n.as_slice()),
            None => chars_of("merged"),
        };
        push_str(&mut target_name, ".mp4");
        let tn = string_of(target_name.as_slice());
        let target = join_path(work_dir.as_str(), tn.as_str());
        assert(target@ == merge_target(work_dir@, merged@));
        let output_path = unique_path(target.as_str(), taken);
        assert(unique_outcome(*taken, target@, output_path@));
        let oc = chars_of(output_path.as_str());
        let output_filename: String = match file_name_chars(oc.as_slice()) {
            Some(n) => string_of(n.as_slice()),
            None => "merged.mp4".to_owned(),
        };
        let list_file = list_path(work_dir.as_str(), ".concat_list_", run_id);
        let list_file_ts = list_path(work_dir.as_str(), ".concat_list_ts_", run_id);
        let msg = analyzing_msg(files.len(), output_filename.as_str());
        let actions = vec![JobAction::SendText(msg)];
        assert(acts_view(actions@) =~= seq![ActView::SendText(concat_analyzing_text(files@.len() as nat, output_filename@))]);
        let job = ConcatJob {
            files,
            work_dir,
            run_id: run_id.to_owned(),
            list_file,
            list_file_ts,
            output_path,
            output_filename,
            ts_files: Vec::new(),
            stage: ConcatStage::Probing { next: 0 },
        };
        (job, actions)
    }
}


/// The work when a merge is cancelled with MPEG-TS files about.
pub open spec fn concat_cancel_cleanup(output: Seq<char>, ts: Seq<Seq<char>>, list_ts: Seq<char>) -> Seq<ActView> {
    seq![ActView::Remove(output)] + removals(ts) + seq![ActView::Remove(list_ts)] + seq![
        ActView::EditText(concat_cancelled_text()),
        ActView::Finish(Some(AppError::Cancelled)),
    ]
}

fn cancel_cleanup(output: &String, ts_files: &Vec<String>, list_ts: &String) -> (r: Vec<JobAction>)
    ensures
        acts_view(r@) == concat_cancel_cleanup(output@, texts(ts_files@), list_ts@),
{
    let mut out: Vec<JobAction> = Vec::new();
    out.push(JobAction::Remove(output.clone()));
    let ghost a = acts_view(out@);
    assert(a =~= seq![ActView::Remove(output@)]);
    push_removals(&mut out, ts_files.as_slice());
    let ghost b = acts_view(out@);
    out.push(JobAction::Remove(list_ts.clone()));
    out.push(JobAction::EditText("🛑 **合并任务已手动终止。**".to_owned()));
    out.push(JobAction::Finish(Some(AppError::Cancelled)));
    assert(acts_view(out@) =~= b + seq![
        ActView::Remove(list_ts@),
        ActView::EditText(concat_cancelled_text()),
        ActView::Finish(Some(AppError::Cancelled)),
    ]);
    assert(acts_view(out@) =~= concat_cancel_cleanup(output@, texts(ts_files@), list_ts@));
    out
}

impl ConcatJob {
    /// Advances the merge by one event; see `concat_next`.
    #[verifier::rlimit(40)]
    pub fn step(&mut self, e: ConcatEvent) -> (r: Vec<JobAction>)
        requires
            old(self).wf(),
        ensures
            final(self).wf(),
            (final(self).stage, texts(final(self).ts_files@), acts_view(r@)) == concat_next(*old(self), e),
            final(self).files == old(self).files,
            final(self).work_dir == old(self).work_dir,
            final(self).run_id == old(self).run_id,
            final(self).list_file == old(self).list_file,
            final(self).list_file_ts == old(self).list_file_ts,
            final(self).output_path == old(self).output_path,
            final(self).output_filename == old(self).output_filename,
    {
        let ghost j = *self;
        let ghost want = concat_next(j, e);
        let n = self.files.len();
        let mut st = ConcatStage::Done;
        std::mem::swap(&mut st, &mut self.stage);
        let mut out: Vec<JobAction> = Vec::new();
        match (st, e) {
            (ConcatStage::Probing { next }, ConcatEvent::CancelCheck { cancelled }) => {
                if cancelled {
                    out.push(JobAction::EditText("🛑 **合并任务已手动终止。**".to_owned()));
                    out.push(JobAction::Finish(Some(AppError::Cancelled)));
                    self.stage = ConcatStage::Done;
                } else if next + 1 < n {
                    out.push(JobAction::Probe(self.files[next].clone()));
                    self.stage = ConcatStage::Probing { next: next + 1 };
                } else {
                    out.push(JobAction::Probe(self.files[next].clone()));
                    out.push(JobAction::EditText(direct_msg(self.output_filename.as_str())));
                    out.push(JobAction::WriteList { path: self.list_file.clone(), content: concat_list_content(self.files.as_slice()) });
                    out.push(JobAction::RunConcat { list: self.list_file.clone(), output: self.output_path.clone() });
                    out.push(JobAction::Remove(self.list_file.clone()));
                    self.stage = ConcatStage::DirectRan;
                }
            },
            (ConcatStage::DirectRan, ConcatEvent::CancelCheck { cancelled }) => {
                if cancelled {
                    out = cancel_cleanup(&self.output_path, &self.ts_files, &self.list_file_ts);
                    assert(concat_cancel_cleanup(j.output_path@, texts(j.ts_files@), j.list_file_ts@) =~= want.2);
                    self.stage = ConcatStage::Done;
                } else {
                    out.push(JobAction::Validate(self.output_path.clone()));
                    self.stage = ConcatStage::DirectValidating;
                }
            },
            (ConcatStage::DirectValidating, ConcatEvent::Validated { success, report }) => {
                if success {
                    push_removals(&mut out, self.ts_files.as_slice());
                    out.push(JobAction::Remove(self.list_file.clone()));
                    out.push(JobAction::Remove(self.list_file_ts.clone()));
                    self.stage = ConcatStage::Concluding { success: true, report };
                } else {
                    out.push(JobAction::EditText(fallback_msg(report.as_str())));
                    self.stage = ConcatStage::Fallback { next: 0 };
                }
            },
            (ConcatStage::Fallback { next }, ConcatEvent::CancelCheck { cancelled }) => {
                if cancelled || next >= n {
                    self.stage = ConcatStage::FallbackEnded { ok: true };
                } else {
                    let t = ts_path_of(self.work_dir.as_str(), self.run_id.as_str(), next);
                    let shown = name_or_empty_of(self.files[next].as_str());
                    out.push(JobAction::EditText(remux_msg(next, n, shown.as_str())));
                    out.push(JobAction::Remux { input: self.files[next].clone(), output: t.clone() });
                    let ghost ts_before = texts(self.ts_files@);
                    self.ts_files.push(t);
                    assert(texts(self.ts_files@) =~= ts_before.push(t@));
                    self.stage = ConcatStage::Remuxing { idx: next };
                }
            },
            (ConcatStage::Remuxing { idx }, ConcatEvent::Remuxed { ok }) => {
                if !ok {
                    self.stage = ConcatStage::FallbackEnded { ok: false };
                } else if idx + 1 < n {
                    self.stage = ConcatStage::Fallback { next: idx + 1 };
                } else {
                    self.stage = ConcatStage::FallbackEnded { ok: true };
                }
            },
            (ConcatStage::FallbackEnded { ok }, ConcatEvent::CancelCheck { cancelled }) => {
                if cancelled {
                    out = cancel_cleanup(&self.output_path, &self.ts_files, &self.list_file_ts);
                    assert(concat_cancel_cleanup(j.output_path@, texts(j.ts_files@), j.list_file_ts@) =~= want.2);
                    self.stage = ConcatStage::Done;
                } else if !ok {
                    push_removals(&mut out, self.ts_files.as_slice());
                    out.push(JobAction::Remove(self.output_path.clone()));
                    out.push(JobAction::Remove(self.list_file_ts.clone()));
                    out.push(JobAction::EditText("❌ **TS 容错转换失败**\n部分片段无法无损封装为 TS，建议先单文件转码后再试。".to_owned()));
                    out.push(JobAction::Finish(None));
                    self.stage = ConcatStage::Done;
                } else {
                    out.push(JobAction::WriteList { path: self.list_file_ts.clone(), content: concat_list_content(self.ts_files.as_slice()) });
                    out.push(JobAction::EditText(final_msg(self.output_filename.as_str())));
                    out.push(JobAction::RunConcat { list: self.list_file_ts.clone(), output: self.output_path.clone() });
                    out.push(JobAction::Validate(self.output_path.clone()));
                    self.stage = ConcatStage::FinalValidating;
                }
            },
            (ConcatStage::FinalValidating, ConcatEvent::Validated { success, report }) => {
                push_removals(&mut out, self.ts_files.as_slice());
                out.push(JobAction::Remove(self.list_file.clone()));
                out.push(JobAction::Remove(self.list_file_ts.clone()));
                self.stage = ConcatStage::Concluding { success, report };
                assert(acts_view(out@) =~= want.2);
            },
            (ConcatStage::Concluding { success, report }, ConcatEvent::CancelCheck { cancelled }) => {
                if cancelled {
                    out.push(JobAction::Remove(self.output_path.clone()));
                    out.push(JobAction::EditText("🛑 **合并任务已手动终止。**".to_owned()));
                    out.push(JobAction::Finish(Some(AppError::Cancelled)));
                } else if success {
                    out.push(JobAction::EditText(success_msg(self.output_filename.as_str(), report.as_str())));
                    out.push(JobAction::Finish(None));
                } else {
                    out.push(JobAction::Remove(self.output_path.clone()));
                    out.push(JobAction::EditText(failure_msg(report.as_str())));
                    out.push(JobAction::Finish(None));
                }
                self.stage = ConcatStage::Done;
                assert(acts_view(out@) =~= want.2);
            },
            (other, _) => {
                self.stage = other;
                assert(acts_view(out@) =~= want.2);
            },
        }
        assert(acts_view(out@) =~= want.2);
        out
    }
}


/// An action that starts work on files: probing, listing, FFmpeg or validation.
pub open spec fn starts_work(a: ActView) -> bool {
    a is Probe || a is WriteList || a is RunConcat || a is Remux || a is Validate || a is Convert || a is Stream
        || a is Upload
}

proof fn lemma_removals_no_work(ts: Seq<Seq<char>>)
    ensures
        forall|i: int| 0 <= i < removals(ts).len() ==> !starts_work(#[trigger] removals(ts)[i]),
{
}

/// Once the cancellation flag is seen set, a merge starts no further work: it ends (or,
/// inside its remux loop, leaves the loop, whose next check ends it), and what it does
/// is cleaning up and reporting.
pub proof fn lemma_concat_cancel_stops(j: ConcatJob)
    requires
        j.wf(),
    ensures
        ({
            let r = concat_next(j, ConcatEvent::CancelCheck { cancelled: true });
            &&& forall|i: int| 0 <= i < r.2.len() ==> !starts_work(#[trigger] r.2[i])
            &&& (r.0 is Done || r.0 is FallbackEnded || r.0 is DirectValidating || r.0 is Remuxing
                || r.0 is FinalValidating)
            &&& (j.stage is Probing || j.stage is DirectRan || j.stage is FallbackEnded || j.stage is Concluding)
                ==> r.0 is Done
            &&& j.stage is Fallback ==> r.0 is FallbackEnded
        }),
{
    let ts = texts(j.ts_files@);
    lemma_removals_no_work(ts);
    let r = concat_next(j, ConcatEvent::CancelCheck { cancelled: true });
    let out = j.output_path@;
    let cancel_end = seq![ActView::EditText(concat_cancelled_text()), ActView::Finish(Some(AppError::Cancelled))];
    match j.stage {
        ConcatStage::DirectRan => {
            let acts = seq![ActView::Remove(out)] + removals(ts) + seq![ActView::Remove(j.list_file_ts@)] + cancel_end;
            assert(r.2 == acts);
            assert forall|i: int| 0 <= i < acts.len() implies !starts_work(#[trigger] acts[i]) by {
                if 1 <= i < 1 + removals(ts).len() {
                    assert(acts[i] == removals(ts)[i - 1]);
                }
            }
        },
        ConcatStage::FallbackEnded { ok } => {
            let acts = seq![ActView::Remove(out)] + removals(ts) + seq![ActView::Remove(j.list_file_ts@)] + cancel_end;
            assert(r.2 == acts);
            assert forall|i: int| 0 <= i < acts.len() implies !starts_work(#[trigger] acts[i]) by {
                if 1 <= i < 1 + removals(ts).len() {
                    assert(acts[i] == removals(ts)[i - 1]);
                }
            }
        },
        _ => {},
    }
}

} // verus!
