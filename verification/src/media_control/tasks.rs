//! Batch conversion, streaming, deletion and upload jobs, and FFmpeg progress lines.
use vstd::prelude::*;
use crate::media_control::errors::AppError;
use crate::media_control::format::{escape_html, html_escaped, display_text, format_display, valid_reading, LocalDateTime, now_display};
use crate::media_control::jobs::{acts_view, ActView, JobAction, unique_outcome};
use crate::media_control::state::{ActionType, AppState};
use crate::media_control::storage::{join_path, unique_path};
use crate::patterns::{captures_first, regex_first_captures};
use crate::paths::{file_name, file_name_chars, file_stem, join, parent, parent_chars, stem_of_chars};
use crate::text::{chars_of, decimal, parse_u64_or_zero, push_chars, push_decimal, push_signed_decimal, push_str, signed_decimal, string_of, u64_or_zero};

verus! {

// ── FFmpeg progress ─────────────────────────────────────────────────────────

/// The time stamp FFmpeg prints while it works: `time=HH:MM:SS.cc`.
pub open spec fn ffmpeg_time_pattern() -> Seq<char> {
    r"time=(\d{2}):(\d{2}):(\d{2})\.\d{2}"@
}

/// The number in capture group `i`, or 0 when the group is missing or not a `u64`.
pub open spec fn group_number(groups: Seq<Option<Seq<char>>>, i: int) -> nat {
    if 0 <= i < groups.len() {
        match groups[i] {
            Some(t) => u64_or_zero(t),
            None => 0,
        }
    } else {
        0
    }
}

/// The seconds a match of the time stamp stands for: `h * 3600 + m * 60 + s`.
pub open spec fn captured_seconds(groups: Seq<Option<Seq<char>>>) -> nat {
    group_number(groups, 1) * 3600 + group_number(groups, 2) * 60 + group_number(groups, 3)
}

/// The seconds of the captured time stamp, `None` when they exceed `u64`.
pub fn seconds_from_captures(groups: &[Option<String>]) -> (r: Option<u64>)
    ensures
        ({
            let g = groups@.map_values(|o: Option<String>| match o {
                Some(t) => Some(t@),
                None => None,
            });
            &&& captured_seconds(g) <= u64::MAX ==> r == Some(captured_seconds(g) as u64)
            &&& captured_seconds(g) > u64::MAX ==> r is None
        }),
{
    let ghost g = groups@.map_values(|o: Option<String>| match o {
        Some(t) => Some(t@),
        None => None,
    });
    let mut v: [u64; 3] = [0, 0, 0];
    let mut i: usize = 1;
    while i <= 3
        invariant
            1 <= i <= 4,
            g == groups@.map_values(|o: Option<String>| match o {
                Some(t) => Some(t@),
                None => None,
            }),
            forall|k: int| 1 <= k < i ==> v@[k - 1] == group_number(g, k),
        decreases 4 - i,
    {
        let n: u64 = if i < groups.len() {
            match &groups[i] {
                Some(t) => parse_u64_or_zero(chars_of(t.as_str()).as_slice()),
                None => 0,
            }
        } else {
            0
        };
        v[i - 1] = n;
        i = i + 1;
    }
    let total: u128 = v[0] as u128 * 3600 + v[1] as u128 * 60 + v[2] as u128;
    if total > u64::MAX as u128 {
        None
    } else {
        Some(total as u64)
    }
}

/// The seconds of FFmpeg's progress in `line`, when it holds a time stamp.
pub open spec fn progress_seconds(line: Seq<char>) -> Option<nat> {
    match regex_first_captures(ffmpeg_time_pattern(), line) {
        Some(g) => Some(captured_seconds(g)),
        None => None,
    }
}

/// Reads the time stamp of an FFmpeg progress line, in seconds. A stamp beyond `u64`
/// seconds gives `None`.
pub fn ffmpeg_progress_secs(line: &str) -> (r: Option<u64>)
    ensures
        (match progress_seconds(line@) {
            Some(v) => if v <= u64::MAX { r == Some(v as u64) } else { r is None },
            None => r is None,
        }),
{
    match captures_first(r"time=(\d{2}):(\d{2}):(\d{2})\.\d{2}", line) {
        Some(groups) => {
            let r = seconds_from_captures(groups.as_slice());
            proof {
                let g = regex_first_captures(ffmpeg_time_pattern(), line@)->0;
                let h = groups@.map_values(|o: Option<String>| match o {
                    Some(t) => Some(t@),
                    None => None,
                });
                assert(h =~= g);
            }
            r
        },
        None => None,
    }
}

/// The progress message of a conversion.
pub open spec fn convert_progress_text(idx: nat, total: nat, filename: Seq<char>, bar: Seq<char>, current: nat, duration: nat) -> Seq<char> {
    "🔄 <b>正在转换</b> ("@ + decimal(idx + 1) + seq!['/'] + decimal(total) + "):\n<code>"@ + html_escaped(filename)
        + "</code>\n\n<code>"@ + bar + "</code>\n⏱️ "@ + decimal(current) + "s / "@ + decimal(duration) + seq!['s']
}

/// Builds the progress message of converting file `idx` of `total`.
pub fn convert_progress(idx: usize, total: usize, filename: &str, bar: &str, current: u64, duration: u64) -> (r: String)
    requires
        idx < total,
    ensures
        r@ == convert_progress_text(idx as nat, total as nat, filename@, bar@, current as nat, duration as nat),
{
    let mut out: Vec<char> = Vec::new();
    push_str(&mut out, "🔄 <b>正在转换</b> (");
    push_decimal(&mut out, (idx + 1) as u64);
    out.push('/');
    push_decimal(&mut out, total as u64);
    push_str(&mut out, "):\n<code>");
    push_str(&mut out, escape_html(filename).as_str());
    push_str(&mut out, "</code>\n\n<code>");
    push_str(&mut out, bar);
    push_str(&mut out, "</code>\n⏱️ ");
    push_decimal(&mut out, current);
    push_str(&mut out, "s / ");
    push_decimal(&mut out, duration);
    out.push('s');
    assert(out@ =~= convert_progress_text(idx as nat, total as nat, filename@, bar@, current as nat, duration as nat));
    string_of(out.as_slice())
}

/// The progress message of a stream.
pub open spec fn stream_progress_text(filename: Seq<char>, bar: Seq<char>, current: nat, duration: nat) -> Seq<char> {
    "📡 <b>推流中</b>: <code>"@ + html_escaped(filename) + "</code>\n\n<code>"@ + bar + "</code>\n⏱️ "@ + decimal(current)
        + "s / "@ + decimal(duration) + seq!['s']
}

/// Builds the progress message of a stream.
pub fn stream_progress(filename: &str, bar: &str, current: u64, duration: u64) -> (r: String)
    ensures
        r@ == stream_progress_text(filename@, bar@, current as nat, duration as nat),
{
    let mut out: Vec<char> = Vec::new();
    push_str(&mut out, "📡 <b>推流中</b>: <code>");
    push_str(&mut out, escape_html(filename).as_str());
    push_str(&mut out, "</code>\n\n<code>");
    push_str(&mut out, bar);
    push_str(&mut out, "</code>\n⏱️ ");
    push_decimal(&mut out, current);
    push_str(&mut out, "s / ");
    push_decimal(&mut out, duration);
    out.push('s');
    assert(out@ =~= stream_progress_text(filename@, bar@, current as nat, duration as nat));
    string_of(out.as_slice())
}

/// A path's file name, or `fallback` when it has none.
pub open spec fn name_or(p: Seq<char>, fallback: Seq<char>) -> Seq<char> {
    match file_name(p) {
        Some(n) => n,
        None => fallback,
    }
}

fn name_or_of(p: &str, fallback: &str) -> (r: String)
    ensures
        r@ == name_or(p@, fallback@),
{
    let c = chars_of(p);
    match file_name_chars(c.as_slice()) {
        Some(n) => string_of(n.as_slice()),
        None => fallback.to_owned(),
    }
}

// ── batch conversion ────────────────────────────────────────────────────────

/// The first choice of output for converting `input`: its stem (or `output`) with `.mp4`,
/// in its directory (or `.`).
pub open spec fn convert_target(input: Seq<char>) -> Seq<char> {
    let stem = match file_stem(input) {
        Some(s) => s,
        None => "output"@,
    };
    let dir = match parent(input) {
        Some(p) => p,
        None => "."@,
    };
    join(dir, stem + ".mp4"@)
}

/// The message when a conversion batch starts.
pub open spec fn convert_start_text(total: nat) -> Seq<char> {
    "🔄 准备转换 "@ + decimal(total) + " 个文件..."@
}

/// The message when a conversion batch is cancelled.
pub open spec fn convert_cancelled_text() -> Seq<char> {
    "🛑 <b>批量转换已手动终止。</b>"@
}

/// The message when file `idx` of `total` starts converting.
pub open spec fn converting_text(idx: nat, total: nat, filename: Seq<char>, output_name: Seq<char>) -> Seq<char> {
    "🔄 <b>正在转换</b> ("@ + decimal(idx + 1) + seq!['/'] + decimal(total) + "):\n<code>"@ + html_escaped(filename)
        + "</code>\n-&gt; <code>"@ + html_escaped(output_name) + "</code>\n⏳ 获取进度中..."@
}

/// The message when a conversion batch ends.
pub open spec fn convert_summary_text(success: nat, total: nat) -> Seq<char> {
    "✅ <b>批量转换完成!</b>\n成功转换 "@ + decimal(success) + seq!['/'] + decimal(total) + " 个文件。\n同名输出已自动避让。"@
}

/// Where a conversion batch stands, and what it waits for.
pub enum ConvertStage {
    /// Waits for the cancellation check before file `idx`.
    Before { idx: usize },
    /// Waits for the cancellation check after probing file `idx`.
    Probed { idx: usize },
    /// Waits for the end of converting file `idx`.
    Converting { idx: usize },
    /// Finished.
    Done,
}

/// What a conversion batch is told.
pub enum ConvertEvent {
    /// The cancellation flag as read now.
    CancelCheck { cancelled: bool },
    /// A conversion ended: whether the job was cancelled meanwhile, and whether FFmpeg
    /// succeeded and left a non-empty output.
    Converted { cancelled: bool, ok: bool },
}

/// A batch that remuxes each file to MP4 next to it, under a free name.
pub struct ConvertJob {
    /// The files, in order.
    pub files: Vec<String>,
    /// How many conversions succeeded.
    pub success_count: usize,
    /// The file name being converted.
    pub current_filename: String,
    /// The output being written.
    pub current_output: String,
    /// Where the batch stands.
    pub stage: ConvertStage,
}

fn convert_summary(success: usize, total: usize) -> (r: String)
    ensures
        r@ == convert_summary_text(success as nat, total as nat),
{
    let mut out: Vec<char> = Vec::new();
    push_str(&mut out, "✅ <b>批量转换完成!</b>\n成功转换 ");
    push_decimal(&mut out, success as u64);
    out.push('/');
    push_decimal(&mut out, total as u64);
    push_str(&mut out, " 个文件。\n同名输出已自动避让。");
    assert(out@ =~= convert_summary_text(success as nat, total as nat));
    string_of(out.as_slice())
}

impl ConvertJob {
    /// The batch's invariant: the file it waits on exists and no more conversions
    /// succeeded than were tried.
    pub open spec fn wf(&self) -> bool {
        &&& self.success_count <= self.files@.len()
        &&& match self.stage {
            ConvertStage::Before { idx } => idx < self.files@.len() && self.success_count <= idx,
            ConvertStage::Probed { idx } => idx < self.files@.len() && self.success_count <= idx,
            ConvertStage::Converting { idx } => idx < self.files@.len() && self.success_count <= idx,
            ConvertStage::Done => true,
        }
    }

    /// Starts a batch over `files`: it sends the first message and waits before the first
    /// file; an empty batch ends at once with its summary.
    pub fn start(files: Vec<String>) -> (r: (ConvertJob, Vec<JobAction>))
        ensures
            r.0.wf(),
            r.0.files@ == files@,
            r.0.success_count == 0,
            files@.len() > 0 ==> r.0.stage == (ConvertStage::Before { idx: 0 }) && acts_view(r.1@) == seq![
                ActView::SendText(convert_start_text(files@.len() as nat)),
            ],
            files@.len() == 0 ==> r.0.stage == ConvertStage::Done && acts_view(r.1@) == seq![
                ActView::SendText(convert_start_text(0)),
                ActView::EditText(convert_summary_text(0, 0)),
                ActView::Finish(None),
            ],
    {
        let n = files.len();
        let mut first: Vec<char> = Vec::new();
        push_str(&mut first, "🔄 准备转换 ");
        push_decimal(&mut first, n as u64);
        push_str(&mut first, " 个文件...");
        assert(first@ =~= convert_start_text(n as nat));
        let mut acts: Vec<JobAction> = Vec::new();
        acts.push(JobAction::SendText(string_of(first.as_slice())));
        let stage = if n > 0 {
            ConvertStage::Before { idx: 0 }
        } else {
            acts.push(JobAction::EditText(convert_summary(0, 0)));
            acts.push(JobAction::Finish(None));
            ConvertStage::Done
        };
        proof {
            if n > 0 {
                assert(acts_view(acts@) =~= seq![ActView::SendText(convert_start_text(n as nat))]);
            } else {
                assert(acts_view(acts@) =~= seq![
                    ActView::SendText(convert_start_text(0)),
                    ActView::EditText(convert_summary_text(0, 0)),
                    ActView::Finish(None),
                ]);
            }
        }
        let job = ConvertJob {
            files,
            success_count: 0,
            current_filename: String::new(),
            current_output: String::new(),
            stage,
        };
        (job, acts)
    }

    /// Advances the batch by one event. Before a file it picks the file's shown name and a
    /// free output (asking `taken`) and probes the file; after the probe it starts the
    /// conversion; after a conversion it counts a success or removes the output, and goes
    /// on to the next file or ends with the summary. A cancellation ends the batch,
    /// removing an output being written. An event the stage does not wait for changes
    /// nothing.
    pub fn step<F: Fn(&str) -> bool>(&mut self, e: ConvertEvent, taken: &F) -> (r: Vec<JobAction>)
        requires
            old(self).wf(),
            forall|s: &str| #[trigger] taken.requires((s,)),
        ensures
            final(self).wf(),
            final(self).files == old(self).files,
            ({
                let files = old(self).files@;
                let n = files.len();
                let cancel_end = seq![ActView::EditText(convert_cancelled_text()), ActView::Finish(Some(AppError::Cancelled))];
                match (old(self).stage, e) {
                    (ConvertStage::Before { idx }, ConvertEvent::CancelCheck { cancelled }) => if cancelled {
                        final(self).stage == ConvertStage::Done && acts_view(r@) == cancel_end
                    } else {
                        &&& final(self).stage == (ConvertStage::Probed { idx })
                        &&& final(self).current_filename@ == name_or(files[idx as int]@, "unknown"@)
                        &&& unique_outcome(*taken, convert_target(files[idx as int]@), final(self).current_output@)
                        &&& final(self).success_count == old(self).success_count
                        &&& acts_view(r@) == seq![ActView::Probe(files[idx as int]@)]
                    },
                    (ConvertStage::Probed { idx }, ConvertEvent::CancelCheck { cancelled }) => if cancelled {
                        final(self).stage == ConvertStage::Done && acts_view(r@) == cancel_end
                    } else {
                        &&& final(self).stage == (ConvertStage::Converting { idx })
                        &&& final(self).current_output == old(self).current_output
                        &&& final(self).success_count == old(self).success_count
                        &&& acts_view(r@) == seq![
                            ActView::EditText(converting_text(idx as nat, n, old(self).current_filename@,
                                name_or(old(self).current_output@, "output.mp4"@))),
                            ActView::Convert(files[idx as int]@, old(self).current_output@),
                        ]
                    },
                    (ConvertStage::Converting { idx }, ConvertEvent::Converted { cancelled, ok }) => if cancelled {
                        final(self).stage == ConvertStage::Done && acts_view(r@) == seq![
                            ActView::Remove(old(self).current_output@)] + cancel_end
                    } else {
                        let s: nat = (old(self).success_count + if ok { 1nat } else { 0nat }) as nat;
                        let removal = if ok { Seq::<ActView>::empty() } else { seq![ActView::Remove(old(self).current_output@)] };
                        &&& final(self).success_count == s
                        &&& idx + 1 < n ==> final(self).stage == (ConvertStage::Before { idx: (idx + 1) as usize })
                            && acts_view(r@) == removal
                        &&& idx + 1 >= n ==> final(self).stage == ConvertStage::Done && acts_view(r@) == removal + seq![
                            ActView::EditText(convert_summary_text(s, n)),
                            ActView::Finish(None),
                        ]
                    },
                    _ => final(self).stage == old(self).stage && final(self).success_count == old(self).success_count
                        && acts_view(r@) == Seq::<ActView>::empty(),
                }
            }),
    {
        let n = self.files.len();
        let mut st = ConvertStage::Done;
        std::mem::swap(&mut st, &mut self.stage);
        let mut acts: Vec<JobAction> = Vec::new();
        match (st, e) {
            (ConvertStage::Before { idx }, ConvertEvent::CancelCheck { cancelled }) => {
                if cancelled {
                    acts.push(JobAction::EditText("🛑 <b>批量转换已手动终止。</b>".to_owned()));
                    acts.push(JobAction::Finish(Some(AppError::Cancelled)));
                    self.stage = ConvertStage::Done;
                    assert(acts_view(acts@) =~= seq![ActView::EditText(convert_cancelled_text()), ActView::Finish(Some(AppError::Cancelled))]);
                } else {
                    let input = self.files[idx].as_str();
                    self.current_filename = name_or_of(input, "unknown");
                    let c = chars_of(input);
                    let mut target_name: Vec<char> = match file_name_chars(c.as_slice()) {
                        Some(nm) => stem_of_chars(nm.as_slice()),
                        None => chars_of("output"),
                    };
                    push_str(&mut target_name, ".mp4");
                    let dir: String = match parent_chars(c.as_slice()) {
                        Some(p) => string_of(p.as_slice()),
                        None => ".".to_owned(),
                    };
                    let target = join_path(dir.as_str(), string_of(target_name.as_slice()).as_str());
                    assert(target@ == convert_target(self.files@[idx as int]@));
                    self.current_output = unique_path(target.as_str(), taken);
                    acts.push(JobAction::Probe(self.files[idx].clone()));
                    self.stage = ConvertStage::Probed { idx };
                    assert(acts_view(acts@) =~= seq![ActView::Probe(self.files@[idx as int]@)]);
                }
            },
            (ConvertStage::Probed { idx }, ConvertEvent::CancelCheck { cancelled }) => {
                if cancelled {
                    acts.push(JobAction::EditText("🛑 <b>批量转换已手动终止。</b>".to_owned()));
                    acts.push(JobAction::Finish(Some(AppError::Cancelled)));
                    self.stage = ConvertStage::Done;
                    assert(acts_view(acts@) =~= seq![ActView::EditText(convert_cancelled_text()), ActView::Finish(Some(AppError::Cancelled))]);
                } else {
                    let out_name = name_or_of(self.current_output.as_str(), "output.mp4");
                    let mut t: Vec<char> = Vec::new();
                    push_str(&mut t, "🔄 <b>正在转换</b> (");
                    push_decimal(&mut t, (idx + 1) as u64);
                    t.push('/');
                    push_decimal(&mut t, n as u64);
                    push_str(&mut t, "):\n<code>");
                    push_str(&mut t, escape_html(self.current_filename.as_str()).as_str());
                    push_str(&mut t, "</code>\n-&gt; <code>");
                    push_str(&mut t, escape_html(out_name.as_str()).as_str());
                    push_str(&mut t, "</code>\n⏳ 获取进度中...");
                    assert(t@ =~= converting_text(idx as nat, n as nat, self.current_filename@, out_name@));
                    acts.push(JobAction::EditText(string_of(t.as_slice())));
                    acts.push(JobAction::Convert { input: self.files[idx].clone(), output: self.current_output.clone() });
                    self.stage = ConvertStage::Converting { idx };
                    assert(acts_view(acts@) =~= seq![
                        ActView::EditText(converting_text(idx as nat, n as nat, self.current_filename@, out_name@)),
                        ActView::Convert(self.files@[idx as int]@, self.current_output@),
                    ]);
                }
            },
            (ConvertStage::Converting { idx }, ConvertEvent::Converted { cancelled, ok }) => {
                if cancelled {
                    acts.push(JobAction::Remove(self.current_output.clone()));
                    acts.push(JobAction::EditText("🛑 <b>批量转换已手动终止。</b>".to_owned()));
                    acts.push(JobAction::Finish(Some(AppError::Cancelled)));
                    self.stage = ConvertStage::Done;
                    assert(acts_view(acts@) =~= seq![ActView::Remove(self.current_output@)] + seq![
                        ActView::EditText(convert_cancelled_text()), ActView::Finish(Some(AppError::Cancelled))]);
                } else {
                    if ok {
                        self.success_count = self.success_count + 1;
                    } else {
                        acts.push(JobAction::Remove(self.current_output.clone()));
                    }
                    let ghost removal = acts_view(acts@);
                    if idx + 1 < n {
                        self.stage = ConvertStage::Before { idx: idx + 1 };
                    } else {
                        acts.push(JobAction::EditText(convert_summary(self.success_count, n)));
                        acts.push(JobAction::Finish(None));
                        self.stage = ConvertStage::Done;
                        assert(acts_view(acts@) =~= removal + seq![
                            ActView::EditText(convert_summary_text(self.success_count as nat, n as nat)),
                            ActView::Finish(None),
                        ]);
                    }
                }
            },
            (other, _) => {
                self.stage = other;
            },
        }
        acts
    }
}

// ── streaming ───────────────────────────────────────────────────────────────

/// The message when no RTMP address is configured.
pub open spec fn rtmp_missing_text() -> Seq<char> {
    "❌ RTMP_URL 未配置。请在 <code>.env</code> 中添加 <code>RTMP_URL=你的推流地址</code>。"@
}

/// Builds the message shown when no RTMP address is configured.
pub fn rtmp_missing() -> (r: String)
    ensures
        r@ == rtmp_missing_text(),
{
    "❌ RTMP_URL 未配置。请在 <code>.env</code> 中添加 <code>RTMP_URL=你的推流地址</code>。".to_owned()
}

/// The message while a stream's file is analysed.
pub open spec fn stream_analyzing_text(filename: Seq<char>, size: Seq<char>) -> Seq<char> {
    "⏳ 正在分析推流文件: <code>"@ + html_escaped(filename) + "</code> ("@ + size + ")..."@
}

/// The message when a stream is stopped.
pub open spec fn stream_stopped_text(filename: Seq<char>) -> Seq<char> {
    "🛑 <b>推流已手动终止</b>:\n<code>"@ + html_escaped(filename) + "</code>"@
}

/// The message when a file's duration cannot be read.
pub open spec fn stream_no_duration_text() -> Seq<char> {
    "❌ 无法获取视频时长，推流终止。"@
}

/// The message when a stream ends normally.
pub open spec fn stream_done_text(filename: Seq<char>) -> Seq<char> {
    "✅ <b>推流结束</b>:\n<code>"@ + html_escaped(filename) + "</code>"@
}

/// The message when a stream ends with a failure code.
pub open spec fn stream_failed_text(filename: Seq<char>, code: int) -> Seq<char> {
    "❌ <b>推流异常结束</b>:\n<code>"@ + html_escaped(filename) + "</code>\n退出码: <code>"@ + signed_decimal(code)
        + "</code>"@
}

/// Where a stream stands, and what it waits for.
pub enum StreamStage {
    /// Waits for the cancellation check after the first message.
    Opening,
    /// Waits for whether the file has a positive duration.
    Probing,
    /// Waits for the end of streaming.
    Streaming,
    /// Finished.
    Done,
}

/// What a stream is told.
pub enum StreamEvent {
    /// The cancellation flag as read now.
    CancelCheck { cancelled: bool },
    /// Whether the probed duration is positive.
    DurationKnown { positive: bool },
    /// Streaming ended: whether the job was cancelled meanwhile, whether FFmpeg exited
    /// successfully, and its exit code (-1 without one).
    Ended { cancelled: bool, success: bool, code: i32 },
}

/// A stream of one file to an RTMP address.
pub struct StreamJob {
    /// The file streamed.
    pub file: String,
    /// Its name, as shown.
    pub filename: String,
    /// The RTMP address.
    pub url: String,
    /// Where the stream stands.
    pub stage: StreamStage,
}

fn wrapped_escaped(a: &str, s: &str, b: &str) -> (r: String)
    ensures
        r@ == a@ + html_escaped(s@) + b@,
{
    let mut out: Vec<char> = Vec::new();
    push_str(&mut out, a);
    push_str(&mut out, escape_html(s).as_str());
    push_str(&mut out, b);
    string_of(out.as_slice())
}

impl StreamJob {
    /// Starts a stream of `file` (whose size is `size_text`) to `url`; it sends the
    /// first message.
    pub fn start(file: &str, size_text: &str, url: &str) -> (r: (StreamJob, Vec<JobAction>))
        ensures
            r.0.file@ == file@,
            r.0.filename@ == name_or(file@, "unknown"@),
            r.0.url@ == url@,
            r.0.stage == StreamStage::Opening,
            acts_view(r.1@) == seq![ActView::SendText(stream_analyzing_text(r.0.filename@, size_text@))],
    {
        let filename = name_or_of(file, "unknown");
        let mut t: Vec<char> = Vec::new();
        push_str(&mut t, "⏳ 正在分析推流文件: <code>");
        push_str(&mut t, escape_html(filename.as_str()).as_str());
        push_str(&mut t, "</code> (");
        push_str(&mut t, size_text);
        push_str(&mut t, ")...");
        assert(t@ =~= stream_analyzing_text(filename@, size_text@));
        let acts = vec![JobAction::SendText(string_of(t.as_slice()))];
        assert(acts_view(acts@) =~= seq![ActView::SendText(stream_analyzing_text(filename@, size_text@))]);
        (StreamJob { file: file.to_owned(), filename, url: url.to_owned(), stage: StreamStage::Opening }, acts)
    }

    /// Advances the stream by one event: a cancellation before streaming stops it; a file
    /// without a positive duration is not streamed; the end of streaming reports how it
    /// ended, a failure code as `RtmpStreamFailed`. An event the stage does not wait for
    /// changes nothing.
    pub fn step(&mut self, e: StreamEvent) -> (r: Vec<JobAction>)
        ensures
            final(self).file == old(self).file,
            final(self).filename == old(self).filename,
            final(self).url == old(self).url,
            ({
                let name = old(self).filename@;
                match (old(self).stage, e) {
                    (StreamStage::Opening, StreamEvent::CancelCheck { cancelled }) => if cancelled {
                        final(self).stage == StreamStage::Done && acts_view(r@) == seq![
                            ActView::EditText(stream_stopped_text(name)),
                            ActView::Finish(Some(AppError::Cancelled)),
                        ]
                    } else {
                        final(self).stage == StreamStage::Probing && acts_view(r@) == seq![ActView::Probe(old(self).file@)]
                    },
                    (StreamStage::Probing, StreamEvent::DurationKnown { positive }) => if !positive {
                        final(self).stage == StreamStage::Done && acts_view(r@) == seq![
                            ActView::EditText(stream_no_duration_text()),
                            ActView::Finish(None),
                        ]
                    } else {
                        final(self).stage == StreamStage::Streaming && acts_view(r@) == seq![
                            ActView::Stream(old(self).file@, old(self).url@)]
                    },
                    (StreamStage::Streaming, StreamEvent::Ended { cancelled, success, code }) => {
                        &&& final(self).stage == StreamStage::Done
                        &&& cancelled ==> acts_view(r@) == seq![
                            ActView::EditText(stream_stopped_text(name)),
                            ActView::Finish(Some(AppError::Cancelled)),
                        ]
                        &&& !cancelled && success ==> acts_view(r@) == seq![
                            ActView::EditText(stream_done_text(name)),
                            ActView::Finish(None),
                        ]
                        &&& !cancelled && !success ==> acts_view(r@) == seq![
                            ActView::EditText(stream_failed_text(name, code as int)),
                            ActView::Finish(Some(AppError::RtmpStreamFailed { exit_code: code })),
                        ]
                    },
                    _ => final(self).stage == old(self).stage && acts_view(r@) == Seq::<ActView>::empty(),
                }
            }),
    {
        let mut st = StreamStage::Done;
        std::mem::swap(&mut st, &mut self.stage);
        let mut acts: Vec<JobAction> = Vec::new();
        match (st, e) {
            (StreamStage::Opening, StreamEvent::CancelCheck { cancelled }) => {
                if cancelled {
                    acts.push(JobAction::EditText(wrapped_escaped("🛑 <b>推流已手动终止</b>:\n<code>", self.filename.as_str(), "</code>")));
                    acts.push(JobAction::Finish(Some(AppError::Cancelled)));
                    self.stage = StreamStage::Done;
                } else {
                    acts.push(JobAction::Probe(self.file.clone()));
                    self.stage = StreamStage::Probing;
                }
            },
            (StreamStage::Probing, StreamEvent::DurationKnown { positive }) => {
                if !positive {
                    acts.push(JobAction::EditText("❌ 无法获取视频时长，推流终止。".to_owned()));
                    acts.push(JobAction::Finish(None));
                    self.stage = StreamStage::Done;
                } else {
                    acts.push(JobAction::Stream { input: self.file.clone(), url: self.url.clone() });
                    self.stage = StreamStage::Streaming;
                }
            },
            (StreamStage::Streaming, StreamEvent::Ended { cancelled, success, code }) => {
                if cancelled {
                    acts.push(JobAction::EditText(wrapped_escaped("🛑 <b>推流已手动终止</b>:\n<code>", self.filename.as_str(), "</code>")));
                    acts.push(JobAction::Finish(Some(AppError::Cancelled)));
                } else if success {
                    acts.push(JobAction::EditText(wrapped_escaped("✅ <b>推流结束</b>:\n<code>", self.filename.as_str(), "</code>")));
                    acts.push(JobAction::Finish(None));
                } else {
                    let mut t: Vec<char> = Vec::new();
                    push_str(&mut t, "❌ <b>推流异常结束</b>:\n<code>");
                    push_str(&mut t, escape_html(self.filename.as_str()).as_str());
                    push_str(&mut t, "</code>\n退出码: <code>");
                    push_signed_decimal(&mut t, code as i64);
                    push_str(&mut t, "</code>");
                    assert(t@ =~= stream_failed_text(self.filename@, code as int));
                    acts.push(JobAction::EditText(string_of(t.as_slice())));
                    acts.push(JobAction::Finish(Some(AppError::RtmpStreamFailed { exit_code: code })));
                }
                self.stage = StreamStage::Done;
            },
            (other, _) => {
                self.stage = other;
            },
        }
        acts
    }
}


// ── batch deletion ──────────────────────────────────────────────────────────

/// The message when a deletion batch is cancelled.
pub open spec fn delete_cancelled_text(deleted: nat) -> Seq<char> {
    "🛑 **删除任务已手动终止。**\n已删除 "@ + decimal(deleted) + " 个文件。"@
}

/// The message when a deletion batch ends.
pub open spec fn delete_done_text(deleted: nat, failed: nat) -> Seq<char> {
    "🗑️ **清理完成!**\n成功删除 "@ + decimal(deleted) + " 个文件，失败 "@ + decimal(failed) + " 个。"@
}

/// Where a deletion batch stands, and what it waits for.
pub enum DeleteStage {
    /// Waits for the cancellation check before file `idx`.
    Before { idx: usize },
    /// Waits for the result of deleting file `idx`.
    Deleting { idx: usize },
    /// Waits for the final cancellation check.
    Ending,
    /// Finished.
    Done,
}

/// What a deletion batch is told.
pub enum DeleteEvent {
    /// The cancellation flag as read now.
    CancelCheck { cancelled: bool },
    /// Whether the path was a file and was removed.
    Deleted { ok: bool },
}

/// A batch that deletes files one by one, counting successes and failures.
pub struct DeleteJob {
    pub files: Vec<String>,
    pub deleted: usize,
    pub failed: usize,
    pub stage: DeleteStage,
}

impl DeleteJob {
    /// The batch's invariant: the counts stay within the files tried.
    pub open spec fn wf(&self) -> bool {
        &&& self.deleted + self.failed <= self.files@.len()
        &&& match self.stage {
            DeleteStage::Before { idx } => idx < self.files@.len() && self.deleted + self.failed == idx,
            DeleteStage::Deleting { idx } => idx < self.files@.len() && self.deleted + self.failed == idx,
            _ => true,
        }
    }

    /// Starts a batch over `files`; an empty batch goes straight to its end.
    pub fn start(files: Vec<String>) -> (r: (DeleteJob, Vec<JobAction>))
        ensures
            r.0.wf(),
            r.0.files@ == files@,
            r.0.deleted == 0 && r.0.failed == 0,
            files@.len() > 0 ==> r.0.stage == (DeleteStage::Before { idx: 0 }) && acts_view(r.1@) == Seq::<ActView>::empty(),
            files@.len() == 0 ==> r.0.stage == DeleteStage::Ending && acts_view(r.1@) == seq![ActView::ClearPendingDeletes],
    {
        let mut acts: Vec<JobAction> = Vec::new();
        let stage = if files.len() > 0 {
            DeleteStage::Before { idx: 0 }
        } else {
            acts.push(JobAction::ClearPendingDeletes);
            DeleteStage::Ending
        };
        proof {
            if files@.len() > 0 {
                assert(acts_view(acts@) =~= Seq::<ActView>::empty());
            } else {
                assert(acts_view(acts@) =~= seq![ActView::ClearPendingDeletes]);
            }
        }
        (DeleteJob { files, deleted: 0, failed: 0, stage }, acts)
    }

    /// Advances the batch by one event: a cancellation before a file ends the loop; each
    /// result is counted; after the loop the pending list is cleared, and the last check
    /// decides between the cancelled and the finished report. An event the stage does not
    /// wait for changes nothing.
    pub fn step(&mut self, e: DeleteEvent) -> (r: Vec<JobAction>)
        requires
            old(self).wf(),
        ensures
            final(self).wf(),
            final(self).files == old(self).files,
            ({
                let n = old(self).files@.len();
                match (old(self).stage, e) {
                    (DeleteStage::Before { idx }, DeleteEvent::CancelCheck { cancelled }) => if cancelled {
                        final(self).stage == DeleteStage::Ending && acts_view(r@) == seq![ActView::ClearPendingDeletes]
                            && final(self).deleted == old(self).deleted && final(self).failed == old(self).failed
                    } else {
                        final(self).stage == (DeleteStage::Deleting { idx }) && acts_view(r@) == seq![
                            ActView::DeleteFile(old(self).files@[idx as int]@)]
                            && final(self).deleted == old(self).deleted && final(self).failed == old(self).failed
                    },
                    (DeleteStage::Deleting { idx }, DeleteEvent::Deleted { ok }) => {
                        &&& final(self).deleted == old(self).deleted + if ok { 1int } else { 0int }
                        &&& final(self).failed == old(self).failed + if ok { 0int } else { 1int }
                        &&& idx + 1 < n ==> final(self).stage == (DeleteStage::Before { idx: (idx + 1) as usize })
                            && acts_view(r@) == Seq::<ActView>::empty()
                        &&& idx + 1 >= n ==> final(self).stage == DeleteStage::Ending && acts_view(r@) == seq![
                            ActView::ClearPendingDeletes]
                    },
                    (DeleteStage::Ending, DeleteEvent::CancelCheck { cancelled }) => {
                        &&& final(self).stage == DeleteStage::Done
                        &&& final(self).deleted == old(self).deleted && final(self).failed == old(self).failed
                        &&& cancelled ==> acts_view(r@) == seq![
                            ActView::EditText(delete_cancelled_text(old(self).deleted as nat)),
                            ActView::Finish(Some(AppError::Cancelled)),
                        ]
                        &&& !cancelled ==> acts_view(r@) == seq![
                            ActView::EditText(delete_done_text(old(self).deleted as nat, old(self).failed as nat)),
                            ActView::Finish(None),
                        ]
                    },
                    _ => final(self).stage == old(self).stage && final(self).deleted == old(self).deleted
                        && final(self).failed == old(self).failed && acts_view(r@) == Seq::<ActView>::empty(),
                }
            }),
    {
        let n = self.files.len();
        let mut st = DeleteStage::Done;
        std::mem::swap(&mut st, &mut self.stage);
        let mut acts: Vec<JobAction> = Vec::new();
        match (st, e) {
            (DeleteStage::Before { idx }, DeleteEvent::CancelCheck { cancelled }) => {
                if cancelled {
                    acts.push(JobAction::ClearPendingDeletes);
                    self.stage = DeleteStage::Ending;
                } else {
                    acts.push(JobAction::DeleteFile(self.files[idx].clone()));
                    self.stage = DeleteStage::Deleting { idx };
                }
            },
            (DeleteStage::Deleting { idx }, DeleteEvent::Deleted { ok }) => {
                if ok {
                    self.deleted = self.deleted + 1;
                } else {
                    self.failed = self.failed + 1;
                }
                if idx + 1 < n {
                    self.stage = DeleteStage::Before { idx: idx + 1 };
                } else {
                    acts.push(JobAction::ClearPendingDeletes);
                    self.stage = DeleteStage::Ending;
                }
            },
            (DeleteStage::Ending, DeleteEvent::CancelCheck { cancelled }) => {
                let mut t: Vec<char> = Vec::new();
                if cancelled {
                    push_str(&mut t, "🛑 **删除任务已手动终止。**\n已删除 ");
                    push_decimal(&mut t, self.deleted as u64);
                    push_str(&mut t, " 个文件。");
                    assert(t@ =~= delete_cancelled_text(self.deleted as nat));
                    acts.push(JobAction::EditText(string_of(t.as_slice())));
                    acts.push(JobAction::Finish(Some(AppError::Cancelled)));
                } else {
                    push_str(&mut t, "🗑️ **清理完成!**\n成功删除 ");
                    push_decimal(&mut t, self.deleted as u64);
                    push_str(&mut t, " 个文件，失败 ");
                    push_decimal(&mut t, self.failed as u64);
                    push_str(&mut t, " 个。");
                    assert(t@ =~= delete_done_text(self.deleted as nat, self.failed as nat));
                    acts.push(JobAction::EditText(string_of(t.as_slice())));
                    acts.push(JobAction::Finish(None));
                }
                self.stage = DeleteStage::Done;
            },
            (other, _) => {
                self.stage = other;
            },
        }
        acts
    }
}

// ── uploads ─────────────────────────────────────────────────────────────────

/// The number of bytes of a character in UTF-8.
pub open spec fn char_utf8_len(c: char) -> nat {
    if (c as u32) < 0x80 {
        1
    } else if (c as u32) < 0x800 {
        2
    } else if (c as u32) < 0x10000 {
        3
    } else {
        4
    }
}

/// The number of bytes of a text in UTF-8 (`str::len`).
pub open spec fn utf8_len(s: Seq<char>) -> nat
    decreases s.len(),
{
    if s.len() == 0 {
        0
    } else {
        utf8_len(s.drop_last()) + char_utf8_len(s.last())
    }
}

proof fn lemma_utf8_len_bound(s: Seq<char>)
    ensures
        utf8_len(s) <= 4 * s.len(),
    decreases s.len(),
{
    if s.len() > 0 {
        lemma_utf8_len_bound(s.drop_last());
    }
}

/// The UTF-8 length of a string plus `add`, reduced modulo `m`.
fn utf8_len_mod(s: &str, add: usize, m: usize) -> (r: usize)
    requires
        m > 0,
    ensures
        r == (utf8_len(s@) + add) % (m as int),
{
    let c = chars_of(s);
    let mut acc: u128 = add as u128;
    let mut i: usize = 0;
    while i < c.len()
        invariant
            i <= c@.len(),
            c@ == s@,
            acc == utf8_len(c@.take(i as int)) + add,
            utf8_len(c@.take(i as int)) <= 4 * i,
        decreases c@.len() - i,
    {
        let ch = c[i];
        let w: u128 = if (ch as u32) < 0x80 { 1 } else if (ch as u32) < 0x800 { 2 } else if (ch as u32) < 0x10000 { 3 } else { 4 };
        assert(c@.take(i + 1).drop_last() =~= c@.take(i as int));
        assert(w == char_utf8_len(c@[i as int]));
        acc = acc + w;
        i = i + 1;
    }
    assert(c@.take(c@.len() as int) =~= c@);
    (acc % (m as u128)) as usize
}

/// The id of the `idx`-th upload of a batch started at `now_ms`:
/// `yt_{now_ms}_{idx}_{(bytes of the path + idx) mod 100000}`.
pub open spec fn upload_task_id(now_ms: nat, idx: nat, path: Seq<char>) -> Seq<char> {
    "yt_"@ + decimal(now_ms) + seq!['_'] + decimal(idx) + seq!['_'] + decimal(((utf8_len(path) + idx) % 100000) as nat)
}

/// One upload of a batch: its id, the file's shown name, and its path.
#[derive(Debug)]
pub struct UploadPlan {
    pub task_id: String,
    pub filename: String,
    pub path: String,
}

/// The files that exist, in order.
pub open spec fn existing_files(files: Seq<Seq<char>>, is_file: Seq<bool>) -> Seq<Seq<char>>
    decreases files.len(),
{
    if files.len() == 0 || is_file.len() == 0 {
        Seq::empty()
    } else {
        let rest = existing_files(files.drop_last(), is_file.take(files.len() - 1));
        if is_file[files.len() - 1] { rest.push(files.last()) } else { rest }
    }
}

/// The text sent for each upload when it is created.
pub open spec fn upload_created_text(filename: Seq<char>) -> Seq<char> {
    "⏳ 创建 YouTube 上传任务:\n`"@ + filename + seq!['`']
}

/// Builds the text sent when an upload is created.
pub fn upload_created(filename: &str) -> (r: String)
    ensures
        r@ == upload_created_text(filename@),
{
    let mut t: Vec<char> = Vec::new();
    push_str(&mut t, "⏳ 创建 YouTube 上传任务:\n`");
    push_str(&mut t, filename);
    t.push('`');
    assert(t@ =~= upload_created_text(filename@));
    string_of(t.as_slice())
}

/// The text once a batch of uploads has started.
pub open spec fn uploads_started_text(count: nat, max_concurrent: nat) -> Seq<char> {
    "✅ 已启动 `"@ + decimal(count) + "` 个 YouTube 上传任务。\n并发上限: `"@ + decimal(max_concurrent)
        + "`\n发送 /uploads 查看任务，/stop 停止所有任务。"@
}

/// Builds the text once a batch of uploads has started.
pub fn uploads_started(count: usize, max_concurrent: usize) -> (r: String)
    ensures
        r@ == uploads_started_text(count as nat, max_concurrent as nat),
{
    let mut t: Vec<char> = Vec::new();
    push_str(&mut t, "✅ 已启动 `");
    push_decimal(&mut t, count as u64);
    push_str(&mut t, "` 个 YouTube 上传任务。\n并发上限: `");
    push_decimal(&mut t, max_concurrent as u64);
    push_str(&mut t, "`\n发送 /uploads 查看任务，/stop 停止所有任务。");
    assert(t@ =~= uploads_started_text(count as nat, max_concurrent as nat));
    string_of(t.as_slice())
}

impl AppState {
    /// Plans uploads of `files` (`is_file` tells which exist) at time `now_ms`: refused
    /// when none exists, when the token file at `token_path` is missing, or while an
    /// exclusive task runs; otherwise one plan per existing file, in order.
    pub fn plan_uploads(&mut self, files: &[String], is_file: &[bool], token_exists: bool, token_path: &str, now_ms: u64) -> (r: Result<Vec<UploadPlan>, AppError>)
        requires
            files@.len() == is_file@.len(),
        ensures
            ({
                let targets = existing_files(files@.map_values(|s: String| s@), is_file@);
                &&& targets.len() == 0 ==> (r matches Err(AppError::InvalidArgument { message: m }) && m@ == "没有可上传的视频文件。"@)
                &&& targets.len() > 0 && !token_exists ==> (r matches Err(AppError::YoutubeTokenMissing { path: p })
                    && p@ == token_path@)
                &&& targets.len() > 0 && token_exists && old(self).spec_has_active_task() ==> (r matches Err(
                    AppError::TaskAlreadyRunning { task_name: n },
                ) && n@ == old(self).active_task->0.name@)
                &&& targets.len() > 0 && token_exists && !old(self).spec_has_active_task() ==> (r matches Ok(v)
                    && v@.len() == targets.len() && forall|i: int| 0 <= i < v@.len() ==> {
                    &&& (#[trigger] v@[i]).path@ == targets[i]
                    &&& v@[i].filename@ == name_or(targets[i], "unknown"@)
                    &&& v@[i].task_id@ == upload_task_id(now_ms as nat, i as nat, targets[i])
                })
            }),
            final(self).youtube_pool == old(self).youtube_pool,
            final(self).spec_has_active_task() == old(self).spec_has_active_task(),
    {
        let ghost fs = files@.map_values(|s: String| s@);
        let mut targets: Vec<String> = Vec::new();
        let mut i: usize = 0;
        while i < files.len()
            invariant
                i <= files@.len(),
                files@.len() == is_file@.len(),
                fs == files@.map_values(|s: String| s@),
                targets@.map_values(|s: String| s@) == existing_files(fs.take(i as int), is_file@.take(i as int)),
            decreases files@.len() - i,
        {
            assert(fs.take(i + 1).drop_last() =~= fs.take(i as int));
            assert(is_file@.take(i + 1).take(i as int) =~= is_file@.take(i as int));
            if is_file[i] {
                targets.push(files[i].clone());
            }
            assert(targets@.map_values(|s: String| s@) =~= existing_files(fs.take(i + 1), is_file@.take(i + 1)));
            i = i + 1;
        }
        assert(fs.take(files@.len() as int) =~= fs);
        assert(is_file@.take(files@.len() as int) =~= is_file@);
        let ghost tv = targets@.map_values(|s: String| s@);
        if targets.len() == 0 {
            return Err(AppError::InvalidArgument { message: "没有可上传的视频文件。".to_owned() });
        }
        if !token_exists {
            return Err(AppError::YoutubeTokenMissing { path: token_path.to_owned() });
        }
        self.cleanup_active_task();
        if self.has_active_task() {
            let name = match self.active_task_name() {
                Some(n) => n.to_owned(),
                None => "运行中任务".to_owned(),
            };
            return Err(AppError::TaskAlreadyRunning { task_name: name });
        }
        let mut plans: Vec<UploadPlan> = Vec::new();
        let mut k: usize = 0;
        while k < targets.len()
            invariant
                k <= targets@.len(),
                tv == targets@.map_values(|s: String| s@),
                plans@.len() == k,
                forall|j: int| 0 <= j < k ==> {
                    &&& (#[trigger] plans@[j]).path@ == tv[j]
                    &&& plans@[j].filename@ == name_or(tv[j], "unknown"@)
                    &&& plans@[j].task_id@ == upload_task_id(now_ms as nat, j as nat, tv[j])
                },
            decreases targets@.len() - k,
        {
            let path = targets[k].as_str();
            let filename = name_or_of(path, "unknown");
            let h = utf8_len_mod(path, k, 100000);
            let mut id: Vec<char> = Vec::new();
            push_str(&mut id, "yt_");
            push_decimal(&mut id, now_ms);
            id.push('_');
            push_decimal(&mut id, k as u64);
            id.push('_');
            push_decimal(&mut id, h as u64);
            assert(id@ =~= upload_task_id(now_ms as nat, k as nat, tv[k as int]));
            plans.push(UploadPlan { task_id: string_of(id.as_slice()), filename, path: path.to_owned() });
            k = k + 1;
        }
        Ok(plans)
    }
}

/// The text while an upload waits in the queue.
pub open spec fn upload_queued_text(filename: Seq<char>, max_concurrent: nat) -> Seq<char> {
    "⏳ **已加入 YouTube 上传队列**\n`"@ + filename + "`\n并发上限: `"@ + decimal(max_concurrent)
        + "`\n发送 /uploads 查看，/stop 停止。"@
}

/// The text when a queued upload is cancelled.
pub open spec fn upload_cancelled_text(filename: Seq<char>) -> Seq<char> {
    "🛑 **YouTube 上传已取消**:\n`"@ + filename + seq!['`']
}

/// The text while the API is prepared.
pub open spec fn upload_init_text(filename: Seq<char>) -> Seq<char> {
    "🔄 初始化 YouTube API...\n`"@ + filename + seq!['`']
}

/// The text of a successful upload.
pub open spec fn upload_success_text(filename: Seq<char>, time: Seq<char>, video_id: Seq<char>) -> Seq<char> {
    "✅ **上传成功！**\n🎬 视频名称: `"@ + filename + "`\n🕒 上传时间: `"@ + time + "`\n📺 观看链接: `https://youtu.be/"@
        + video_id + "`\n🛠️ Studio: `https://studio.youtube.com/video/"@ + video_id + "/edit`"@
}

/// The text of a failed upload.
pub open spec fn upload_failed_text(error: Seq<char>) -> Seq<char> {
    "❌ 上传异常:\n`"@ + error + seq!['`']
}

/// Where an upload stands, and what it waits for.
pub enum UploadStage {
    /// Waits for a slot among the concurrent uploads.
    Queued,
    /// Waits for the upload's outcome.
    Uploading,
    /// Finished.
    Done,
}

/// What an upload is told.
pub enum UploadEvent {
    /// A slot was granted; whether cancellation was requested meanwhile.
    Admitted { cancelled: bool },
    /// The upload ended with the video id or an error text.
    Uploaded { outcome: Result<String, String> },
}

/// One upload's course: queued, admitted, uploaded or failed.
pub struct UploadJob {
    pub path: String,
    pub filename: String,
    pub stage: UploadStage,
}

fn backticked(prefix: &str, s: &str) -> (r: String)
    ensures
        r@ == prefix@ + s@ + seq!['`'],
{
    let mut out: Vec<char> = Vec::new();
    push_str(&mut out, prefix);
    push_str(&mut out, s);
    out.push('`');
    string_of(out.as_slice())
}

impl UploadJob {
    /// Queues the upload of `path` named `filename`, with `max_concurrent` uploads at once.
    pub fn start(path: &str, filename: &str, max_concurrent: usize) -> (r: (UploadJob, Vec<JobAction>))
        ensures
            r.0.path@ == path@,
            r.0.filename@ == filename@,
            r.0.stage == UploadStage::Queued,
            acts_view(r.1@) == seq![
                ActView::SetStatus("排队中"@, Some(0u32)),
                ActView::EditText(upload_queued_text(filename@, max_concurrent as nat)),
            ],
    {
        let mut t: Vec<char> = Vec::new();
        push_str(&mut t, "⏳ **已加入 YouTube 上传队列**\n`");
        push_str(&mut t, filename);
        push_str(&mut t, "`\n并发上限: `");
        push_decimal(&mut t, max_concurrent as u64);
        push_str(&mut t, "`\n发送 /uploads 查看，/stop 停止。");
        assert(t@ =~= upload_queued_text(filename@, max_concurrent as nat));
        let acts = vec![
            JobAction::SetStatus { status: "排队中".to_owned(), progress: Some(0) },
            JobAction::EditText(string_of(t.as_slice())),
        ];
        assert(acts_view(acts@) =~= seq![
            ActView::SetStatus("排队中"@, Some(0u32)),
            ActView::EditText(upload_queued_text(filename@, max_concurrent as nat)),
        ]);
        (UploadJob { path: path.to_owned(), filename: filename.to_owned(), stage: UploadStage::Queued }, acts)
    }

    /// Advances the upload by one event. Once admitted it is cancelled if asked, else it
    /// uploads; its outcome sets the final status and message, with the upload time read
    /// from the clock on success. An event the stage does not wait for changes nothing.
    pub fn step(&mut self, e: UploadEvent) -> (r: Vec<JobAction>)
        ensures
            final(self).path == old(self).path,
            final(self).filename == old(self).filename,
            ({
                let name = old(self).filename@;
                match (old(self).stage, e) {
                    (UploadStage::Queued, UploadEvent::Admitted { cancelled }) => if cancelled {
                        final(self).stage == UploadStage::Done && acts_view(r@) == seq![
                            ActView::SetStatus("已取消"@, Some(0u32)),
                            ActView::EditText(upload_cancelled_text(name)),
                            ActView::Finish(Some(AppError::YoutubeUploadCancelled { filename: old(self).filename })),
                        ]
                    } else {
                        final(self).stage == UploadStage::Uploading && acts_view(r@) == seq![
                            ActView::SetStatus("初始化"@, Some(0u32)),
                            ActView::EditText(upload_init_text(name)),
                            ActView::SetStatus("上传中"@, Some(0u32)),
                            ActView::Upload(old(self).path@, name),
                        ]
                    },
                    (UploadStage::Uploading, UploadEvent::Uploaded { outcome }) => {
                        &&& final(self).stage == UploadStage::Done
                        &&& outcome matches Ok(id) ==> exists|t: LocalDateTime| valid_reading(t) && acts_view(r@) == seq![
                            ActView::SetStatus("完成"@, Some(100u32)),
                            ActView::EditText(upload_success_text(name, display_text(t), id@)),
                            ActView::Finish(None),
                        ]
                        &&& outcome matches Err(m) ==> acts_view(r@) == seq![
                            ActView::SetStatus("失败"@, None),
                            ActView::EditText(upload_failed_text(m@)),
                            ActView::Finish(Some(AppError::YoutubeApiError { message: m })),
                        ]
                    },
                    _ => final(self).stage == old(self).stage && acts_view(r@) == Seq::<ActView>::empty(),
                }
            }),
    {
        let mut st = UploadStage::Done;
        std::mem::swap(&mut st, &mut self.stage);
        let mut acts: Vec<JobAction> = Vec::new();
        match (st, e) {
            (UploadStage::Queued, UploadEvent::Admitted { cancelled }) => {
                if cancelled {
                    acts.push(JobAction::SetStatus { status: "已取消".to_owned(), progress: Some(0) });
                    acts.push(JobAction::EditText(backticked("🛑 **YouTube 上传已取消**:\n`", self.filename.as_str())));
                    acts.push(JobAction::Finish(Some(AppError::YoutubeUploadCancelled { filename: self.filename.clone() })));
                    self.stage = UploadStage::Done;
                    assert(acts_view(acts@) =~= seq![
                        ActView::SetStatus("已取消"@, Some(0u32)),
                        ActView::EditText(upload_cancelled_text(self.filename@)),
                        ActView::Finish(Some(AppError::YoutubeUploadCancelled { filename: self.filename })),
                    ]);
                } else {
                    acts.push(JobAction::SetStatus { status: "初始化".to_owned(), progress: Some(0) });
                    acts.push(JobAction::EditText(backticked("🔄 初始化 YouTube API...\n`", self.filename.as_str())));
                    acts.push(JobAction::SetStatus { status: "上传中".to_owned(), progress: Some(0) });
                    acts.push(JobAction::Upload { path: self.path.clone(), filename: self.filename.clone() });
                    self.stage = UploadStage::Uploading;
                    assert(acts_view(acts@) =~= seq![
                        ActView::SetStatus("初始化"@, Some(0u32)),
                        ActView::EditText(upload_init_text(self.filename@)),
                        ActView::SetStatus("上传中"@, Some(0u32)),
                        ActView::Upload(self.path@, self.filename@),
                    ]);
                }
            },
            (UploadStage::Uploading, UploadEvent::Uploaded { outcome }) => {
                match outcome {
                    Ok(id) => {
                        let time = now_display();
                        let ghost reading = choose|t: LocalDateTime| valid_reading(t) && time@ == display_text(t);
                        let mut t: Vec<char> = Vec::new();
                        push_str(&mut t, "✅ **上传成功！**\n🎬 视频名称: `");
                        push_str(&mut t, self.filename.as_str());
                        push_str(&mut t, "`\n🕒 上传时间: `");
                        push_str(&mut t, time.as_str());
                        push_str(&mut t, "`\n📺 观看链接: `https://youtu.be/");
                        push_str(&mut t, id.as_str());
                        push_str(&mut t, "`\n🛠️ Studio: `https://studio.youtube.com/video/");
                        push_str(&mut t, id.as_str());
                        push_str(&mut t, "/edit`");
                        assert(t@ =~= upload_success_text(self.filename@, time@, id@));
                        acts.push(JobAction::SetStatus { status: "完成".to_owned(), progress: Some(100) });
                        acts.push(JobAction::EditText(string_of(t.as_slice())));
                        acts.push(JobAction::Finish(None));
                        assert(acts_view(acts@) =~= seq![
                            ActView::SetStatus("完成"@, Some(100u32)),
                            ActView::EditText(upload_success_text(self.filename@, display_text(reading), id@)),
                            ActView::Finish(None),
                        ]);
                    },
                    Err(m) => {
                        acts.push(JobAction::SetStatus { status: "失败".to_owned(), progress: None });
                        acts.push(JobAction::EditText(backticked("❌ 上传异常:\n`", m.as_str())));
                        let ghost mm = m;
                        acts.push(JobAction::Finish(Some(AppError::YoutubeApiError { message: m })));
                        assert(acts_view(acts@) =~= seq![
                            ActView::SetStatus("失败"@, None),
                            ActView::EditText(upload_failed_text(mm@)),
                            ActView::Finish(Some(AppError::YoutubeApiError { message: mm })),
                        ]);
                    },
                }
                self.stage = UploadStage::Done;
            },
            (other, _) => {
                self.stage = other;
            },
        }
        acts
    }
}

impl AppState {
    /// The chosen files of `action` that exist (`is_file` answers for each chosen path, in
    /// order), sorted; `None` when there are none, with the alert to show.
    pub fn batch_files(&self, action: ActionType, is_file: &[bool]) -> (r: Result<Vec<String>, String>)
        requires
            is_file@.len() == self.selections.chosen_list(action).len(),
        ensures
            ({
                let kept = existing_files(self.selections.chosen_list(action), is_file@);
                &&& kept.len() == 0 ==> (r matches Err(m) && m@ == "❌ 请先选择至少一个文件！"@)
                &&& kept.len() > 0 ==> (r matches Ok(v) && crate::text::texts_sorted(v@.map_values(|s: String| s@))
                    && v@.map_values(|s: String| s@).to_multiset() == kept.to_multiset())
            }),
    {
        let empty: Vec<String> = Vec::new();
        let chosen: &Vec<String> = match self.selections_ref(&action) {
            Some(v) => v,
            None => &empty,
        };
        assert(chosen@.map_values(|s: String| s@) =~= self.selections.chosen_list(action));
        let ghost fs = chosen@.map_values(|s: String| s@);
        let mut kept: Vec<String> = Vec::new();
        let mut i: usize = 0;
        while i < chosen.len()
            invariant
                i <= chosen@.len(),
                chosen@.len() == is_file@.len(),
                fs == chosen@.map_values(|s: String| s@),
                kept@.map_values(|s: String| s@) == existing_files(fs.take(i as int), is_file@.take(i as int)),
            decreases chosen@.len() - i,
        {
            assert(fs.take(i + 1).drop_last() =~= fs.take(i as int));
            assert(is_file@.take(i + 1).take(i as int) =~= is_file@.take(i as int));
            if is_file[i] {
                kept.push(chosen[i].clone());
            }
            assert(kept@.map_values(|s: String| s@) =~= existing_files(fs.take(i + 1), is_file@.take(i + 1)));
            i = i + 1;
        }
        assert(fs.take(chosen@.len() as int) =~= fs);
        assert(is_file@.take(chosen@.len() as int) =~= is_file@);
        if kept.len() == 0 {
            return Err("❌ 请先选择至少一个文件！".to_owned());
        }
        Ok(crate::text::sort_strings(kept))
    }
}

} // verus!
