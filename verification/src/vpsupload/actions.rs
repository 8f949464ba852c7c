//! What the upload bot's media actions name and say.
use vstd::prelude::*;
use crate::media_control::format::{escape_html, html_escaped};
use crate::media_control::jobs::{merge_target, run_id, run_id_text};
use crate::media_control::storage::{free_outcome, join_path};
use crate::paths::{join_with, file_name, file_name_chars, file_stem, join, join_chars, parent, parent_chars, stem_of_chars};
use crate::text::{chars_of, decimal, push_chars, push_decimal, push_str, string_of};
use crate::vpsupload::media::{smart_rename, unique_path, vp_smart_outcome};

verus! {

/// `{head}{escaped name}{tail}`.
pub open spec fn wrapped(head: Seq<char>, name: Seq<char>, tail: Seq<char>) -> Seq<char> {
    head + html_escaped(name) + tail
}

/// Builds `{head}{escaped name}{tail}`.
pub fn wrap_name(head: &str, name: &str, tail: &str) -> (r: String)
    ensures
        r@ == wrapped(head@, name@, tail@),
{
    let mut out: Vec<char> = Vec::new();
    push_str(&mut out, head);
    push_str(&mut out, escape_html(name).as_str());
    push_str(&mut out, tail);
    string_of(out.as_slice())
}

/// A path's file name, or nothing.
pub open spec fn name_or_empty(p: Seq<char>) -> Seq<char> {
    match file_name(p) {
        Some(n) => n,
        None => Seq::empty(),
    }
}

/// A path's file name, or nothing.
pub fn file_name_or_empty(p: &str) -> (r: String)
    ensures
        r@ == name_or_empty(p@),
{
    match file_name_chars(chars_of(p).as_slice()) {
        Some(n) => string_of(n.as_slice()),
        None => {
            let e: Vec<char> = Vec::new();
            assert(e@ =~= Seq::<char>::empty());
            string_of(e.as_slice())
        },
    }
}

/// The progress message of a stream.
pub open spec fn vp_stream_progress_text(filename: Seq<char>, bar: Seq<char>, current: nat, duration: nat) -> Seq<char> {
    "📡 <b>推流执行中</b>: <code>"@ + html_escaped(filename) + "</code>\n\n"@ + bar + "\n⏱️ "@ + decimal(current) + "s / "@
        + decimal(duration) + seq!['s']
}

/// Builds the progress message of a stream.
pub fn vp_stream_progress(filename: &str, bar: &str, current: u64, duration: u64) -> (r: String)
    ensures
        r@ == vp_stream_progress_text(filename@, bar@, current as nat, duration as nat),
{
    let mut out: Vec<char> = Vec::new();
    push_str(&mut out, "📡 <b>推流执行中</b>: <code>");
    push_str(&mut out, escape_html(filename).as_str());
    push_str(&mut out, "</code>\n\n");
    push_str(&mut out, bar);
    push_str(&mut out, "\n⏱️ ");
    push_decimal(&mut out, current);
    push_str(&mut out, "s / ");
    push_decimal(&mut out, duration);
    out.push('s');
    assert(out@ =~= vp_stream_progress_text(filename@, bar@, current as nat, duration as nat));
    string_of(out.as_slice())
}

/// How a stream ended, and what it says then.
pub open spec fn stream_end_text(filename: Seq<char>, cancelled: bool, success: bool) -> Seq<char> {
    if cancelled {
        wrapped("🛑 <b>推流任务已手动终止</b>:\n<code>"@, filename, "</code>"@)
    } else if success {
        wrapped("✅ <b>推流顺利结束</b>:\n<code>"@, filename, "</code>"@)
    } else {
        wrapped("❌ <b>推流异常终止</b>:\n<code>"@, filename, "</code>"@)
    }
}

/// Builds the message at the end of a stream.
pub fn stream_end(filename: &str, cancelled: bool, success: bool) -> (r: String)
    ensures
        r@ == stream_end_text(filename@, cancelled, success),
{
    if cancelled {
        wrap_name("🛑 <b>推流任务已手动终止</b>:\n<code>", filename, "</code>")
    } else if success {
        wrap_name("✅ <b>推流顺利结束</b>:\n<code>", filename, "</code>")
    } else {
        wrap_name("❌ <b>推流异常终止</b>:\n<code>", filename, "</code>")
    }
}

/// Where a merge writes, and under which names.
#[derive(Debug)]
pub struct VpConcatPlan {
    pub work_dir: String,
    pub list_file: String,
    pub output_path: String,
    pub output_name: String,
}

/// Plans a merge of `files` (at least two) with temporary names marked by `run_id`:
/// it works in the first file's directory (or `.`), lists the inputs in
/// `.concat_list_{run_id}.txt` and writes to a free path named after the first file.
pub fn plan_concat<F: Fn(&str) -> bool>(files: &[String], run_id: &str, taken: &F) -> (r: VpConcatPlan)
    requires
        files@.len() >= 2,
        forall|s: &str| #[trigger] taken.requires((s,)),
    ensures
        r.work_dir@ == (match parent(files@[0]@) { Some(p) => p, None => "."@ }),
        r.list_file@ == join(r.work_dir@, ".concat_list_"@ + run_id@ + ".txt"@),
        exists|m: Seq<char>| vp_smart_outcome(files@[0]@, m) && free_outcome(*taken, merge_target(r.work_dir@, m), "file"@, r.output_path@),
        r.output_name@ == name_or_empty(r.output_path@),
{
    let first = chars_of(files[0].as_str());
    let work_dir: String = match parent_chars(first.as_slice()) {
        Some(p) => string_of(p.as_slice()),
        None => ".".to_owned(),
    };
    let mut list_name: Vec<char> = Vec::new();
    push_str(&mut list_name, ".concat_list_");
    push_str(&mut list_name, run_id);
    push_str(&mut list_name, ".txt");
    let list_file = join_path(work_dir.as_str(), string_of(list_name.as_slice()).as_str());
    let merged = smart_rename(files[0].as_str());
    let mut target_name: Vec<char> = match file_name_chars(chars_of(merged.as_str()).as_slice()) {
        Some(n) => stem_of_chars(n.as_slice()),
        None => chars_of("merged"),
    };
    push_str(&mut target_name, ".mp4");
    let target = join_path(work_dir.as_str(), string_of(target_name.as_slice()).as_str());
    assert(target@ == merge_target(work_dir@, merged@));
    let output_path = unique_path(target.as_str(), taken);
    let output_name = file_name_or_empty(output_path.as_str());
    VpConcatPlan { work_dir, list_file, output_path, output_name }
}

/// The messages of a merge.
pub open spec fn concat_preparing_text(output: Seq<char>) -> Seq<char> {
    wrapped("⏳ <b>正在验证和准备拼接...</b>\n输出: <code>"@, output, "</code>"@)
}

/// The message when a merge succeeded.
pub open spec fn concat_done_text(output: Seq<char>) -> Seq<char> {
    wrapped("✅ <b>视频合并成功！</b>\n📁 新文件: <code>"@, output, "</code>"@)
}

/// Builds the message while a merge is prepared.
pub fn concat_preparing(output: &str) -> (r: String)
    ensures
        r@ == concat_preparing_text(output@),
{
    wrap_name("⏳ <b>正在验证和准备拼接...</b>\n输出: <code>", output, "</code>")
}

/// Builds the message when a merge succeeded.
pub fn concat_done(output: &str) -> (r: String)
    ensures
        r@ == concat_done_text(output@),
{
    wrap_name("✅ <b>视频合并成功！</b>\n📁 新文件: <code>", output, "</code>")
}

/// How a merge ended and what is left to do: the message to show, if any, and whether
/// the output and the list file are removed.
pub struct VpConcatEnd {
    pub message: Option<String>,
    pub remove_output: bool,
    pub remove_list: bool,
}

/// The end of a merge into `output`: stopped by a cancellation while FFmpeg ran (the
/// output goes, the stop is reported), or finished, when the list file goes and a success
/// is reported; a failure removes the output and is reported unless a stop was requested.
pub fn concat_end(output: &str, stopped: bool, success: bool, cancel_requested: bool) -> (r: VpConcatEnd)
    ensures
        stopped ==> r.remove_output && !r.remove_list && (r.message matches Some(m) && m@ == "🛑 <b>视频合并任务已手动终止。</b>"@),
        !stopped && success ==> !r.remove_output && r.remove_list && (r.message matches Some(m) && m@ == concat_done_text(output@)),
        !stopped && !success ==> r.remove_output && r.remove_list && (cancel_requested ==> r.message is None)
            && (!cancel_requested ==> (r.message matches Some(m)
            && m@ == "❌ <b>直连拼接处理失败。</b> 编码不兼容或容器异常，请尝试转码后再合并。"@)),
{
    if stopped {
        VpConcatEnd { message: Some("🛑 <b>视频合并任务已手动终止。</b>".to_owned()), remove_output: true, remove_list: false }
    } else if success {
        VpConcatEnd { message: Some(concat_done(output)), remove_output: false, remove_list: true }
    } else if cancel_requested {
        VpConcatEnd { message: None, remove_output: true, remove_list: true }
    } else {
        VpConcatEnd {
            message: Some("❌ <b>直连拼接处理失败。</b> 编码不兼容或容器异常，请尝试转码后再合并。".to_owned()),
            remove_output: true,
            remove_list: true,
        }
    }
}

/// `Path::with_file_name`: the path with its file name replaced, or extended by the name
/// when it has none.
pub open spec fn with_file_name(p: Seq<char>, name: Seq<char>) -> Seq<char> {
    match file_name(p) {
        Some(_) => match parent(p) {
            Some(d) => join(d, name),
            None => name,
        },
        None => join(p, name),
    }
}

/// The first choice of output when converting `input`: its stem (or `video`) with `.mp4`
/// in its place.
pub open spec fn vp_convert_target(input: Seq<char>) -> Seq<char> {
    with_file_name(input, (match file_stem(input) { Some(s) => s, None => "video"@ }) + ".mp4"@)
}

/// A free output path for converting `input`.
pub fn convert_output<F: Fn(&str) -> bool>(input: &str, taken: &F) -> (r: String)
    requires
        forall|s: &str| #[trigger] taken.requires((s,)),
    ensures
        free_outcome(*taken, vp_convert_target(input@), "file"@, r@),
{
    let c = chars_of(input);
    let mut name: Vec<char> = match file_name_chars(c.as_slice()) {
        Some(n) => stem_of_chars(n.as_slice()),
        None => chars_of("video"),
    };
    push_str(&mut name, ".mp4");
    let target: Vec<char> = match file_name_chars(c.as_slice()) {
        Some(_) => match parent_chars(c.as_slice()) {
            Some(d) => join_chars(d.as_slice(), name.as_slice()),
            None => name,
        },
        None => join_chars(c.as_slice(), name.as_slice()),
    };
    let t = string_of(target.as_slice());
    assert(t@ == vp_convert_target(input@));
    unique_path(t.as_str(), taken)
}

/// The message while converting file `idx` of `total`.
pub open spec fn converting_text(idx: nat, total: nat, filename: Seq<char>) -> Seq<char> {
    "🔄 <b>转换处理中</b> ("@ + decimal(idx + 1) + seq!['/'] + decimal(total) + ")\n<code>"@ + html_escaped(filename)
        + "</code> -> <code>.mp4</code>"@
}

/// Builds the message while converting file `idx` of `total`.
pub fn converting(idx: usize, total: usize, filename: &str) -> (r: String)
    requires
        idx < usize::MAX,
    ensures
        r@ == converting_text(idx as nat, total as nat, filename@),
{
    let mut out: Vec<char> = Vec::new();
    push_str(&mut out, "🔄 <b>转换处理中</b> (");
    push_decimal(&mut out, (idx + 1) as u64);
    out.push('/');
    push_decimal(&mut out, total as u64);
    push_str(&mut out, ")\n<code>");
    push_str(&mut out, escape_html(filename).as_str());
    push_str(&mut out, "</code> -> <code>.mp4</code>");
    assert(out@ =~= converting_text(idx as nat, total as nat, filename@));
    string_of(out.as_slice())
}

/// The message at the end of a conversion batch.
pub open spec fn convert_end_text(cancelled: bool, success: nat, total: nat) -> Seq<char> {
    if cancelled {
        "🛑 <b>批量转码任务已被手动终止！</b>"@
    } else {
        "✅ <b>批量转码完成！</b> 成功转换: "@ + decimal(success) + seq!['/'] + decimal(total)
    }
}

/// Builds the message at the end of a conversion batch.
pub fn convert_end(cancelled: bool, success: usize, total: usize) -> (r: String)
    ensures
        r@ == convert_end_text(cancelled, success as nat, total as nat),
{
    if cancelled {
        return "🛑 <b>批量转码任务已被手动终止！</b>".to_owned();
    }
    let mut out: Vec<char> = Vec::new();
    push_str(&mut out, "✅ <b>批量转码完成！</b> 成功转换: ");
    push_decimal(&mut out, success as u64);
    out.push('/');
    push_decimal(&mut out, total as u64);
    assert(out@ =~= convert_end_text(cancelled, success as nat, total as nat));
    string_of(out.as_slice())
}

/// The message at the end of a deletion batch.
pub open spec fn delete_end_text(deleted: nat) -> Seq<char> {
    "🗑️ <b>批量清理完成!</b> 成功彻底删除 "@ + decimal(deleted) + " 个物理文件。"@
}

/// Builds the message at the end of a deletion batch.
pub fn delete_end(deleted: usize) -> (r: String)
    ensures
        r@ == delete_end_text(deleted as nat),
{
    let mut out: Vec<char> = Vec::new();
    push_str(&mut out, "🗑️ <b>批量清理完成!</b> 成功彻底删除 ");
    push_decimal(&mut out, deleted as u64);
    push_str(&mut out, " 个物理文件。");
    assert(out@ =~= delete_end_text(deleted as nat));
    string_of(out.as_slice())
}

/// The refusal of a merge of fewer than two files.
pub open spec fn too_few_to_merge_text() -> Seq<char> {
    "❌ 至少需要选择 2 个视频才能执行合并任务。"@
}

/// What a merge of `count` files is refused with: fewer than two files are refused.
pub fn concat_refusal(count: usize) -> (r: Option<String>)
    ensures
        count < 2 ==> (r matches Some(t) && t@ == too_few_to_merge_text()),
        count >= 2 ==> (r is None),
{
    if count < 2 {
        Some("❌ 至少需要选择 2 个视频才能执行合并任务。".to_owned())
    } else {
        None
    }
}

/// One line of the delete confirmation: the file's name, escaped.
pub open spec fn delete_line(path: Seq<char>) -> Seq<char> {
    "• <code>"@ + html_escaped(name_or_empty(path)) + "</code>"@
}

/// The delete confirmation: every file to delete by name, one a line, and a warning.
pub open spec fn vp_delete_confirmation_text(paths: Seq<Seq<char>>) -> Seq<char> {
    "⚠️ <b>即将永久删除以下文件</b>\n\n"@ + join_with(paths.map_values(|p: Seq<char>| delete_line(p)), '\n')
        + "\n\n删除后不可恢复。"@
}

/// Builds the delete confirmation for `paths`.
pub fn vp_delete_confirmation(paths: &[String]) -> (r: String)
    ensures
        r@ == vp_delete_confirmation_text(paths@.map_values(|s: String| s@)),
{
    let ghost ps = paths@.map_values(|s: String| s@);
    let ghost lines = ps.map_values(|p: Seq<char>| delete_line(p));
    let mut body: Vec<char> = Vec::new();
    let mut i: usize = 0;
    assert(lines.take(0) =~= Seq::<Seq<char>>::empty());
    while i < paths.len()
        invariant
            i <= paths@.len(),
            ps == paths@.map_values(|s: String| s@),
            lines == ps.map_values(|p: Seq<char>| delete_line(p)),
            body@ == join_with(lines.take(i as int), '\n'),
        decreases paths@.len() - i,
    {
        let mut line: Vec<char> = Vec::new();
        push_str(&mut line, "• <code>");
        push_str(&mut line, escape_html(file_name_or_empty(paths[i].as_str()).as_str()).as_str());
        push_str(&mut line, "</code>");
        assert(line@ == lines[i as int]);
        assert(lines.take(i + 1).drop_last() =~= lines.take(i as int));
        assert(lines.take(i + 1).last() == lines[i as int]);
        if i > 0 {
            body.push('\n');
        } else {
            assert(lines.take(1) =~= seq![lines[0]]);
        }
        push_chars(&mut body, line.as_slice());
        i = i + 1;
    }
    assert(lines.take(paths@.len() as int) =~= lines);
    let mut out: Vec<char> = Vec::new();
    push_str(&mut out, "⚠️ <b>即将永久删除以下文件</b>\n\n");
    push_chars(&mut out, body.as_slice());
    push_str(&mut out, "\n\n删除后不可恢复。");
    string_of(out.as_slice())
}

} // verus!
