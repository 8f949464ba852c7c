//! Texts of the panel: the main menu, replies to commands, the delete confirmation and
//! file details.
use vstd::prelude::*;
use crate::media_control::keyboard::{keyboard_view, main_menu_keyboard, main_menu_rows, Button};
use crate::media_control::state::{AppState, UploadEntry, running_only, with_cancel};
use crate::paths::{file_name, file_name_chars, join_with};
use crate::text::{contains, occurs_at, chars_of, decimal, push_chars, push_decimal, push_str, string_of};

verus! {

/// The main menu text.
pub open spec fn main_menu_text(base_dir: Seq<char>, active_task: Option<Seq<char>>, upload_count: nat) -> Seq<char> {
    "=== 🎬 VPS 多媒体主控面板 ===\n根目录: `"@ + base_dir + "`\n💡 提示: /uploads 查看上传，/stop 中断运行任务"@
        + (match active_task {
        Some(n) => "\n🔒 当前独占任务: `"@ + n + seq!['`'],
        None => Seq::empty(),
    }) + (if upload_count > 0 {
        "\n☁️ YouTube 上传/排队: `"@ + decimal(upload_count) + seq!['`']
    } else {
        Seq::empty()
    })
}

/// The main menu.
pub struct MainMenu;

impl MainMenu {
    /// The main menu's text and keyboard, for the base directory, the exclusive task if one
    /// runs, and the number of running uploads.
    pub fn render(base_dir: &str, active_task_name: Option<&str>, upload_count: usize) -> (r: (String, Vec<Vec<Button>>))
        ensures
            r.0@ == main_menu_text(
                base_dir@,
                match active_task_name {
                    Some(n) => Some(n@),
                    None => None,
                },
                upload_count as nat,
            ),
            keyboard_view(r.1@) == main_menu_rows(),
    {
        let mut out: Vec<char> = Vec::new();
        push_str(&mut out, "=== 🎬 VPS 多媒体主控面板 ===\n根目录: `");
        push_str(&mut out, base_dir);
        push_str(&mut out, "`\n💡 提示: /uploads 查看上传，/stop 中断运行任务");
        match active_task_name {
            Some(n) => {
                push_str(&mut out, "\n🔒 当前独占任务: `");
                push_str(&mut out, n);
                out.push('`');
            },
            None => {},
        }
        if upload_count > 0 {
            push_str(&mut out, "\n☁️ YouTube 上传/排队: `");
            push_decimal(&mut out, upload_count as u64);
            out.push('`');
        }
        assert(out@ =~= main_menu_text(
            base_dir@,
            match active_task_name {
                Some(n) => Some(n@),
                None => None,
            },
            upload_count as nat,
        ));
        (string_of(out.as_slice()), main_menu_keyboard())
    }
}

/// The reply to `/stop`.
pub open spec fn stop_reply_text(has_active: bool, upload_count: nat) -> Seq<char> {
    if !has_active && upload_count == 0 {
        "ℹ️ 当前没有正在运行的任务。"@
    } else {
        let parts: Seq<Seq<char>> = (if has_active { seq!["正在中断当前独占任务"@] } else { Seq::empty() }) + (
        if upload_count > 0 {
            seq!["已标记 "@ + decimal(upload_count) + " 个 YouTube 上传任务为取消"@]
        } else {
            Seq::empty()
        });
        "🛑 <b>已接收停止指令！</b>\n"@ + join_with(parts, '\n') + "\n\nYouTube 上传会在当前 chunk 返回后停止。"@
    }
}

/// What `/stop` did: the reply, and the process to terminate.
pub struct StopOutcome {
    pub reply: String,
    pub kill_pid: Option<u32>,
}

impl AppState {
    /// Handles `/stop`: after clearing finished work, cancels everything when an
    /// exclusive task or an upload runs, and says what was stopped.
    pub fn stop_command(&mut self) -> (r: StopOutcome)
        ensures
            r.reply@ == stop_reply_text(old(self).spec_has_active_task(), old(self).spec_active_youtube_count()),
            !old(self).spec_has_active_task() && old(self).spec_active_youtube_count() == 0 ==> {
                &&& r.kill_pid is None
                &&& final(self).cancel_flag == old(self).cancel_flag
            },
            old(self).spec_has_active_task() || old(self).spec_active_youtube_count() > 0 ==> {
                &&& final(self).cancel_flag
                &&& r.kill_pid == old(self).current_process_pid
            },
            final(self).spec_has_active_task() == old(self).spec_has_active_task(),
            final(self).spec_active_youtube_count() == old(self).spec_active_youtube_count(),
            !old(self).spec_has_active_task() && old(self).spec_active_youtube_count() == 0 ==> final(self).youtube_pool@
                == running_only(old(self).youtube_pool@),
            old(self).spec_has_active_task() || old(self).spec_active_youtube_count() > 0 ==> final(self).youtube_pool@
                == running_only(old(self).youtube_pool@).map_values(|e: UploadEntry| with_cancel(e)),
    {
        self.cleanup_active_task();
        self.cleanup_youtube_pool();
        let has_active = self.has_active_task();
        let count = self.active_youtube_count();
        if !has_active && count == 0 {
            return StopOutcome { reply: "ℹ️ 当前没有正在运行的任务。".to_owned(), kill_pid: None };
        }
        let pid = self.cancel_all();
        let mut out: Vec<char> = Vec::new();
        push_str(&mut out, "🛑 <b>已接收停止指令！</b>\n");
        let ghost head = out@;
        let mut part2: Vec<char> = Vec::new();
        if count > 0 {
            push_str(&mut part2, "已标记 ");
            push_decimal(&mut part2, count as u64);
            push_str(&mut part2, " 个 YouTube 上传任务为取消");
        }
        let ghost parts: Seq<Seq<char>> = (if has_active { seq!["正在中断当前独占任务"@] } else { Seq::empty() }) + (
        if count > 0 {
            seq![part2@]
        } else {
            Seq::empty()
        });
        if has_active {
            push_str(&mut out, "正在中断当前独占任务");
            if count > 0 {
                out.push('\n');
                push_chars(&mut out, part2.as_slice());
                assert(parts.drop_last() =~= seq!["正在中断当前独占任务"@]);
            } else {
                assert(parts =~= seq!["正在中断当前独占任务"@]);
            }
        } else {
            push_chars(&mut out, part2.as_slice());
            assert(parts =~= seq![part2@]);
        }
        let ghost mid = out@;
        push_str(&mut out, "\n\nYouTube 上传会在当前 chunk 返回后停止。");
        proof {
            if has_active && count > 0 {
                assert(join_with(parts.drop_last(), '\n') == "正在中断当前独占任务"@);
                assert(join_with(parts, '\n') == join_with(parts.drop_last(), '\n') + seq!['\n'] + part2@);
            }
            assert(mid =~= head + join_with(parts, '\n'));
        }
        assert(out@ =~= stop_reply_text(has_active, count as nat));
        StopOutcome { reply: string_of(out.as_slice()), kill_pid: pid }
    }
}

/// One line of the upload list.
pub open spec fn upload_line(idx: nat, e: UploadEntry, elapsed: Seq<char>) -> Seq<char> {
    decimal(idx + 1) + ". `"@ + e.task.filename@ + "`\n   状态: "@ + e.task.status@ + seq![' '] + decimal(
        e.task.progress as nat,
    ) + ".0%\n   已运行: `"@ + elapsed + seq!['`']
}

/// The upload list: a title, one entry per upload, and a closing hint.
pub open spec fn upload_list_text(pool: Seq<UploadEntry>, elapsed: Seq<Seq<char>>) -> Seq<char> {
    join_with(
        seq!["📤 **YouTube 上传任务** ("@ + decimal(pool.len()) + " 个)\n"@] + Seq::new(
            pool.len(),
            |i: int| upload_line(i as nat, pool[i], elapsed[i]),
        ) + seq!["\n发送 /stop 可停止当前所有任务。"@],
        '\n',
    )
}

proof fn lemma_join_push(pieces: Seq<Seq<char>>, p: Seq<char>)
    requires
        pieces.len() > 0,
    ensures
        join_with(pieces.push(p), '\n') == join_with(pieces, '\n') + seq!['\n'] + p,
{
    let q = pieces.push(p);
    assert(q.drop_last() =~= pieces);
}

proof fn lemma_join_concat(a: Seq<Seq<char>>, b: Seq<Seq<char>>, sep: char)
    requires
        a.len() > 0,
        b.len() > 0,
    ensures
        join_with(a + b, sep) == join_with(a, sep) + seq![sep] + join_with(b, sep),
    decreases b.len(),
{
    if b.len() == 1 {
        assert((a + b).drop_last() =~= a);
        assert((a + b).last() == b[0]);
    } else {
        let b1 = b.drop_last();
        lemma_join_concat(a, b1, sep);
        assert((a + b).drop_last() =~= a + b1);
        assert((a + b).last() == b.last());
        assert(join_with(b, sep) == join_with(b1, sep) + seq![sep] + b.last());
    }
}

/// Entry `k` of the upload list describes the `k`-th upload of the pool: its number,
/// file name, status, progress and running time all appear, in that order, in the list.
pub proof fn lemma_upload_list_shows_each_upload(pool: Seq<UploadEntry>, elapsed: Seq<Seq<char>>, k: int)
    requires
        pool.len() == elapsed.len(),
        0 <= k < pool.len(),
    ensures
        contains(
            upload_list_text(pool, elapsed),
            decimal((k + 1) as nat) + ". `"@ + pool[k].task.filename@ + "`\n   状态: "@ + pool[k].task.status@ + seq![' ']
                + decimal(pool[k].task.progress as nat) + ".0%\n   已运行: `"@ + elapsed[k] + seq!['`'],
        ),
{
    let head = seq!["📤 **YouTube 上传任务** ("@ + decimal(pool.len()) + " 个)\n"@];
    let lines = Seq::new(pool.len(), |i: int| upload_line(i as nat, pool[i], elapsed[i]));
    let tail = seq!["\n发送 /stop 可停止当前所有任务。"@];
    let x = head + lines.take(k);
    let z = lines.skip(k + 1) + tail;
    let y = seq![lines[k]] + z;
    assert(head + lines + tail =~= x + y);
    lemma_join_concat(x, y, '\n');
    lemma_join_concat(seq![lines[k]], z, '\n');
    let line = lines[k];
    assert(line == upload_line(k as nat, pool[k], elapsed[k]));
    let text = upload_list_text(pool, elapsed);
    let pre = join_with(x, '\n') + seq!['\n'];
    let post = seq!['\n'] + join_with(z, '\n');
    assert(text =~= pre + line + post);
    assert(text.subrange(pre.len() as int, (pre.len() + line.len()) as int) =~= line);
    assert(occurs_at(text, line, pre.len() as int));
}


/// Formats the uploads; `elapsed` holds each upload's running time, formatted.
pub fn format_upload_list(pool: &[UploadEntry], elapsed: &[String]) -> (r: String)
    requires
        pool@.len() == elapsed@.len(),
    ensures
        r@ == upload_list_text(pool@, elapsed@.map_values(|s: String| s@)),
{
    let ghost el = elapsed@.map_values(|s: String| s@);
    let ghost lines = Seq::new(pool@.len(), |i: int| upload_line(i as nat, pool@[i], el[i]));
    let mut out: Vec<char> = Vec::new();
    push_str(&mut out, "📤 **YouTube 上传任务** (");
    push_decimal(&mut out, pool.len() as u64);
    push_str(&mut out, " 个)\n");
    let ghost first = out@;
    assert(join_with(seq![first], '\n') == first);
    let mut i: usize = 0;
    while i < pool.len()
        invariant
            i <= pool@.len(),
            pool@.len() == elapsed@.len(),
            el == elapsed@.map_values(|s: String| s@),
            lines == Seq::new(pool@.len(), |i: int| upload_line(i as nat, pool@[i], el[i])),
            out@ == join_with(seq![first] + lines.take(i as int), '\n'),
        decreases pool@.len() - i,
    {
        let ghost before = seq![first] + lines.take(i as int);
        out.push('\n');
        push_decimal(&mut out, (i + 1) as u64);
        push_str(&mut out, ". `");
        push_str(&mut out, pool[i].task.filename.as_str());
        push_str(&mut out, "`\n   状态: ");
        push_str(&mut out, pool[i].task.status.as_str());
        out.push(' ');
        push_decimal(&mut out, pool[i].task.progress as u64);
        push_str(&mut out, ".0%\n   已运行: `");
        push_str(&mut out, elapsed[i].as_str());
        out.push('`');
        proof {
            lemma_join_push(before, lines[i as int]);
            assert(seq![first] + lines.take(i + 1) =~= before.push(lines[i as int]));
        }
        i = i + 1;
    }
    assert(lines.take(pool@.len() as int) =~= lines);
    let ghost body = seq![first] + lines;
    assert(seq![first] + lines.take(pool@.len() as int) =~= body);
    out.push('\n');
    push_str(&mut out, "\n发送 /stop 可停止当前所有任务。");
    proof {
        lemma_join_push(body, "\n发送 /stop 可停止当前所有任务。"@);
        assert(first == "📤 **YouTube 上传任务** ("@ + decimal(pool@.len()) + " 个)\n"@);
        assert(lines =~= Seq::new(pool@.len(), |i: int| upload_line(i as nat, pool@[i], el[i])));
        assert(seq!["📤 **YouTube 上传任务** ("@ + decimal(pool@.len()) + " 个)\n"@] + Seq::new(
            pool@.len(),
            |i: int| upload_line(i as nat, pool@[i], el[i]),
        ) + seq!["\n发送 /stop 可停止当前所有任务。"@] =~= body.push("\n发送 /stop 可停止当前所有任务。"@));
    }
    assert(out@ =~= upload_list_text(pool@, el));
    string_of(out.as_slice())
}

/// The reply to `/uploads`: the list, or a note that there are no uploads.
pub open spec fn uploads_reply_text(pool: Seq<UploadEntry>, elapsed: Seq<Seq<char>>) -> Seq<char> {
    if pool.len() == 0 {
        "ℹ️ 当前没有 YouTube 上传任务。"@
    } else {
        upload_list_text(pool, elapsed)
    }
}

/// Builds the reply to `/uploads` for the (cleaned) pool.
pub fn uploads_reply(pool: &[UploadEntry], elapsed: &[String]) -> (r: String)
    requires
        pool@.len() == elapsed@.len(),
    ensures
        r@ == uploads_reply_text(pool@, elapsed@.map_values(|s: String| s@)),
{
    if pool.len() == 0 {
        "ℹ️ 当前没有 YouTube 上传任务。".to_owned()
    } else {
        format_upload_list(pool, elapsed)
    }
}

/// The preview lines of the first files that have a file name.
pub open spec fn preview_lines(files: Seq<Seq<char>>) -> Seq<Seq<char>>
    decreases files.len(),
{
    if files.len() == 0 {
        Seq::empty()
    } else {
        let rest = preview_lines(files.drop_last());
        match file_name(files.last()) {
            Some(n) => rest.push("• `"@ + n + seq!['`']),
            None => rest,
        }
    }
}

/// The delete confirmation: the first files by name, how many more there are, and a
/// warning.
pub open spec fn delete_confirmation_text(files: Seq<Seq<char>>) -> Seq<char> {
    let shown = preview_lines(files.take(if files.len() < 12 { files.len() as int } else { 12 }));
    let lines = if files.len() > 12 {
        shown.push("... 其余 "@ + decimal((files.len() - 12) as nat) + " 个文件未展开"@)
    } else {
        shown
    };
    "⚠️ **二次确认：即将永久删除以下文件**\n\n"@ + join_with(lines, '\n') + "\n\n删除后不可恢复。"@
}

fn push_line(out: &mut Vec<char>, count: &mut usize, line: &[char], Ghost(lines): Ghost<Seq<Seq<char>>>)
    requires
        old(out)@ == join_with(lines, '\n'),
        *old(count) == lines.len(),
        lines.len() < usize::MAX,
    ensures
        final(out)@ == join_with(lines.push(line@), '\n'),
        *final(count) == lines.len() + 1,
{
    if *count > 0 {
        out.push('\n');
    }
    push_chars(out, line);
    assert(lines.push(line@).drop_last() =~= lines);
    *count = *count + 1;
}

impl AppState {
    /// Records `files` as pending deletion and builds the confirmation text.
    pub fn delete_confirmation(&mut self, files: Vec<String>) -> (r: String)
        ensures
            r@ == delete_confirmation_text(files@.map_values(|s: String| s@)),
            final(self).pending_delete_files@ == files@,
            final(self).active_task == old(self).active_task,
            final(self).youtube_pool == old(self).youtube_pool,
            final(self).selections == old(self).selections,
    {
        let ghost fs = files@.map_values(|s: String| s@);
        let n = files.len();
        let shown_n: usize = if n < 12 { n } else { 12 };
        let mut out: Vec<char> = Vec::new();
        let mut count: usize = 0;
        let mut i: usize = 0;
        assert(fs.take(0) =~= Seq::<Seq<char>>::empty());
        while i < shown_n
            invariant
                i <= shown_n <= files@.len(),
                shown_n <= 12,
                fs == files@.map_values(|s: String| s@),
                out@ == join_with(preview_lines(fs.take(i as int)), '\n'),
                count == preview_lines(fs.take(i as int)).len(),
                count <= i,
            decreases shown_n - i,
        {
            let ghost prev = preview_lines(fs.take(i as int));
            assert(fs.take(i + 1).drop_last() =~= fs.take(i as int));
            let p = chars_of(files[i].as_str());
            assert(fs.take(i + 1).last() == p@);
            assert(preview_lines(fs.take(i + 1)) == match file_name(p@) {
                Some(n) => prev.push("• `"@ + n + seq!['`']),
                None => prev,
            });
            match file_name_chars(p.as_slice()) {
                Some(name) => {
                    let mut line: Vec<char> = Vec::new();
                    push_str(&mut line, "• `");
                    push_chars(&mut line, name.as_slice());
                    line.push('`');
                    assert(line@ =~= "• `"@ + name@ + seq!['`']);
                    push_line(&mut out, &mut count, line.as_slice(), Ghost(prev));
                },
                None => {},
            }
            i = i + 1;
        }
        let ghost shown = preview_lines(fs.take(shown_n as int));
        if n > 12 {
            let mut line: Vec<char> = Vec::new();
            push_str(&mut line, "... 其余 ");
            push_decimal(&mut line, (n - 12) as u64);
            push_str(&mut line, " 个文件未展开");
            push_line(&mut out, &mut count, line.as_slice(), Ghost(shown));
        }
        let mut text: Vec<char> = Vec::new();
        push_str(&mut text, "⚠️ **二次确认：即将永久删除以下文件**\n\n");
        push_chars(&mut text, out.as_slice());
        push_str(&mut text, "\n\n删除后不可恢复。");
        assert(text@ =~= delete_confirmation_text(fs));
        self.pending_delete_files = files;
        string_of(text.as_slice())
    }
}

/// The details shown for one file.
pub open spec fn file_info_text(name: Seq<char>, size: Seq<char>, duration: Seq<char>, modified: Seq<char>) -> Seq<char> {
    "📄 "@ + name + "\n━━━━━━━━━━━━\n📏 大小: "@ + size + "\n⏱️ 时长: "@ + duration + "\n🕒 修改时间: "@ + modified
}

/// The file's name as shown in its details, `unknown` when the path has none.
pub open spec fn shown_file_name(path: Seq<char>) -> Seq<char> {
    match file_name(path) {
        Some(n) => n,
        None => "unknown"@,
    }
}

/// Builds the details of the file at `path` from its formatted size, duration and
/// modification time.
pub fn file_info(path: &str, size: &str, duration: &str, modified: &str) -> (r: String)
    ensures
        r@ == file_info_text(shown_file_name(path@), size@, duration@, modified@),
{
    let p = chars_of(path);
    let name: Vec<char> = match file_name_chars(p.as_slice()) {
        Some(n) => n,
        None => chars_of("unknown"),
    };
    let mut out: Vec<char> = Vec::new();
    push_str(&mut out, "📄 ");
    push_chars(&mut out, name.as_slice());
    push_str(&mut out, "\n━━━━━━━━━━━━\n📏 大小: ");
    push_str(&mut out, size);
    push_str(&mut out, "\n⏱️ 时长: ");
    push_str(&mut out, duration);
    push_str(&mut out, "\n🕒 修改时间: ");
    push_str(&mut out, modified);
    assert(out@ =~= file_info_text(shown_file_name(path@), size@, duration@, modified@));
    string_of(out.as_slice())
}

} // verus!
