//! Chunked uploads: the access token, the chunks and their byte ranges, and the messages.
use vstd::prelude::*;
use crate::media_control::format::{display_text, escape_html, html_escaped, now_display, valid_reading, LocalDateTime};
use crate::text::{chars_of, decimal, push_chars, push_decimal, push_str, string_of};

verus! {

/// The text of field `key` of the JSON object in `text` when it is a string; `None` when
/// the field is missing or not a string; the parser's message when `text` is not JSON.
pub uninterp spec fn json_string_field(text: Seq<char>, key: Seq<char>) -> Result<Option<Seq<char>>, Seq<char>>;

/// `serde_json::from_str::<Value>(text)`, then `get(key)` and `as_str()`.
#[verifier::external_body]
pub(crate) fn string_field(text: &str, key: &str) -> (r: Result<Option<String>, String>)
    ensures
        (match r {
            Ok(Some(v)) => json_string_field(text@, key@) == Ok::<Option<Seq<char>>, Seq<char>>(Some(v@)),
            Ok(None) => json_string_field(text@, key@) == Ok::<Option<Seq<char>>, Seq<char>>(None),
            Err(e) => json_string_field(text@, key@) == Err::<Option<Seq<char>>, Seq<char>>(e@),
        }),
{
    match serde_json::from_str::<serde_json::Value>(text) {
        Ok(v) => match v.get(key) {
            Some(f) => match f.as_str() {
                Some(t) => Ok(Some(t.to_owned())),
                None => Ok(None),
            },
            None => Ok(None),
        },
        Err(e) => Err(e.to_string()),
    }
}

/// The access token held by a token file's content: its `access_token`, else its
/// `token`; a parse failure or a missing token is an error message.
pub open spec fn token_from(content: Seq<char>) -> Result<Seq<char>, Seq<char>> {
    match json_string_field(content, "access_token"@) {
        Err(e) => Err("解析 token.json 失败: "@ + e),
        Ok(Some(t)) => Ok(t),
        Ok(None) => match json_string_field(content, "token"@) {
            Ok(Some(t)) => Ok(t),
            Err(e) => Err("解析 token.json 失败: "@ + e),
            Ok(None) => Err("token.json 中未找到 access_token 字段"@),
        },
    }
}

fn parse_failure(e: &str) -> (r: String)
    ensures
        r@ == "解析 token.json 失败: "@ + e@,
{
    let mut out: Vec<char> = Vec::new();
    push_str(&mut out, "解析 token.json 失败: ");
    push_str(&mut out, e);
    string_of(out.as_slice())
}

/// Reads the access token from a token file's content.
pub fn access_token_from_json(content: &str) -> (r: Result<String, String>)
    ensures
        (match r {
            Ok(t) => token_from(content@) == Ok::<Seq<char>, Seq<char>>(t@),
            Err(e) => token_from(content@) == Err::<Seq<char>, Seq<char>>(e@),
        }),
{
    match string_field(content, "access_token") {
        Err(e) => Err(parse_failure(e.as_str())),
        Ok(Some(t)) => Ok(t),
        Ok(None) => match string_field(content, "token") {
            Ok(Some(t)) => Ok(t),
            Err(e) => Err(parse_failure(e.as_str())),
            Ok(None) => Err("token.json 中未找到 access_token 字段".to_owned()),
        },
    }
}

/// The first `n` characters of `s`.
pub open spec fn first_chars(s: Seq<char>, n: nat) -> Seq<char> {
    if s.len() <= n { s } else { s.take(n as int) }
}

/// A video title from a file name: its first 95 characters.
pub fn upload_title(filename: &str) -> (r: String)
    ensures
        r@ == first_chars(filename@, 95),
{
    let c = chars_of(filename);
    let n: usize = if c.len() < 95 { c.len() } else { 95 };
    let mut out: Vec<char> = Vec::new();
    push_chars(&mut out, &c.as_slice()[0..n]);
    assert(c@.subrange(0, n as int) =~= first_chars(filename@, 95));
    string_of(out.as_slice())
}

/// A video description naming the file.
pub open spec fn upload_description_text(filename: Seq<char>) -> Seq<char> {
    "Uploaded by VPS Telegram Bot\nFile: "@ + filename
}

/// Builds the video description.
pub fn upload_description(filename: &str) -> (r: String)
    ensures
        r@ == upload_description_text(filename@),
{
    let mut out: Vec<char> = Vec::new();
    push_str(&mut out, "Uploaded by VPS Telegram Bot\nFile: ");
    push_str(&mut out, filename);
    string_of(out.as_slice())
}

/// The `Content-Range` of a chunk of `len` bytes at `offset` in a file of `total` bytes.
pub open spec fn content_range_text(offset: nat, len: nat, total: nat) -> Seq<char> {
    "bytes "@ + decimal(offset) + seq!['-'] + decimal((offset + len - 1) as nat) + seq!['/'] + decimal(total)
}

/// Where a chunked upload of a file stands.
pub struct ChunkCursor {
    /// Bytes sent so far.
    pub offset: u64,
    /// The file's size.
    pub size: u64,
    /// The chunk size.
    pub chunk: u64,
}

impl ChunkCursor {
    /// The cursor's invariant: a positive chunk size and an offset within the file.
    pub open spec fn wf(&self) -> bool {
        self.chunk > 0 && self.offset <= self.size
    }

    /// A cursor at the start of a file of `size` bytes sent in chunks of `chunk_mb` MiB.
    pub fn new(size: u64, chunk_mb: u64) -> (c: ChunkCursor)
        requires
            chunk_mb > 0,
            chunk_mb * 1024 * 1024 <= u64::MAX,
        ensures
            c.wf(),
            c.offset == 0,
            c.size == size,
            c.chunk == chunk_mb * 1024 * 1024,
    {
        ChunkCursor { offset: 0, size, chunk: chunk_mb * 1024 * 1024 }
    }

    /// The next chunk, as its length and its `Content-Range`; `None` once all is sent.
    pub fn next_chunk(&self) -> (r: Option<(u64, String)>)
        requires
            self.wf(),
        ensures
            self.offset >= self.size ==> r is None,
            self.offset < self.size ==> (r matches Some(p) && p.0 == (if self.chunk < self.size - self.offset {
                self.chunk as int
            } else {
                self.size - self.offset
            }) && p.1@ == content_range_text(self.offset as nat, p.0 as nat, self.size as nat)),
    {
        if self.offset >= self.size {
            return None;
        }
        let rest = self.size - self.offset;
        let len = if self.chunk < rest { self.chunk } else { rest };
        let mut out: Vec<char> = Vec::new();
        push_str(&mut out, "bytes ");
        push_decimal(&mut out, self.offset);
        out.push('-');
        push_decimal(&mut out, self.offset + len - 1);
        out.push('/');
        push_decimal(&mut out, self.size);
        assert(out@ =~= content_range_text(self.offset as nat, len as nat, self.size as nat));
        Some((len, string_of(out.as_slice())))
    }

    /// Records that a chunk of `len` bytes was sent.
    pub fn advance(&mut self, len: u64)
        requires
            old(self).wf(),
            old(self).offset + len <= old(self).size,
        ensures
            final(self).wf(),
            final(self).offset == old(self).offset + len,
            final(self).size == old(self).size,
            final(self).chunk == old(self).chunk,
    {
        self.offset = self.offset + len;
    }
}

/// A message with the file name: `{head}<code>{escaped name}</code>`.
pub open spec fn with_file_text(head: Seq<char>, filename: Seq<char>) -> Seq<char> {
    head + "文件: <code>"@ + html_escaped(filename) + "</code>"@
}

/// Builds a message that ends with the escaped file name.
pub fn with_file(head: &str, filename: &str) -> (r: String)
    ensures
        r@ == with_file_text(head@, filename@),
{
    let mut out: Vec<char> = Vec::new();
    push_str(&mut out, head);
    push_str(&mut out, "文件: <code>");
    push_str(&mut out, escape_html(filename).as_str());
    push_str(&mut out, "</code>");
    assert(out@ =~= with_file_text(head@, filename@));
    string_of(out.as_slice())
}

/// The progress message, with the bar.
pub open spec fn progress_text(filename: Seq<char>, bar: Seq<char>) -> Seq<char> {
    "📤 <b>[YouTube] 正在真实同步至云端...</b>\n文件: <code>"@ + html_escaped(filename) + "</code>\n\n进度: "@ + bar
}

/// Builds the progress message.
pub fn progress_message(filename: &str, bar: &str) -> (r: String)
    ensures
        r@ == progress_text(filename@, bar@),
{
    let mut out: Vec<char> = Vec::new();
    push_str(&mut out, "📤 <b>[YouTube] 正在真实同步至云端...</b>\n文件: <code>");
    push_str(&mut out, escape_html(filename).as_str());
    push_str(&mut out, "</code>\n\n进度: ");
    push_str(&mut out, bar);
    assert(out@ =~= progress_text(filename@, bar@));
    string_of(out.as_slice())
}

/// The message when the token cannot be read.
pub open spec fn token_error_text(err: Seq<char>) -> Seq<char> {
    "❌ 凭证错误: <code>"@ + html_escaped(err) + "</code>"@
}

/// Builds the message when the token cannot be read.
pub fn token_error(err: &str) -> (r: String)
    ensures
        r@ == token_error_text(err@),
{
    let mut out: Vec<char> = Vec::new();
    push_str(&mut out, "❌ 凭证错误: <code>");
    push_str(&mut out, escape_html(err).as_str());
    push_str(&mut out, "</code>");
    assert(out@ =~= token_error_text(err@));
    string_of(out.as_slice())
}

/// The message of a finished upload.
pub open spec fn vp_success_text(filename: Seq<char>, time: Seq<char>, video_id: Seq<char>) -> Seq<char> {
    "✅ <b>YouTube 上传成功！</b>\n\n🎬 <b>视频名称:</b> <code>"@ + html_escaped(filename) + "</code>\n🕒 <b>上传时间:</b> <code>"@
        + time + "</code>\n\n📺 <b>观看链接:</b> https://youtu.be/"@ + video_id
        + "\n🛠️ <b>Studio 链接:</b> https://studio.youtube.com/video/"@ + video_id + "/edit"@
}

/// Builds the message of a finished upload, with the upload time read from the clock.
pub fn success_message(filename: &str, video_id: &str) -> (r: String)
    ensures
        exists|t: LocalDateTime| valid_reading(t) && r@ == vp_success_text(filename@, display_text(t), video_id@),
{
    let time = now_display();
    let ghost reading = choose|t: LocalDateTime| valid_reading(t) && time@ == display_text(t);
    let mut out: Vec<char> = Vec::new();
    push_str(&mut out, "✅ <b>YouTube 上传成功！</b>\n\n🎬 <b>视频名称:</b> <code>");
    push_str(&mut out, escape_html(filename).as_str());
    push_str(&mut out, "</code>\n🕒 <b>上传时间:</b> <code>");
    push_str(&mut out, time.as_str());
    push_str(&mut out, "</code>\n\n📺 <b>观看链接:</b> https://youtu.be/");
    push_str(&mut out, video_id);
    push_str(&mut out, "\n🛠️ <b>Studio 链接:</b> https://studio.youtube.com/video/");
    push_str(&mut out, video_id);
    push_str(&mut out, "/edit");
    assert(out@ =~= vp_success_text(filename@, display_text(reading), video_id@));
    string_of(out.as_slice())
}

} // verus!
