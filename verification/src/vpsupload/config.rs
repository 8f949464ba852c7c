//! Settings read from plain text values.
use vstd::prelude::*;
use crate::text::{parse_signed, parse_signed_chars, chars_of, lowercase, parse_unsigned, parse_unsigned_chars, push_chars, split_chars, split_on, starts_with, string_of, to_lowercase, trim, trim_chars};

verus! {

/// The label of each action key.
pub open spec fn action_label(key: Seq<char>) -> Seq<char> {
    if key == "browse"@ {
        "浏览与查看详情"@
    } else if key == "stream"@ {
        "推流"@
    } else if key == "youtube"@ {
        "上传 YT"@
    } else if key == "concat"@ {
        "合并"@
    } else if key == "convert"@ {
        "转码 MP4"@
    } else if key == "delete"@ {
        "删除"@
    } else {
        "未知操作"@
    }
}

/// The label of an action key; unknown keys are `未知操作`.
pub fn action_name_map(key: &str) -> (r: &'static str)
    ensures
        r@ == action_label(key@),
{
    if crate::text::str_eq(key, "browse") {
        "浏览与查看详情"
    } else if crate::text::str_eq(key, "stream") {
        "推流"
    } else if crate::text::str_eq(key, "youtube") {
        "上传 YT"
    } else if crate::text::str_eq(key, "concat") {
        "合并"
    } else if crate::text::str_eq(key, "convert") {
        "转码 MP4"
    } else if crate::text::str_eq(key, "delete") {
        "删除"
    } else {
        "未知操作"
    }
}

/// One configured extension: trimmed, lower-cased, and given a leading dot if it lacks one.
pub open spec fn extension_entry(piece: Seq<char>) -> Seq<char> {
    let s = lowercase(trim(piece));
    if starts_with(s, seq!['.']) {
        s
    } else {
        seq!['.'] + s
    }
}

/// The extensions listed, comma-separated, in `text`.
pub open spec fn extension_list(text: Seq<char>) -> Seq<Seq<char>> {
    split_on(text, ',').map_values(|p: Seq<char>| extension_entry(p))
}

/// The video extensions from their comma-separated setting.
pub fn video_extensions_from(text: &str) -> (r: Vec<String>)
    ensures
        r@.map_values(|s: String| s@) == extension_list(text@),
{
    let pieces = split_chars(chars_of(text).as_slice(), ',');
    let ghost want = extension_list(text@);
    let mut out: Vec<String> = Vec::new();
    let mut i: usize = 0;
    while i < pieces.len()
        invariant
            i <= pieces@.len(),
            pieces@.len() == split_on(text@, ',').len(),
            forall|k: int| 0 <= k < pieces@.len() ==> #[trigger] pieces@[k]@ == split_on(text@, ',')[k],
            want == extension_list(text@),
            out@.map_values(|s: String| s@) == want.take(i as int),
        decreases pieces@.len() - i,
    {
        let t = string_of(trim_chars(pieces[i].as_slice()).as_slice());
        let low = to_lowercase(t.as_str());
        let lc = chars_of(low.as_str());
        let entry: String = if lc.len() > 0 && lc[0] == '.' {
            low
        } else {
            let mut v: Vec<char> = Vec::new();
            v.push('.');
            push_chars(&mut v, lc.as_slice());
            string_of(v.as_slice())
        };
        proof {
            if lc@.len() > 0 {
                assert(lc@.take(1)[0] == lc@[0]);
                if lc@[0] == '.' {
                    assert(lc@.take(1) =~= seq!['.']);
                }
                if starts_with(lc@, seq!['.']) {
                    assert(lc@.take(1)[0] == seq!['.'][0]);
                }
            }
        }
        assert(starts_with(lc@, seq!['.']) == (lc@.len() > 0 && lc@[0] == '.'));
        assert(entry@ == extension_entry(pieces@[i as int]@));
        let ghost before = out@;
        out.push(entry);
        assert(out@ =~= before.push(entry));
        assert(want[i as int] == extension_entry(split_on(text@, ',')[i as int]));
        assert(out@.map_values(|s: String| s@) =~= before.map_values(|s: String| s@).push(entry@));
        assert(out@.map_values(|s: String| s@) =~= want.take(i + 1));
        i = i + 1;
    }
    assert(want.take(pieces@.len() as int) =~= want);
    out
}

/// A count setting: its default when unset or not a `usize` (`parse().unwrap_or`).
pub open spec fn count_or(value: Option<Seq<char>>, default: nat) -> nat {
    match value {
        Some(v) => match parse_unsigned(v) {
            Some(n) => if n <= usize::MAX { n as nat } else { default },
            None => default,
        },
        None => default,
    }
}

/// Reads a count setting, falling back to `default`.
pub fn count_setting_or(value: Option<&str>, default: usize) -> (n: usize)
    ensures
        n == count_or(match value { Some(t) => Some(t@), None => None }, default as nat),
{
    match value {
        Some(t) => match parse_unsigned_chars(chars_of(t).as_slice(), usize::MAX as u64) {
            Some(v) => v as usize,
            None => default,
        },
        None => default,
    }
}

/// A seconds setting: its default when unset or not a `u64`.
pub open spec fn seconds_or(value: Option<Seq<char>>, default: nat) -> nat {
    match value {
        Some(v) => match parse_unsigned(v) {
            Some(n) => if n <= u64::MAX { n as nat } else { default },
            None => default,
        },
        None => default,
    }
}

/// Reads a seconds setting, falling back to `default`.
pub fn seconds_setting_or(value: Option<&str>, default: u64) -> (n: u64)
    ensures
        n == seconds_or(match value { Some(t) => Some(t@), None => None }, default as nat),
{
    match value {
        Some(t) => match parse_unsigned_chars(chars_of(t).as_slice(), u64::MAX) {
            Some(v) => v,
            None => default,
        },
        None => default,
    }
}

/// The text of a setting, or `default` when it is not set.
pub open spec fn text_or(value: Option<&str>, default: Seq<char>) -> Seq<char> {
    match value {
        Some(t) => t@,
        None => default,
    }
}

fn owned_or(value: Option<&str>, default: &str) -> (r: String)
    ensures
        r@ == text_or(value, default@),
{
    match value {
        Some(t) => t.to_owned(),
        None => default.to_owned(),
    }
}

/// The upload bot's settings apart from the bot token, the admin and the merge ratios.
pub struct VpSettings {
    /// The directory browsed and worked in.
    pub base_dir: String,
    /// Where streams are pushed.
    pub rtmp_url: String,
    /// Entries per selector page.
    pub items_per_page: usize,
    /// Listed video extensions, lower-cased with their dot.
    pub video_extensions: Vec<String>,
    /// Time allowed to `ffprobe`.
    pub ffprobe_timeout_seconds: u64,
    /// The OAuth token file.
    pub token_file: String,
    /// Uploads allowed to run at once.
    pub youtube_max_concurrent_uploads: usize,
    /// Upload chunk size in MiB.
    pub youtube_upload_chunk_mb: usize,
    /// Where the upload queue is kept.
    pub youtube_upload_queue_file: String,
}

/// The settings from their raw values (`None` when unset), with the documented
/// defaults: `/storage512/bilivego/download`, no RTMP address, 8 entries a page,
/// `.mp4,.mkv,.flv,.ts`, 30 seconds, `/root/video_bot/token.json`, 2 uploads, 10 MiB chunks and
/// `youtube_upload_queue.json`. A number that does not parse takes its default.
pub fn vp_settings_from(
    base_dir: Option<&str>,
    rtmp_url: Option<&str>,
    items_per_page: Option<&str>,
    video_extensions: Option<&str>,
    ffprobe_timeout_seconds: Option<&str>,
    token_file: Option<&str>,
    youtube_max_concurrent_uploads: Option<&str>,
    youtube_upload_chunk_mb: Option<&str>,
    youtube_upload_queue_file: Option<&str>,
) -> (r: VpSettings)
    ensures
        r.base_dir@ == text_or(base_dir, "/storage512/bilivego/download"@),
        r.rtmp_url@ == text_or(rtmp_url, Seq::empty()),
        r.items_per_page == count_or(match items_per_page { Some(t) => Some(t@), None => None }, 8),
        r.video_extensions@.map_values(|s: String| s@) == extension_list(text_or(video_extensions, ".mp4,.mkv,.flv,.ts"@)),
        r.ffprobe_timeout_seconds == seconds_or(match ffprobe_timeout_seconds { Some(t) => Some(t@), None => None }, 30),
        r.token_file@ == text_or(token_file, "/root/video_bot/token.json"@),
        r.youtube_max_concurrent_uploads == count_or(
            match youtube_max_concurrent_uploads { Some(t) => Some(t@), None => None },
            2,
        ),
        r.youtube_upload_chunk_mb == count_or(match youtube_upload_chunk_mb { Some(t) => Some(t@), None => None }, 10),
        r.youtube_upload_queue_file@ == text_or(youtube_upload_queue_file, "youtube_upload_queue.json"@),
{
    let exts = owned_or(video_extensions, ".mp4,.mkv,.flv,.ts");
    proof {
        reveal_strlit("");
        assert(""@ =~= Seq::<char>::empty());
    }
    VpSettings {
        base_dir: owned_or(base_dir, "/storage512/bilivego/download"),
        rtmp_url: owned_or(rtmp_url, ""),
        items_per_page: count_setting_or(items_per_page, 8),
        video_extensions: video_extensions_from(exts.as_str()),
        ffprobe_timeout_seconds: seconds_setting_or(ffprobe_timeout_seconds, 30),
        token_file: owned_or(token_file, "/root/video_bot/token.json"),
        youtube_max_concurrent_uploads: count_setting_or(youtube_max_concurrent_uploads, 2),
        youtube_upload_chunk_mb: count_setting_or(youtube_upload_chunk_mb, 10),
        youtube_upload_queue_file: owned_or(youtube_upload_queue_file, "youtube_upload_queue.json"),
    }
}

/// The admin id that text names: a decimal integer that fits in an `i64`.
pub open spec fn admin_id_of(text: Seq<char>) -> Option<i64> {
    match parse_signed(text) {
        Some(v) => if i64::MIN <= v <= i64::MAX { Some(v as i64) } else { None },
        None => None,
    }
}

/// The upload bot's whole configuration.
pub struct VpConfig {
    /// The Telegram bot token.
    pub bot_token: String,
    /// The only user the bot answers.
    pub admin_id: i64,
    /// Everything else.
    pub settings: VpSettings,
}

/// The configuration from its raw values (`None` when unset): the bot token and the
/// admin id are required and the admin id must be an integer; the rest take
/// `vp_settings_from`'s defaults. The error is the message naming what is wrong.
pub fn vp_config_from(
    bot_token: Option<&str>,
    admin_id: Option<&str>,
    base_dir: Option<&str>,
    rtmp_url: Option<&str>,
    items_per_page: Option<&str>,
    video_extensions: Option<&str>,
    ffprobe_timeout_seconds: Option<&str>,
    token_file: Option<&str>,
    youtube_max_concurrent_uploads: Option<&str>,
    youtube_upload_chunk_mb: Option<&str>,
    youtube_upload_queue_file: Option<&str>,
) -> (r: Result<VpConfig, String>)
    ensures
        bot_token is None ==> (r matches Err(e) && e@ == "缺少配置: BOT_TOKEN"@),
        bot_token is Some && admin_id is None ==> (r matches Err(e) && e@ == "缺少配置: ADMIN_ID"@),
        bot_token is Some && admin_id is Some && admin_id_of(admin_id->0@) is None ==> (r matches Err(e)
            && e@ == "ADMIN_ID 必须是整数"@),
        bot_token is Some && admin_id is Some && admin_id_of(admin_id->0@) is Some ==> ({
            &&& r matches Ok(c)
            &&& c.bot_token@ == bot_token->0@
            &&& c.admin_id == admin_id_of(admin_id->0@)->0
            &&& c.settings.base_dir@ == text_or(base_dir, "/storage512/bilivego/download"@)
            &&& c.settings.rtmp_url@ == text_or(rtmp_url, Seq::empty())
            &&& c.settings.items_per_page == count_or(match items_per_page { Some(x) => Some(x@), None => None }, 8)
            &&& c.settings.video_extensions@.map_values(|s: String| s@) == extension_list(
                text_or(video_extensions, ".mp4,.mkv,.flv,.ts"@),
            )
            &&& c.settings.ffprobe_timeout_seconds == seconds_or(
                match ffprobe_timeout_seconds { Some(x) => Some(x@), None => None },
                30,
            )
            &&& c.settings.token_file@ == text_or(token_file, "/root/video_bot/token.json"@)
            &&& c.settings.youtube_max_concurrent_uploads == count_or(
                match youtube_max_concurrent_uploads { Some(x) => Some(x@), None => None },
                2,
            )
            &&& c.settings.youtube_upload_chunk_mb == count_or(
                match youtube_upload_chunk_mb { Some(x) => Some(x@), None => None },
                10,
            )
            &&& c.settings.youtube_upload_queue_file@ == text_or(youtube_upload_queue_file, "youtube_upload_queue.json"@)
        }),
{
    let token = match bot_token {
        Some(t) => t.to_owned(),
        None => return Err("缺少配置: BOT_TOKEN".to_owned()),
    };
    let raw_id = match admin_id {
        Some(a) => a,
        None => return Err("缺少配置: ADMIN_ID".to_owned()),
    };
    let id = match parse_signed_chars(chars_of(raw_id).as_slice(), i64::MAX as u64) {
        Some(v) => v,
        None => return Err("ADMIN_ID 必须是整数".to_owned()),
    };
    let settings = vp_settings_from(
        base_dir,
        rtmp_url,
        items_per_page,
        video_extensions,
        ffprobe_timeout_seconds,
        token_file,
        youtube_max_concurrent_uploads,
        youtube_upload_chunk_mb,
        youtube_upload_queue_file,
    );
    Ok(VpConfig { bot_token: token, admin_id: id, settings })
}

} // verus!
