//! Settings of the panel that are decided on plain values.
use vstd::prelude::*;
use crate::text::{chars_of, ends_with, has_suffix, lowercase, parse_signed, parse_signed_chars, parse_unsigned, parse_unsigned_chars, to_lowercase, trim, trim_chars, string_of};

verus! {

/// The file extensions recognised as video, in lower case.
pub open spec fn video_extensions() -> Seq<Seq<char>> {
    seq![".mp4"@, ".mkv"@, ".flv"@, ".ts"@]
}

/// A file name counts as video when its lower-case form ends with a video extension.
pub open spec fn is_video_name(name: Seq<char>) -> bool {
    exists|i: int| 0 <= i < video_extensions().len() && ends_with(lowercase(name), #[trigger] video_extensions()[i])
}

/// Recognises video file names.
pub struct VideoExtensions;

impl VideoExtensions {
    /// Whether `filename` names a video file (case-insensitively by extension).
    pub fn is_video(filename: &str) -> (b: bool)
        ensures
            b == is_video_name(filename@),
    {
        let lower = to_lowercase(filename);
        let l = chars_of(lower.as_str());
        let r = has_suffix(l.as_slice(), chars_of(".mp4").as_slice())
            || has_suffix(l.as_slice(), chars_of(".mkv").as_slice())
            || has_suffix(l.as_slice(), chars_of(".flv").as_slice())
            || has_suffix(l.as_slice(), chars_of(".ts").as_slice());
        proof {
            let exts = video_extensions();
            if r {
                if ends_with(l@, ".mp4"@) { assert(ends_with(lowercase(filename@), exts[0])); }
                else if ends_with(l@, ".mkv"@) { assert(ends_with(lowercase(filename@), exts[1])); }
                else if ends_with(l@, ".flv"@) { assert(ends_with(lowercase(filename@), exts[2])); }
                else { assert(ends_with(lowercase(filename@), exts[3])); }
            } else {
                assert forall|i: int| 0 <= i < exts.len() implies !ends_with(lowercase(filename@), #[trigger] exts[i]) by {
                    if i == 0 {} else if i == 1 {} else if i == 2 {} else {}
                }
            }
        }
        r
    }
}


/// Items per page unless configured.
pub fn default_items_per_page() -> (n: usize)
    ensures
        n == 8,
{
    8
}

/// The OAuth token file unless configured.
pub fn default_token_file() -> (s: String)
    ensures
        s@ == "./token.json"@,
{
    "./token.json".to_owned()
}

/// Concurrent uploads unless configured.
pub fn default_youtube_max_concurrent_uploads() -> (n: usize)
    ensures
        n == 2,
{
    2
}

/// Upload chunk size in MiB unless configured.
pub fn default_youtube_upload_chunk_mb() -> (n: usize)
    ensures
        n == 10,
{
    10
}

/// The log format unless configured.
pub fn default_log_format() -> (s: String)
    ensures
        s@ == "pretty"@,
{
    "pretty".to_owned()
}

/// The base directory unless configured.
pub open spec fn default_base_dir() -> Seq<char> {
    "/storage512/bilivego/download"@
}

/// Why the settings cannot be read.
#[derive(Debug, Clone, PartialEq)]
pub enum ConfigError {
    /// A required variable is missing: `{name} is not set`.
    NotSet { name: String },
    /// `ADMIN_ID` is not an integer.
    InvalidAdminId,
    /// A count is not a non-negative integer; `value` is the text as given.
    NotACount { name: String, value: String },
    /// A value fails validation; the message says which.
    Invalid { message: String },
}

/// The panel's settings, except the merge ratios, which are fractions.
#[derive(Debug, Clone)]
pub struct Config {
    pub bot_token: String,
    pub admin_id: i64,
    pub base_dir: String,
    pub rtmp_url: String,
    pub items_per_page: usize,
    pub token_file: String,
    pub youtube_max_concurrent_uploads: usize,
    pub youtube_upload_chunk_mb: usize,
    pub log_format: String,
}

/// A count read from a variable: its default when unset, the trimmed number when it
/// parses as a `usize`, otherwise an error naming the variable and the given text.
pub open spec fn count_setting(name: Seq<char>, value: Option<Seq<char>>, default: nat) -> Result<nat, (Seq<char>, Seq<char>)> {
    match value {
        None => Ok(default),
        Some(v) => match parse_unsigned(trim(v)) {
            Some(n) => if n <= usize::MAX { Ok(n as nat) } else { Err((name, v)) },
            None => Err((name, v)),
        },
    }
}

/// The text of an optional value.
pub open spec fn opt_text(v: Option<&str>) -> Option<Seq<char>> {
    match v {
        Some(t) => Some(t@),
        None => None,
    }
}

/// Reads a count setting named `name` from its variable's value, if set.
pub fn parse_count(name: &str, value: Option<&str>, default: usize) -> (r: Result<usize, ConfigError>)
    ensures
        r matches Ok(n) ==> count_setting(name@, opt_text(value), default as nat) == Ok::<nat, (Seq<char>, Seq<char>)>(n as nat),
        r matches Err(e) ==> (e matches ConfigError::NotACount { name: a, value: b } && count_setting(
            name@,
            opt_text(value),
            default as nat,
        ) == Err::<nat, (Seq<char>, Seq<char>)>((a@, b@))),
{
    match value {
        None => Ok(default),
        Some(t) => {
            let trimmed = trim_chars(chars_of(t).as_slice());
            match parse_unsigned_chars(trimmed.as_slice(), usize::MAX as u64) {
                Some(n) => Ok(n as usize),
                None => Err(ConfigError::NotACount { name: name.to_owned(), value: t.to_owned() }),
            }
        },
    }
}

/// The base directory to resolve: the configured text, or the default, trimmed.
pub open spec fn base_dir_text(value: Option<Seq<char>>) -> Seq<char> {
    match value {
        Some(v) => trim(v),
        None => trim(default_base_dir()),
    }
}

/// The trimmed base directory text, to be resolved on disk.
pub fn base_dir_of(value: Option<&str>) -> (r: String)
    ensures
        r@ == base_dir_text(match value { Some(t) => Some(t@), None => None }),
{
    let raw: Vec<char> = match value {
        Some(t) => chars_of(t),
        None => chars_of("/storage512/bilivego/download"),
    };
    string_of(trim_chars(raw.as_slice()).as_slice())
}

/// The values the variables give, as plain text: each `None` when unset.
pub struct RawSettings<'a> {
    pub bot_token: Option<&'a str>,
    pub admin_id: Option<&'a str>,
    pub base_dir: Option<&'a str>,
    pub rtmp_url: Option<&'a str>,
    pub items_per_page: Option<&'a str>,
    pub token_file: Option<&'a str>,
    pub youtube_max_concurrent_uploads: Option<&'a str>,
    pub youtube_upload_chunk_mb: Option<&'a str>,
    pub log_format: Option<&'a str>,
}

impl Config {
    /// Builds the settings from the variables' values: the bot token and the administrator
    /// are required (the latter an integer), texts are trimmed, counts take their defaults
    /// when unset, the log format is lower-cased. `resolved_base` is the resolved form of
    /// the base directory text (see `base_dir_of`), when it resolves. The first problem met,
    /// in the order of the fields, is the error.
    pub fn from_values(raw: &RawSettings, resolved_base: Option<&str>) -> (r: Result<Config, ConfigError>)
        ensures
            raw.bot_token is None ==> (r matches Err(ConfigError::NotSet { name: n }) && n@ == "BOT_TOKEN"@),
            raw.bot_token is Some && raw.admin_id is None ==> (r matches Err(ConfigError::NotSet { name: n })
                && n@ == "ADMIN_ID"@),
            raw.bot_token is Some ==> match raw.admin_id {
                Some(a) => match parse_signed(trim(a@)) {
                    Some(v) => (v < i64::MIN || v > i64::MAX) ==> r == Err::<Config, ConfigError>(ConfigError::InvalidAdminId),
                    None => r == Err::<Config, ConfigError>(ConfigError::InvalidAdminId),
                },
                None => true,
            },
            r matches Ok(c) ==> (raw.bot_token matches Some(t) && c.bot_token@ == trim(t@)),
            r matches Ok(c) ==> (raw.admin_id matches Some(a) && parse_signed(trim(a@)) == Some(c.admin_id as int)),
            r matches Ok(c) ==> (c.base_dir@ == match resolved_base {
                    Some(b) => b@,
                    None => base_dir_text(opt_text(raw.base_dir)),
                }),
            r matches Ok(c) ==> (c.rtmp_url@ == match raw.rtmp_url {
                    Some(u) => trim(u@),
                    None => Seq::empty(),
                }),
            r matches Ok(c) ==> (count_setting("ITEMS_PER_PAGE"@, opt_text(raw.items_per_page), 8) == Ok::<nat, (Seq<char>, Seq<char>)>(c.items_per_page as nat)),
            r matches Ok(c) ==> (c.token_file@ == match raw.token_file {
                    Some(t) => trim(t@),
                    None => "./token.json"@,
                }),
            r matches Ok(c) ==> (count_setting("YOUTUBE_MAX_CONCURRENT_UPLOADS"@, opt_text(raw.youtube_max_concurrent_uploads), 2)
                    == Ok::<nat, (Seq<char>, Seq<char>)>(c.youtube_max_concurrent_uploads as nat)),
            r matches Ok(c) ==> (count_setting("YOUTUBE_UPLOAD_CHUNK_MB"@, opt_text(raw.youtube_upload_chunk_mb), 10)
                    == Ok::<nat, (Seq<char>, Seq<char>)>(c.youtube_upload_chunk_mb as nat)),
            r matches Ok(c) ==> (c.log_format@ == lowercase(trim(match raw.log_format {
                    Some(f) => f@,
                    None => "pretty"@,
                }))),
            raw.bot_token is Some ==> match raw.admin_id {
                Some(a) => match parse_signed(trim(a@)) {
                    Some(v) => i64::MIN <= v <= i64::MAX ==> {
                let items = count_setting("ITEMS_PER_PAGE"@, opt_text(raw.items_per_page), 8);
                let conc = count_setting("YOUTUBE_MAX_CONCURRENT_UPLOADS"@, opt_text(raw.youtube_max_concurrent_uploads), 2);
                let chunk = count_setting("YOUTUBE_UPLOAD_CHUNK_MB"@, opt_text(raw.youtube_upload_chunk_mb), 10);
                &&& items is Err ==> (r matches Err(ConfigError::NotACount { name: n, value: x }) && (n@, x@) == items->Err_0)
                &&& items is Ok && conc is Err ==> (r matches Err(ConfigError::NotACount { name: n, value: x })
                    && (n@, x@) == conc->Err_0)
                &&& items is Ok && conc is Ok && chunk is Err ==> (r matches Err(ConfigError::NotACount {
                    name: n,
                    value: x,
                }) && (n@, x@) == chunk->Err_0)
                &&& items is Ok && conc is Ok && chunk is Ok ==> r is Ok
            },
                    None => true,
                },
                None => true,
            },
    {
        let bot_token = match raw.bot_token {
            Some(t) => string_of(trim_chars(chars_of(t).as_slice()).as_slice()),
            None => return Err(ConfigError::NotSet { name: "BOT_TOKEN".to_owned() }),
        };
        let admin_id: i64 = match raw.admin_id {
            Some(a) => match parse_signed_chars(trim_chars(chars_of(a).as_slice()).as_slice(), i64::MAX as u64) {
                Some(v) => v,
                None => return Err(ConfigError::InvalidAdminId),
            },
            None => return Err(ConfigError::NotSet { name: "ADMIN_ID".to_owned() }),
        };
        let base_dir: String = match resolved_base {
            Some(b) => b.to_owned(),
            None => base_dir_of(raw.base_dir),
        };
        let rtmp_url: String = match raw.rtmp_url {
            Some(u) => string_of(trim_chars(chars_of(u).as_slice()).as_slice()),
            None => String::new(),
        };
        let items_per_page = match parse_count("ITEMS_PER_PAGE", raw.items_per_page, default_items_per_page()) {
            Ok(n) => n,
            Err(e) => return Err(e),
        };
        let token_file: String = match raw.token_file {
            Some(t) => string_of(trim_chars(chars_of(t).as_slice()).as_slice()),
            None => default_token_file(),
        };
        let youtube_max_concurrent_uploads = match parse_count(
            "YOUTUBE_MAX_CONCURRENT_UPLOADS",
            raw.youtube_max_concurrent_uploads,
            default_youtube_max_concurrent_uploads(),
        ) {
            Ok(n) => n,
            Err(e) => return Err(e),
        };
        let youtube_upload_chunk_mb = match parse_count(
            "YOUTUBE_UPLOAD_CHUNK_MB",
            raw.youtube_upload_chunk_mb,
            default_youtube_upload_chunk_mb(),
        ) {
            Ok(n) => n,
            Err(e) => return Err(e),
        };
        let format_raw: String = match raw.log_format {
            Some(f) => f.to_owned(),
            None => default_log_format(),
        };
        let trimmed_format = string_of(trim_chars(chars_of(format_raw.as_str()).as_slice()).as_slice());
        let log_format = to_lowercase(trimmed_format.as_str());
        Ok(Config {
            bot_token,
            admin_id,
            base_dir,
            rtmp_url,
            items_per_page,
            token_file,
            youtube_max_concurrent_uploads,
            youtube_upload_chunk_mb,
            log_format,
        })
    }

    /// Checks the settings, the first failing rule giving the error: a bot token, a
    /// non-zero administrator, positive counts, merge ratios within `[0, 1]` (as judged by
    /// the caller) and a log format of `pretty` or `json`.
    pub fn validate(&self, duration_ratio_in_range: bool, size_ratio_in_range: bool) -> (r: Result<(), ConfigError>)
        ensures
            r is Ok <==> (self.bot_token@.len() > 0 && self.admin_id != 0 && self.items_per_page > 0
                && self.youtube_max_concurrent_uploads > 0 && self.youtube_upload_chunk_mb > 0
                && duration_ratio_in_range && size_ratio_in_range && (self.log_format@ == "pretty"@
                || self.log_format@ == "json"@)),
            self.bot_token@.len() == 0 ==> (r matches Err(ConfigError::Invalid { message: m })
                && m@ == "BOT_TOKEN must not be empty"@),
            self.bot_token@.len() > 0 && self.admin_id == 0 ==> (r matches Err(ConfigError::Invalid { message: m })
                && m@ == "ADMIN_ID must be a non-zero integer"@),
            self.bot_token@.len() > 0 && self.admin_id != 0 && self.items_per_page == 0 ==> (r matches Err(
                ConfigError::Invalid { message: m },
            ) && m@ == "ITEMS_PER_PAGE must be greater than 0"@),
            self.bot_token@.len() > 0 && self.admin_id != 0 && self.items_per_page > 0
                && self.youtube_max_concurrent_uploads == 0 ==> (r matches Err(ConfigError::Invalid { message: m })
                && m@ == "YOUTUBE_MAX_CONCURRENT_UPLOADS must be greater than 0"@),
            self.bot_token@.len() > 0 && self.admin_id != 0 && self.items_per_page > 0
                && self.youtube_max_concurrent_uploads > 0 && self.youtube_upload_chunk_mb == 0 ==> (r matches Err(
                ConfigError::Invalid { message: m },
            ) && m@ == "YOUTUBE_UPLOAD_CHUNK_MB must be greater than 0"@),
            self.bot_token@.len() > 0 && self.admin_id != 0 && self.items_per_page > 0
                && self.youtube_max_concurrent_uploads > 0 && self.youtube_upload_chunk_mb > 0
                && !duration_ratio_in_range ==> (r matches Err(ConfigError::Invalid { message: m })
                && m@ == "MERGE_MIN_DURATION_RATIO must be between 0.0 and 1.0"@),
            self.bot_token@.len() > 0 && self.admin_id != 0 && self.items_per_page > 0
                && self.youtube_max_concurrent_uploads > 0 && self.youtube_upload_chunk_mb > 0
                && duration_ratio_in_range && !size_ratio_in_range ==> (r matches Err(ConfigError::Invalid {
                message: m,
            }) && m@ == "MERGE_MIN_SIZE_RATIO must be between 0.0 and 1.0"@),
            self.bot_token@.len() > 0 && self.admin_id != 0 && self.items_per_page > 0
                && self.youtube_max_concurrent_uploads > 0 && self.youtube_upload_chunk_mb > 0
                && duration_ratio_in_range && size_ratio_in_range && !(self.log_format@ == "pretty"@
                || self.log_format@ == "json"@) ==> (r matches Err(ConfigError::Invalid { message: m })
                && m@ == "LOG_FORMAT must be 'pretty' or 'json'"@),
    {
        let fail = |m: &str| -> (e: Result<(), ConfigError>)
            ensures
                e matches Err(ConfigError::Invalid { message: x }) && x@ == m@,
        {
            Err(ConfigError::Invalid { message: m.to_owned() })
        };
        if chars_of(self.bot_token.as_str()).len() == 0 {
            return fail("BOT_TOKEN must not be empty");
        }
        if self.admin_id == 0 {
            return fail("ADMIN_ID must be a non-zero integer");
        }
        if self.items_per_page == 0 {
            return fail("ITEMS_PER_PAGE must be greater than 0");
        }
        if self.youtube_max_concurrent_uploads == 0 {
            return fail("YOUTUBE_MAX_CONCURRENT_UPLOADS must be greater than 0");
        }
        if self.youtube_upload_chunk_mb == 0 {
            return fail("YOUTUBE_UPLOAD_CHUNK_MB must be greater than 0");
        }
        if !duration_ratio_in_range {
            return fail("MERGE_MIN_DURATION_RATIO must be between 0.0 and 1.0");
        }
        if !size_ratio_in_range {
            return fail("MERGE_MIN_SIZE_RATIO must be between 0.0 and 1.0");
        }
        if !(crate::text::str_eq(self.log_format.as_str(), "pretty") || crate::text::str_eq(self.log_format.as_str(), "json")) {
            return fail("LOG_FORMAT must be 'pretty' or 'json'");
        }
        Ok(())
    }

    /// The upload chunk size in bytes.
    pub fn youtube_chunk_bytes(&self) -> (n: usize)
        requires
            self.youtube_upload_chunk_mb * 1024 * 1024 <= usize::MAX,
        ensures
            n == self.youtube_upload_chunk_mb * 1024 * 1024,
    {
        self.youtube_upload_chunk_mb * 1024 * 1024
    }
}

} // verus!
