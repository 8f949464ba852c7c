//! Text formatting: durations, elapsed times, clock readings and HTML escaping.
use vstd::prelude::*;
use chrono::{Datelike, Timelike};
use crate::text::{collapse_runs, collapse_runs_chars, lemma_collapse_runs, no_repeat, chars_eq, chars_of, decimal, push_chars, push_decimal, push_str, push_zero_padded, replace_all, replace_chars, string_of, zero_padded, signed_decimal};
use crate::paths::{extension, extension_of_chars, file_name_chars, file_stem, stem_of_chars};
use crate::patterns::{find_first, regex_first_match, regex_first_replaced, replace_first};

verus! {

/// `HH:MM:SS` for a number of whole seconds; hours are padded to two digits at least.
pub open spec fn hms_text(total: nat) -> Seq<char> {
    zero_padded(total / 3600, 2) + seq![':'] + zero_padded((total % 3600) / 60, 2) + seq![':']
        + zero_padded(total % 60, 2)
}

/// A compact elapsed time: `{h}h{mm}m{ss}s`, `{m}m{ss}s` or `{s}s`.
pub open spec fn elapsed_text(total: nat) -> Seq<char> {
    let h = total / 3600;
    let m = (total % 3600) / 60;
    let s = total % 60;
    if h > 0 {
        decimal(h) + seq!['h'] + zero_padded(m, 2) + seq!['m'] + zero_padded(s, 2) + seq!['s']
    } else if m > 0 {
        decimal(m) + seq!['m'] + zero_padded(s, 2) + seq!['s']
    } else {
        decimal(s) + seq!['s']
    }
}

/// Formats a duration of `total` whole seconds as `HH:MM:SS`.
pub fn format_duration_secs(total: u64) -> (r: String)
    ensures
        r@ == hms_text(total as nat),
{
    let mut out: Vec<char> = Vec::new();
    push_zero_padded(&mut out, total / 3600, 2);
    out.push(':');
    push_zero_padded(&mut out, (total % 3600) / 60, 2);
    out.push(':');
    push_zero_padded(&mut out, total % 60, 2);
    string_of(out.as_slice())
}

/// Formats a media duration: `HH:MM:SS` of its whole seconds when it is positive
/// (`secs` is `Some`), `未知` when it is not known or not positive (`None`).
pub fn format_duration(secs: Option<u64>) -> (r: String)
    ensures
        secs matches Some(t) ==> r@ == hms_text(t as nat),
        secs is None ==> r@ == "未知"@,
{
    match secs {
        Some(t) => format_duration_secs(t),
        None => "未知".to_owned(),
    }
}

/// Formats `total` whole seconds compactly, e.g. `45s`, `1m05s`, `1h01m01s`.
pub fn format_elapsed_secs(total: u64) -> (r: String)
    ensures
        r@ == elapsed_text(total as nat),
{
    let h = total / 3600;
    let m = (total % 3600) / 60;
    let s = total % 60;
    let mut out: Vec<char> = Vec::new();
    if h > 0 {
        push_decimal(&mut out, h);
        out.push('h');
        push_zero_padded(&mut out, m, 2);
        out.push('m');
        push_zero_padded(&mut out, s, 2);
        out.push('s');
    } else if m > 0 {
        push_decimal(&mut out, m);
        out.push('m');
        push_zero_padded(&mut out, s, 2);
        out.push('s');
    } else {
        push_decimal(&mut out, s);
        out.push('s');
    }
    string_of(out.as_slice())
}

/// A point in time, as `std::time::Instant`.
#[verifier::external_type_specification]
#[verifier::external_body]
pub struct ExInstant(std::time::Instant);

/// The whole seconds elapsed since `instant` (`Instant::elapsed`); the value depends on
/// the clock, so nothing is stated about it.
#[verifier::external_body]
fn elapsed_whole_secs(instant: &std::time::Instant) -> u64 {
    instant.elapsed().as_secs()
}

/// The time elapsed since `instant`, formatted compactly.
pub fn format_elapsed_instant(instant: &std::time::Instant) -> (r: String)
    ensures
        exists|n: u64| r@ == elapsed_text(n as nat),
{
    let n = elapsed_whole_secs(instant);
    format_elapsed_secs(n)
}

/// HTML-escaped text: `&`, `<` and `>` become entities.
pub open spec fn html_escaped(s: Seq<char>) -> Seq<char> {
    replace_all(replace_all(replace_all(s, seq!['&'], "&amp;"@), seq!['<'], "&lt;"@), seq!['>'], "&gt;"@)
}

/// No character of `s` is `c`.
pub open spec fn lacks(s: Seq<char>, c: char) -> bool {
    forall|i: int| 0 <= i < s.len() ==> s[i] != c
}

proof fn lemma_replace_removes(s: Seq<char>, c: char, r: Seq<char>)
    requires
        lacks(r, c),
    ensures
        lacks(replace_all(s, seq![c], r), c),
    decreases s.len(),
{
    if s.len() >= 1 {
        if crate::text::starts_with(s, seq![c]) {
            lemma_replace_removes(s.skip(1), c, r);
        } else {
            assert(s.take(1) =~= seq![s[0]]);
            lemma_replace_removes(s.drop_first(), c, r);
        }
    }
}

proof fn lemma_replace_keeps_lacking(s: Seq<char>, p: Seq<char>, r: Seq<char>, d: char)
    requires
        p.len() > 0,
        lacks(s, d),
        lacks(r, d),
    ensures
        lacks(replace_all(s, p, r), d),
    decreases s.len(),
{
    if s.len() >= p.len() {
        if crate::text::starts_with(s, p) {
            lemma_replace_keeps_lacking(s.skip(p.len() as int), p, r, d);
        } else {
            lemma_replace_keeps_lacking(s.drop_first(), p, r, d);
        }
    }
}

/// Escaped text holds no `<` and no `>`, so it cannot open or close a tag.
pub proof fn lemma_escaped_has_no_tags(s: Seq<char>)
    ensures
        lacks(html_escaped(s), '<'),
        lacks(html_escaped(s), '>'),
{
    reveal_strlit("&amp;");
    reveal_strlit("&lt;");
    reveal_strlit("&gt;");
    let a = replace_all(s, seq!['&'], "&amp;"@);
    let b = replace_all(a, seq!['<'], "&lt;"@);
    lemma_replace_removes(a, '<', "&lt;"@);
    lemma_replace_removes(b, '>', "&gt;"@);
    lemma_replace_keeps_lacking(b, seq!['>'], "&gt;"@, '<');
}

/// Escapes `&`, `<` and `>` for Telegram's HTML mode.
pub fn escape_html(input: &str) -> (r: String)
    ensures
        r@ == html_escaped(input@),
{
    let s = chars_of(input);
    let amp = chars_of("&");
    let lt = chars_of("<");
    let gt = chars_of(">");
    proof {
        reveal_strlit("&");
        reveal_strlit("<");
        reveal_strlit(">");
    }
    assert(amp@ =~= seq!['&']);
    assert(lt@ =~= seq!['<']);
    assert(gt@ =~= seq!['>']);
    let a = replace_chars(s.as_slice(), amp.as_slice(), chars_of("&amp;").as_slice());
    let b = replace_chars(a.as_slice(), lt.as_slice(), chars_of("&lt;").as_slice());
    let c = replace_chars(b.as_slice(), gt.as_slice(), chars_of("&gt;").as_slice());
    string_of(c.as_slice())
}

// ── clock readings ──────────────────────────────────────────────────────────

/// A local date and time, as read from the clock.
pub struct LocalDateTime {
    pub year: i32,
    pub month: u32,
    pub day: u32,
    pub hour: u32,
    pub minute: u32,
    pub second: u32,
    pub nanosecond: u32,
}

/// A reading within the ranges the clock guarantees.
pub open spec fn valid_reading(t: LocalDateTime) -> bool {
    1 <= t.month <= 12 && 1 <= t.day <= 31 && t.hour <= 23 && t.minute <= 59 && t.second <= 59
        && t.nanosecond < 2_000_000_000
}

/// The current local date and time (`chrono::Local::now`), as plain numbers: month,
/// day, hour, minute and second lie in their calendar ranges, and a nanosecond count of
/// a billion or more marks a leap second.
#[verifier::external_body]
fn local_now() -> (t: LocalDateTime)
    ensures
        valid_reading(t),
{
    let now = chrono::Local::now();
    LocalDateTime {
        year: now.year(),
        month: now.month(),
        day: now.day(),
        hour: now.hour(),
        minute: now.minute(),
        second: now.second(),
        nanosecond: now.nanosecond(),
    }
}

/// The current local date and time (see `local_now`).
pub fn clock_reading() -> (t: LocalDateTime)
    ensures
        valid_reading(t),
{
    local_now()
}

/// The year as `%Y` prints it: four digits for years 0 to 9999, otherwise a sign and at
/// least four digits.
pub open spec fn year_text(y: int) -> Seq<char> {
    if 0 <= y <= 9999 {
        zero_padded(y as nat, 4)
    } else if y < 0 {
        seq!['-'] + zero_padded((-y) as nat, 4)
    } else {
        seq!['+'] + zero_padded(y as nat, 4)
    }
}

/// The seconds as `%S` prints them: a leap second shows as 60.
pub open spec fn shown_second(t: LocalDateTime) -> nat {
    (t.second + t.nanosecond / 1_000_000_000) as nat
}

/// `%Y-%m-%d %H:%M:%S`.
pub open spec fn display_text(t: LocalDateTime) -> Seq<char> {
    year_text(t.year as int) + seq!['-'] + zero_padded(t.month as nat, 2) + seq!['-'] + zero_padded(
        t.day as nat,
        2,
    ) + seq![' '] + zero_padded(t.hour as nat, 2) + seq![':'] + zero_padded(t.minute as nat, 2)
        + seq![':'] + zero_padded(shown_second(t), 2)
}

/// `%Y%m%d_%H%M%S`.
pub open spec fn filename_text(t: LocalDateTime) -> Seq<char> {
    year_text(t.year as int) + zero_padded(t.month as nat, 2) + zero_padded(t.day as nat, 2) + seq!['_']
        + zero_padded(t.hour as nat, 2) + zero_padded(t.minute as nat, 2) + zero_padded(shown_second(t), 2)
}

fn push_year(out: &mut Vec<char>, y: i32)
    ensures
        final(out)@ == old(out)@ + year_text(y as int),
{
    if 0 <= y && y <= 9999 {
        push_zero_padded(out, y as u64, 4);
    } else if y < 0 {
        out.push('-');
        let m: u64 = if y == i32::MIN { 2147483648u64 } else { (-y) as u64 };
        push_zero_padded(out, m, 4);
    } else {
        out.push('+');
        push_zero_padded(out, y as u64, 4);
    }
}

/// Formats a reading as `%Y-%m-%d %H:%M:%S`.
pub fn format_display(t: &LocalDateTime) -> (r: String)
    requires
        valid_reading(*t),
    ensures
        r@ == display_text(*t),
{
    let mut out: Vec<char> = Vec::new();
    push_year(&mut out, t.year);
    out.push('-');
    push_zero_padded(&mut out, t.month as u64, 2);
    out.push('-');
    push_zero_padded(&mut out, t.day as u64, 2);
    out.push(' ');
    push_zero_padded(&mut out, t.hour as u64, 2);
    out.push(':');
    push_zero_padded(&mut out, t.minute as u64, 2);
    out.push(':');
    push_zero_padded(&mut out, (t.second + t.nanosecond / 1_000_000_000) as u64, 2);
    string_of(out.as_slice())
}

/// Formats a reading as `%Y%m%d_%H%M%S`.
pub fn format_filename(t: &LocalDateTime) -> (r: String)
    requires
        valid_reading(*t),
    ensures
        r@ == filename_text(*t),
{
    let mut out: Vec<char> = Vec::new();
    push_year(&mut out, t.year);
    push_zero_padded(&mut out, t.month as u64, 2);
    push_zero_padded(&mut out, t.day as u64, 2);
    out.push('_');
    push_zero_padded(&mut out, t.hour as u64, 2);
    push_zero_padded(&mut out, t.minute as u64, 2);
    push_zero_padded(&mut out, (t.second + t.nanosecond / 1_000_000_000) as u64, 2);
    string_of(out.as_slice())
}

/// The current local time as `YYYY-MM-DD HH:MM:SS`.
pub fn now_display() -> (r: String)
    ensures
        exists|t: LocalDateTime| valid_reading(t) && r@ == display_text(t),
{
    let t = local_now();
    format_display(&t)
}

/// The current local time as `YYYYMMDD_HHMMSS`, safe in file names.
pub fn now_filename_safe() -> (r: String)
    ensures
        exists|t: LocalDateTime| valid_reading(t) && r@ == filename_text(t),
{
    let t = local_now();
    format_filename(&t)
}


// ── merged output names ─────────────────────────────────────────────────────

/// Characters trimmed from the start of a title: `-`, `_`, `.` and space.
pub open spec fn is_title_sep(c: char) -> bool {
    c == '-' || c == '_' || c == '.' || c == ' '
}

/// `s` without its leading title separators.
pub open spec fn trim_title_seps(s: Seq<char>) -> Seq<char>
    decreases s.len(),
{
    if s.len() > 0 && is_title_sep(s[0]) {
        trim_title_seps(s.drop_first())
    } else {
        s
    }
}

/// The stem that naming starts from: the file stem, or `merged`.
pub open spec fn rename_base(path: Seq<char>) -> Seq<char> {
    match file_stem(path) {
        Some(s) => s,
        None => "merged"@,
    }
}

/// The extension kept by naming, with its dot, or nothing.
pub open spec fn rename_ext(path: Seq<char>) -> Seq<char> {
    match extension(path) {
        Some(e) => seq!['.'] + e,
        None => Seq::empty(),
    }
}

/// A date and time inside a file name, such as `2026-06-07` or `2026-06-07 20-00-00`.
pub open spec fn date_pattern() -> Seq<char> {
    r"\d{4}[-_.]\d{2}[-_.]\d{2}(?:[ _-]\d{2}[-_.:]\d{2}[-_.:]\d{2})?"@
}

/// A leading bracketed date such as `[2026-06-07 20-00-00] `.
pub open spec fn bracket_date_pattern() -> Seq<char> {
    r"^\[\d[^\]]*\]\s*"@
}

/// The merged name built from a stem, an extension, a date text and the stem with its
/// leading bracketed date removed: `{date}_{title}{ext}` (or `{date}_merged{ext}` without
/// a title), with every run of underscores then shortened to one. Without a bracketed date
/// the title is the stem with the date text removed and leading separators trimmed.
pub open spec fn smart_name(base: Seq<char>, ext: Seq<char>, date: Seq<char>, stripped: Seq<char>) -> Seq<char> {
    let title = if stripped == base {
        trim_title_seps(replace_all(base, date, Seq::empty()))
    } else {
        stripped
    };
    let out = if title.len() == 0 {
        date + "_merged"@ + ext
    } else {
        date + seq!['_'] + title + ext
    };
    collapse_runs(out, '_')
}

/// A stem that starts with a bracketed date keeps the title that follows it: whenever
/// removing the bracket changed the stem and left a title, the merged name is the date,
/// an underscore, that title and the extension, with runs of underscores shortened.
pub proof fn lemma_bracketed_title_kept(base: Seq<char>, ext: Seq<char>, date: Seq<char>, stripped: Seq<char>)
    requires
        stripped != base,
        stripped.len() > 0,
    ensures
        smart_name(base, ext, date, stripped) == collapse_runs(date + seq!['_'] + stripped + ext, '_'),
        smart_name(base, ext, date, stripped).len() > 0,
{
    lemma_collapse_runs(date + seq!['_'] + stripped + ext, '_');
}


fn trim_title_seps_chars(s: &[char]) -> (r: Vec<char>)
    ensures
        r@ == trim_title_seps(s@),
{
    let mut i: usize = 0;
    assert(s@.skip(0) =~= s@);
    while i < s.len() && (s[i] == '-' || s[i] == '_' || s[i] == '.' || s[i] == ' ')
        invariant
            i <= s@.len(),
            trim_title_seps(s@.skip(i as int)) == trim_title_seps(s@),
        decreases s@.len() - i,
    {
        assert(s@.skip(i as int).drop_first() =~= s@.skip(i + 1));
        i = i + 1;
    }
    let mut out: Vec<char> = Vec::new();
    push_chars(&mut out, &s[i..s.len()]);
    assert(s@.subrange(i as int, s@.len() as int) =~= s@.skip(i as int));
    out
}

/// Builds the merged name from its parts.
pub fn smart_name_of(base: &[char], ext: &[char], date: &[char], stripped: &[char]) -> (r: String)
    ensures
        r@ == smart_name(base@, ext@, date@, stripped@),
        no_repeat(r@, '_'),
{
    let title: Vec<char> = if chars_eq(stripped, base) {
        let removed: Vec<char> = if date.len() == 0 {
            let mut v: Vec<char> = Vec::new();
            push_chars(&mut v, base);
            assert(v@ =~= base@);
            assert(replace_all(base@, date@, Seq::empty()) == base@);
            v
        } else {
            let empty: Vec<char> = Vec::new();
            assert(empty@ =~= Seq::<char>::empty());
            replace_chars(base, date, empty.as_slice())
        };
        trim_title_seps_chars(removed.as_slice())
    } else {
        let mut v: Vec<char> = Vec::new();
        push_chars(&mut v, stripped);
        v
    };
    let mut out: Vec<char> = Vec::new();
    push_chars(&mut out, date);
    if title.len() == 0 {
        push_str(&mut out, "_merged");
    } else {
        out.push('_');
        push_chars(&mut out, title.as_slice());
    }
    push_chars(&mut out, ext);
    assert(title@ == (if stripped@ == base@ {
        trim_title_seps(replace_all(base@, date@, Seq::empty()))
    } else {
        stripped@
    }));
    assert(out@ =~= (if title@.len() == 0 {
        date@ + "_merged"@ + ext@
    } else {
        date@ + seq!['_'] + title@ + ext@
    }));
    let r = collapse_runs_chars(out.as_slice(), '_');
    proof { lemma_collapse_runs(out@, '_'); }
    string_of(r.as_slice())
}

/// A name for the result of merging files, from the first file's path: the date found
/// in its stem (or `Merged_` and the current time) and the title that follows.
pub fn smart_rename(first_file: &str) -> (r: String)
    ensures
        no_repeat(r@, '_'),
        ({
            let base = rename_base(first_file@);
            let stripped = regex_first_replaced(bracket_date_pattern(), base, Seq::empty());
            &&& regex_first_match(date_pattern(), base) matches Some(d) ==> r@ == smart_name(
                base, rename_ext(first_file@), d, stripped)
            &&& regex_first_match(date_pattern(), base) is None ==> exists|t: LocalDateTime|
                valid_reading(t) && r@ == smart_name(base, rename_ext(first_file@),
                    "Merged_"@ + filename_text(t), stripped)
        }),
{
    let p = chars_of(first_file);
    let (base, ext): (Vec<char>, Vec<char>) = match file_name_chars(p.as_slice()) {
        Some(n) => {
            let b = stem_of_chars(n.as_slice());
            let e = match extension_of_chars(n.as_slice()) {
                Some(x) => {
                    let mut v: Vec<char> = Vec::new();
                    v.push('.');
                    push_chars(&mut v, x.as_slice());
                    v
                },
                None => Vec::new(),
            };
            (b, e)
        },
        None => (chars_of("merged"), Vec::new()),
    };
    assert(base@ == rename_base(first_file@));
    assert(ext@ =~= rename_ext(first_file@));
    let base_s = string_of(base.as_slice());
    let stripped = replace_first(r"^\[\d[^\]]*\]\s*", base_s.as_str(), "");
    proof { reveal_strlit(""); }
    assert(""@ =~= Seq::<char>::empty());
    let sv = chars_of(stripped.as_str());
    match find_first(r"\d{4}[-_.]\d{2}[-_.]\d{2}(?:[ _-]\d{2}[-_.:]\d{2}[-_.:]\d{2})?", base_s.as_str()) {
        Some(m) => {
            let date = chars_of(m.as_str());
            smart_name_of(base.as_slice(), ext.as_slice(), date.as_slice(), sv.as_slice())
        },
        None => {
            let t = local_now();
            let stamp = format_filename(&t);
            let mut date = chars_of("Merged_");
            push_chars(&mut date, chars_of(stamp.as_str()).as_slice());
            let r = smart_name_of(base.as_slice(), ext.as_slice(), date.as_slice(), sv.as_slice());
            assert(valid_reading(t) && r@ == smart_name(base@, ext@, "Merged_"@ + filename_text(t), sv@));
            r
        },
    }
}

} // verus!
