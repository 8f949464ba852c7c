//! Paths, names and progress bars of the upload bot.
use vstd::prelude::*;
use crate::media_control::format::{date_pattern, bracket_date_pattern, filename_text, format_filename, LocalDateTime, smart_name_of, valid_reading};
use crate::media_control::storage::{free_outcome, free_path};
use crate::patterns::{find_first, regex_first_match, regex_first_replaced, replace_first};
use crate::paths::{extension, extension_of_chars, file_name, file_name_chars, file_stem, join, parent, path_starts_with, same_path, same_path_chars, starts_with_path, stem_of_chars};
use crate::text::{chars_eq, chars_of, decimal, push_chars, push_str, replace_all, replace_chars, string_of};

verus! {

// ── staying inside the base directory ───────────────────────────────────────

/// Why a path was refused.
#[derive(Debug, Clone, PartialEq)]
pub enum BaseCheckError {
    /// The base directory does not resolve; the resolver's message.
    BaseInvalid(String),
    /// The existing target does not resolve; the resolver's message.
    TargetInvalid(String),
    /// The target has no parent directory.
    NoParent,
    /// The target's parent does not resolve; the resolver's message.
    ParentInvalid(String),
    /// The target has no file name.
    NoFilename,
    /// The resolved target lies outside the base directory.
    Outside(String),
}

impl BaseCheckError {
    /// The message shown for the error, except `Outside`, whose message quotes the path
    /// in Rust's debug form: `非法路径，已超出 BASE_DIR: {path:?}`.
    pub open spec fn message_text(&self) -> Option<Seq<char>> {
        match self {
            BaseCheckError::BaseInvalid(e) => Some("Base dir invalid: "@ + e@),
            BaseCheckError::TargetInvalid(e) => Some("Target path invalid: "@ + e@),
            BaseCheckError::NoParent => Some("No parent dir"@),
            BaseCheckError::ParentInvalid(e) => Some("Parent invalid: "@ + e@),
            BaseCheckError::NoFilename => Some("No filename"@),
            BaseCheckError::Outside(_) => None,
        }
    }

    /// The message shown for the error (see `message_text`).
    pub fn message(&self) -> (r: Option<String>)
        ensures
            r matches Some(m) ==> self.message_text() == Some(m@),
            r is None ==> self.message_text() is None,
    {
        let mut out: Vec<char> = Vec::new();
        match self {
            BaseCheckError::BaseInvalid(e) => {
                push_str(&mut out, "Base dir invalid: ");
                push_str(&mut out, e.as_str());
            },
            BaseCheckError::TargetInvalid(e) => {
                push_str(&mut out, "Target path invalid: ");
                push_str(&mut out, e.as_str());
            },
            BaseCheckError::NoParent => push_str(&mut out, "No parent dir"),
            BaseCheckError::ParentInvalid(e) => {
                push_str(&mut out, "Parent invalid: ");
                push_str(&mut out, e.as_str());
            },
            BaseCheckError::NoFilename => push_str(&mut out, "No filename"),
            BaseCheckError::Outside(_) => return None,
        }
        assert(self.message_text() == Some(out@));
        Some(string_of(out.as_slice()))
    }
}

/// A refusal as plain text.
pub enum CheckFailure {
    BaseInvalid(Seq<char>),
    TargetInvalid(Seq<char>),
    NoParent,
    ParentInvalid(Seq<char>),
    NoFilename,
    Outside(Seq<char>),
}

/// The plain form of a refusal.
pub open spec fn failure_view(e: BaseCheckError) -> CheckFailure {
    match e {
        BaseCheckError::BaseInvalid(m) => CheckFailure::BaseInvalid(m@),
        BaseCheckError::TargetInvalid(m) => CheckFailure::TargetInvalid(m@),
        BaseCheckError::NoParent => CheckFailure::NoParent,
        BaseCheckError::ParentInvalid(m) => CheckFailure::ParentInvalid(m@),
        BaseCheckError::NoFilename => CheckFailure::NoFilename,
        BaseCheckError::Outside(p) => CheckFailure::Outside(p@),
    }
}

/// The outcome of resolving a path on disk: its canonical form, or the failure's message.
pub open spec fn resolved_text(r: Result<&str, &str>) -> Result<Seq<char>, Seq<char>> {
    match r {
        Ok(p) => Ok(p@),
        Err(e) => Err(e@),
    }
}

/// Where `target` resolves to, given how the base, the target and the target's parent
/// resolve: an existing target by itself, otherwise its parent joined with its name.
pub open spec fn inside_base_result(
    target: Seq<char>,
    base_real: Result<Seq<char>, Seq<char>>,
    target_exists: bool,
    target_real: Result<Seq<char>, Seq<char>>,
    parent_real: Result<Seq<char>, Seq<char>>,
) -> Result<Seq<char>, CheckFailure> {
    match base_real {
        Err(e) => Err(CheckFailure::BaseInvalid(e)),
        Ok(b) => {
            let resolved: Result<Seq<char>, CheckFailure> = if target_exists {
                match target_real {
                    Ok(t) => Ok(t),
                    Err(e) => Err(CheckFailure::TargetInvalid(e)),
                }
            } else if parent(target) is None {
                Err(CheckFailure::NoParent)
            } else {
                match parent_real {
                    Err(e) => Err(CheckFailure::ParentInvalid(e)),
                    Ok(p) => match file_name(target) {
                        None => Err(CheckFailure::NoFilename),
                        Some(n) => Ok(join(p, n)),
                    },
                }
            };
            match resolved {
                Err(e) => Err(e),
                Ok(t) => if same_path(t, b) || path_starts_with(t, b) {
                    Ok(t)
                } else {
                    Err(CheckFailure::Outside(t))
                },
            }
        },
    }
}

/// Resolves `target` and checks it lies at or below the base directory. `base_real`,
/// `target_real` and `parent_real` are how the base, the target and the target's parent
/// resolve on disk; `target_exists` tells whether the target exists. The target's own
/// resolution is used when it exists, else its parent's joined with its name.
pub fn assert_path_inside_base(
    target: &str,
    base_real: Result<&str, &str>,
    target_exists: bool,
    target_real: Result<&str, &str>,
    parent_real: Result<&str, &str>,
) -> (r: Result<String, BaseCheckError>)
    ensures
        ({
            let want = inside_base_result(
                target@,
                resolved_text(base_real),
                target_exists,
                resolved_text(target_real),
                resolved_text(parent_real),
            );
            &&& r matches Ok(p) ==> want == Ok::<Seq<char>, CheckFailure>(p@)
            &&& r matches Err(e) ==> want == Err::<Seq<char>, CheckFailure>(failure_view(e))
        }),
{
    let base: String = match base_real {
        Ok(b) => b.to_owned(),
        Err(e) => return Err(BaseCheckError::BaseInvalid(e.to_owned())),
    };
    let tc = chars_of(target);
    let resolved: String = if target_exists {
        match target_real {
            Ok(t) => t.to_owned(),
            Err(e) => return Err(BaseCheckError::TargetInvalid(e.to_owned())),
        }
    } else {
        match crate::paths::parent_chars(tc.as_slice()) {
            None => return Err(BaseCheckError::NoParent),
            Some(_) => {},
        }
        let p: String = match parent_real {
            Ok(p) => p.to_owned(),
            Err(e) => return Err(BaseCheckError::ParentInvalid(e.to_owned())),
        };
        let name: Vec<char> = match file_name_chars(tc.as_slice()) {
            None => return Err(BaseCheckError::NoFilename),
            Some(n) => n,
        };
        let j = crate::paths::join_chars(chars_of(p.as_str()).as_slice(), name.as_slice());
        string_of(j.as_slice())
    };
    let rc = chars_of(resolved.as_str());
    let bc = chars_of(base.as_str());
    if same_path_chars(rc.as_slice(), bc.as_slice()) || starts_with_path(rc.as_slice(), bc.as_slice()) {
        Ok(resolved)
    } else {
        Err(BaseCheckError::Outside(resolved))
    }
}

// ── free output names ───────────────────────────────────────────────────────

/// A path that `taken` reports as free: `path` itself, or else the first free
/// `{stem}_{k}{.ext}` for `k = 1, 2, …`, with `file` standing for a missing stem.
///
/// Every name tried before the result was reported taken. Should all `k` up to
/// `u32::MAX` be taken, the last name tried is returned.
pub fn unique_path<F: Fn(&str) -> bool>(path: &str, taken: &F) -> (r: String)
    requires
        forall|s: &str| #[trigger] taken.requires((s,)),
    ensures
        free_outcome(*taken, path@, "file"@, r@),
{
    free_path(path, taken, "file")
}

// ── merged names ────────────────────────────────────────────────────────────

/// Leading separators and white space, as `^[-_.\s]+` matches them.
pub open spec fn lead_sep_pattern() -> Seq<char> {
    r"^[-_.\s]+"@
}

/// The stem naming starts from: the file stem, or `video`.
pub open spec fn vp_rename_base(path: Seq<char>) -> Seq<char> {
    match file_stem(path) {
        Some(s) => s,
        None => "video"@,
    }
}

/// The extension naming keeps, without a dot; `.mp4` when there is none.
pub open spec fn vp_rename_ext(path: Seq<char>) -> Seq<char> {
    match extension(path) {
        Some(e) => e,
        None => ".mp4"@,
    }
}

/// The merged name from a stem, an extension, a date text, the stem with its leading
/// bracketed date removed, and (when that removal changed nothing) the title left after
/// removing the date and then its leading separators: `{date}_{title}.{ext}` or
/// `{date}_merged.{ext}`, each `__` then turned into `_`.
pub open spec fn vp_smart_name(base: Seq<char>, ext: Seq<char>, date: Seq<char>, stripped: Seq<char>, cleaned: Seq<char>) -> Seq<char> {
    let title = if stripped == base { cleaned } else { stripped };
    let out = if title.len() > 0 {
        date + seq!['_'] + title + seq!['.'] + ext
    } else {
        date + "_merged."@ + ext
    };
    replace_all(out, "__"@, "_"@)
}

/// `r` is a name that `smart_rename` can give for a merge starting with the file at `path`.
pub open spec fn vp_smart_outcome(path: Seq<char>, r: Seq<char>) -> bool {
    let base = vp_rename_base(path);
    let ext = vp_rename_ext(path);
    let stripped = regex_first_replaced(bracket_date_pattern(), base, Seq::empty());
    let with_date = |d: Seq<char>| vp_smart_name(
        base,
        ext,
        d,
        stripped,
        regex_first_replaced(lead_sep_pattern(), replace_all(stripped, d, Seq::empty()), Seq::empty()),
    );
    &&& regex_first_match(date_pattern(), base) matches Some(d) ==> r == with_date(d)
    &&& regex_first_match(date_pattern(), base) is None ==> exists|t: LocalDateTime|
        valid_reading(t) && r == with_date("Merged_"@ + filename_text(t))
}

/// A name for the result of merging files, from the first file's path: the date found in
/// its stem (or `Merged_` and the current time) and the title that follows.
pub fn smart_rename(first_file: &str) -> (r: String)
    ensures
        vp_smart_outcome(first_file@, r@),
{
    let p = chars_of(first_file);
    let (base, ext): (Vec<char>, Vec<char>) = match file_name_chars(p.as_slice()) {
        Some(n) => {
            let b = stem_of_chars(n.as_slice());
            let e = match extension_of_chars(n.as_slice()) {
                Some(x) => x,
                None => chars_of(".mp4"),
            };
            (b, e)
        },
        None => (chars_of("video"), chars_of(".mp4")),
    };
    let base_s = string_of(base.as_slice());
    let stripped = replace_first(r"^\[\d[^\]]*\]\s*", base_s.as_str(), "");
    proof { reveal_strlit(""); }
    assert(""@ =~= Seq::<char>::empty());
    let sv = chars_of(stripped.as_str());
    let date: Vec<char> = match find_first(r"\d{4}[-_.]\d{2}[-_.]\d{2}(?:[ _-]\d{2}[-_.:]\d{2}[-_.:]\d{2})?", base_s.as_str()) {
        Some(m) => chars_of(m.as_str()),
        None => {
            let t = local_reading();
            let stamp = format_filename(&t);
            let mut v = chars_of("Merged_");
            push_chars(&mut v, chars_of(stamp.as_str()).as_slice());
            assert(valid_reading(t) && v@ == "Merged_"@ + filename_text(t));
            v
        },
    };
    let removed: Vec<char> = if date.len() == 0 {
        let mut v: Vec<char> = Vec::new();
        push_chars(&mut v, sv.as_slice());
        assert(replace_all(sv@, date@, Seq::empty()) == sv@);
        v
    } else {
        let empty: Vec<char> = Vec::new();
        assert(empty@ =~= Seq::<char>::empty());
        replace_chars(sv.as_slice(), date.as_slice(), empty.as_slice())
    };
    let removed_s = string_of(removed.as_slice());
    let cleaned = replace_first(r"^[-_.\s]+", removed_s.as_str(), "");
    let title: Vec<char> = if chars_eq(sv.as_slice(), base.as_slice()) {
        chars_of(cleaned.as_str())
    } else {
        sv
    };
    let mut out: Vec<char> = Vec::new();
    push_chars(&mut out, date.as_slice());
    if title.len() > 0 {
        out.push('_');
        push_chars(&mut out, title.as_slice());
        out.push('.');
    } else {
        push_str(&mut out, "_merged.");
    }
    push_chars(&mut out, ext.as_slice());
    let dd = chars_of("__");
    let single = chars_of("_");
    proof { reveal_strlit("__"); }
    let r = replace_chars(out.as_slice(), dd.as_slice(), single.as_slice());
    assert(base@ == vp_rename_base(first_file@));
    assert(ext@ == vp_rename_ext(first_file@));
    assert(out@ =~= (if title@.len() > 0 {
        date@ + seq!['_'] + title@ + seq!['.'] + ext@
    } else {
        date@ + "_merged."@ + ext@
    }));
    string_of(r.as_slice())
}

/// The current local time (see `media_control::format`).
fn local_reading() -> (t: LocalDateTime)
    ensures
        valid_reading(t),
{
    crate::media_control::format::clock_reading()
}

// ── concat lists ────────────────────────────────────────────────────────────

/// One line of a concat list: `file '{path}'`, each `'` written `'\''`.
pub open spec fn vp_concat_line(p: Seq<char>) -> Seq<char> {
    "file '"@ + replace_all(p, seq!['\''], seq!['\'', '\\', '\'', '\'']) + seq!['\'', '\n']
}

/// The lines of a concat list, in order.
pub open spec fn vp_concat_list(paths: Seq<Seq<char>>) -> Seq<char>
    decreases paths.len(),
{
    if paths.len() == 0 {
        Seq::empty()
    } else {
        vp_concat_list(paths.drop_last()) + vp_concat_line(paths.last())
    }
}

/// The content of a concat list for `paths`.
pub fn concat_list_text(paths: &[String]) -> (r: String)
    ensures
        r@ == vp_concat_list(paths@.map_values(|s: String| s@)),
{
    let quote = chars_of("'");
    let escaped = chars_of("'\\''");
    proof {
        reveal_strlit("'");
        reveal_strlit("'\\''");
    }
    assert(quote@ =~= seq!['\'']);
    assert(escaped@ =~= seq!['\'', '\\', '\'', '\'']);
    let ghost ps = paths@.map_values(|s: String| s@);
    let mut out: Vec<char> = Vec::new();
    let mut i: usize = 0;
    while i < paths.len()
        invariant
            i <= paths@.len(),
            ps == paths@.map_values(|s: String| s@),
            quote@ == seq!['\''],
            escaped@ == seq!['\'', '\\', '\'', '\''],
            out@ == vp_concat_list(ps.take(i as int)),
        decreases paths@.len() - i,
    {
        let p = chars_of(paths[i].as_str());
        let e = replace_chars(p.as_slice(), quote.as_slice(), escaped.as_slice());
        push_str(&mut out, "file '");
        push_chars(&mut out, e.as_slice());
        out.push('\'');
        out.push('\n');
        assert(ps.take(i + 1).drop_last() =~= ps.take(i as int));
        assert(vp_concat_line(ps[i as int]) =~= "file '"@ + e@ + seq!['\'', '\n']);
        assert(out@ =~= vp_concat_list(ps.take(i + 1)));
        i = i + 1;
    }
    assert(ps.take(paths@.len() as int) =~= ps);
    string_of(out.as_slice())
}

// ── progress bars ───────────────────────────────────────────────────────────

/// `n` copies of `s`.
pub open spec fn repeated(s: Seq<char>, n: nat) -> Seq<char>
    decreases n,
{
    if n == 0 {
        Seq::empty()
    } else {
        repeated(s, (n - 1) as nat) + s
    }
}

fn push_repeated(out: &mut Vec<char>, s: &str, n: usize)
    ensures
        final(out)@ == old(out)@ + repeated(s@, n as nat),
{
    let ghost start = out@;
    let mut i: usize = 0;
    while i < n
        invariant
            i <= n,
            out@ == start + repeated(s@, i as nat),
        decreases n - i,
    {
        push_str(out, s);
        assert(repeated(s@, (i + 1) as nat) == repeated(s@, i as nat) + s@);
        i = i + 1;
    }
}

/// The cells of a progress bar with `filled` of `length` cells filled, in a theme:
/// theme 1 always has ten cells (`🟩`/`⬜`), theme 2 uses `━`/`─`, and any other `▰`/`▱`.
pub open spec fn bar_cells(theme: nat, filled: nat, length: nat) -> Seq<char> {
    if theme == 1 {
        repeated("🟩"@, filled) + repeated("⬜"@, (10 - filled) as nat)
    } else if theme == 2 {
        repeated("━"@, filled) + repeated("─"@, if filled <= length { (length - filled) as nat } else { 0 })
    } else {
        repeated("▰"@, filled) + repeated("▱"@, if filled <= length { (length - filled) as nat } else { 0 })
    }
}

/// A progress bar with its percentage: `<code>{cells}</code> <b>{percent}%</b>`.
pub open spec fn bar_text(theme: nat, filled: nat, length: nat, percent: Seq<char>) -> Seq<char> {
    "<code>"@ + bar_cells(theme, filled, length) + "</code> <b>"@ + percent + "%</b>"@
}

/// Builds a progress bar of a theme from the number of filled cells and the formatted
/// percentage; in theme 1 at most ten cells are filled.
pub fn build_progress_bar(filled: usize, length: usize, theme: usize, percent: &str) -> (r: String)
    requires
        theme == 1 ==> filled <= 10,
    ensures
        r@ == bar_text(theme as nat, filled as nat, length as nat, percent@),
{
    let mut out: Vec<char> = Vec::new();
    push_str(&mut out, "<code>");
    if theme == 1 {
        push_repeated(&mut out, "🟩", filled);
        push_repeated(&mut out, "⬜", 10 - filled);
    } else if theme == 2 {
        push_repeated(&mut out, "━", filled);
        push_repeated(&mut out, "─", if filled <= length { length - filled } else { 0 });
    } else {
        push_repeated(&mut out, "▰", filled);
        push_repeated(&mut out, "▱", if filled <= length { length - filled } else { 0 });
    }
    push_str(&mut out, "</code> <b>");
    push_str(&mut out, percent);
    push_str(&mut out, "%</b>");
    assert(out@ =~= bar_text(theme as nat, filled as nat, length as nat, percent@));
    string_of(out.as_slice())
}

} // verus!
