//! Path safety, output naming, directory listings and FFmpeg concat lists.
//!
//! Resolving a path against the file system (`canonicalize`) and listing a directory
//! are done by the caller; the decisions on their results are made here.
use vstd::prelude::*;
use crate::media_control::config::{is_video_name, VideoExtensions};
use crate::media_control::errors::AppError;
use crate::paths::{
    extension, extension_of_chars, file_stem, join, join_chars, parent, parent_chars,
    path_within, within_path, file_name_chars, stem_of_chars,
};
use crate::text::{
    chars_of, decimal, push_chars, push_decimal, push_str, replace_all, replace_chars, sort_strings,
    string_of, texts_sorted,
};

verus! {

/// The text a resolution gives, or the text itself when it failed.
pub open spec fn resolved_or(resolved: Option<&str>, unresolved: Seq<char>) -> Seq<char> {
    match resolved {
        Some(r) => r@,
        None => unresolved,
    }
}

/// Keeps file operations inside a base directory.
pub struct PathGuard {
    base_dir: String,
}

impl PathGuard {
    /// The base directory.
    pub closed spec fn base(&self) -> Seq<char> {
        self.base_dir@
    }

    /// A guard for `base_dir`.
    pub fn new(base_dir: &str) -> (g: Self)
        ensures
            g.base() == base_dir@,
    {
        PathGuard { base_dir: base_dir.to_owned() }
    }

    /// The decision `assert_inside` makes: the resolved path (or the path itself when it
    /// could not be resolved) must lie at or below the resolved base (or the base itself),
    /// with `.` and `..` resolved in both, so a path that climbs out with `..` is refused.
    pub open spec fn inside(&self, path: Seq<char>, resolved_base: Option<&str>, resolved_path: Option<&str>) -> bool {
        path_within(resolved_or(resolved_path, path), resolved_or(resolved_base, self.base()))
    }

    /// Accepts `path` when it lies inside the base directory.
    ///
    /// `resolved_base` and `resolved_path` are the canonical forms of the base directory
    /// and of `path`, when they could be resolved. A refused path is reported in the form
    /// that was compared.
    pub fn assert_inside(&self, path: &str, resolved_base: Option<&str>, resolved_path: Option<&str>) -> (r: Result<String, AppError>)
        ensures
            self.inside(path@, resolved_base, resolved_path) ==> (r matches Ok(p) && p@ == path@),
            !self.inside(path@, resolved_base, resolved_path) ==> (r matches Err(AppError::PathTraversal { path: t })
                && t@ == resolved_or(resolved_path, path@)),
    {
        let base = match resolved_base {
            Some(b) => chars_of(b),
            None => chars_of(self.base_dir.as_str()),
        };
        let target = match resolved_path {
            Some(t) => chars_of(t),
            None => chars_of(path),
        };
        if within_path(target.as_slice(), base.as_slice()) {
            Ok(path.to_owned())
        } else {
            Err(AppError::PathTraversal { path: string_of(target.as_slice()) })
        }
    }

    /// Joins `child` to `parent` and accepts the result when it lies inside the base
    /// directory; `resolved_joined` is the canonical form of the joined path, if any.
    pub fn safe_join(&self, parent: &str, child: &str, resolved_base: Option<&str>, resolved_joined: Option<&str>) -> (r: Result<String, AppError>)
        ensures
            self.inside(join(parent@, child@), resolved_base, resolved_joined) ==> (r matches Ok(p) && p@ == join(parent@, child@)),
            !self.inside(join(parent@, child@), resolved_base, resolved_joined) ==> (r matches Err(AppError::PathTraversal { path: t })
                && t@ == resolved_or(resolved_joined, join(parent@, child@))),
    {
        let joined = join_path(parent, child);
        self.assert_inside(joined.as_str(), resolved_base, resolved_joined)
    }
}

/// `child` joined to `parent`.
pub fn join_path(parent: &str, child: &str) -> (r: String)
    ensures
        r@ == join(parent@, child@),
{
    let p = chars_of(parent);
    let c = chars_of(child);
    let j = join_chars(p.as_slice(), c.as_slice());
    string_of(j.as_slice())
}

// ── output naming ───────────────────────────────────────────────────────────

/// The `k`-th alternative name for `path`: `{stem}_{k}{.ext}` in the same directory (or
/// `.`), with `default_stem` as the stem of a path without a file name.
pub open spec fn candidate_named(path: Seq<char>, k: nat, default_stem: Seq<char>) -> Seq<char> {
    let stem = match file_stem(path) {
        Some(s) => s,
        None => default_stem,
    };
    let ext = match extension(path) {
        Some(e) => seq!['.'] + e,
        None => Seq::empty(),
    };
    let dir = match parent(path) {
        Some(p) => p,
        None => "."@,
    };
    join(dir, stem + seq!['_'] + decimal(k) + ext)
}

/// `r` is what asking `taken` about `path` and then its alternatives can give: `path`
/// itself when free, or else the first free alternative, every earlier one taken (the
/// last alternative tried when all up to `u32::MAX` are taken).
pub open spec fn free_outcome<F: Fn(&str) -> bool>(taken: F, path: Seq<char>, default_stem: Seq<char>, r: Seq<char>) -> bool {
    (r == path && answered(taken, path, false)) || (answered(taken, path, true) && exists|k: nat|
        1 <= k <= u32::MAX && r == candidate_named(path, k, default_stem) && (answered(taken, r, false)
            || k == u32::MAX) && forall|j: nat| 1 <= j < k ==> answered(
            taken,
            #[trigger] candidate_named(path, j, default_stem),
            true,
        ))
}

/// `f` was asked about `text` and answered `b`.
pub open spec fn answered<F: Fn(&str) -> bool>(f: F, text: Seq<char>, b: bool) -> bool {
    exists|s: &str| s@ == text && #[trigger] f.ensures((s,), b)
}

/// The text of the `k`-th alternative name.
fn candidate_chars(dir: &[char], stem: &[char], ext: &[char], k: u32) -> (r: Vec<char>)
    ensures
        r@ == join(dir@, stem@ + seq!['_'] + decimal(k as nat) + ext@),
{
    let mut name: Vec<char> = Vec::new();
    push_chars(&mut name, stem);
    name.push('_');
    push_decimal(&mut name, k as u64);
    push_chars(&mut name, ext);
    join_chars(dir, name.as_slice())
}

/// A path that `taken` reports as free: `path` itself, or else the first free
/// `{stem}_{k}{.ext}` for `k = 1, 2, …`, with `default_stem` for a path without a name.
///
/// Every name tried before the result was reported taken. Should all `k` up to
/// `u32::MAX` be taken, the last name tried is returned.
pub fn free_path<F: Fn(&str) -> bool>(path: &str, taken: &F, default_stem: &str) -> (r: String)
    requires
        forall|s: &str| #[trigger] taken.requires((s,)),
    ensures
        free_outcome(*taken, path@, default_stem@, r@),
{
    if !taken(path) {
        return path.to_owned();
    }
    let p = chars_of(path);
    let stem: Vec<char> = match crate::paths::file_name_chars(p.as_slice()) {
        Some(n) => stem_of_chars(n.as_slice()),
        None => chars_of(default_stem),
    };
    let ext: Vec<char> = match crate::paths::file_name_chars(p.as_slice()) {
        Some(n) => match extension_of_chars(n.as_slice()) {
            Some(e) => {
                let mut v: Vec<char> = Vec::new();
                v.push('.');
                push_chars(&mut v, e.as_slice());
                v
            },
            None => Vec::new(),
        },
        None => Vec::new(),
    };
    let dir: Vec<char> = match parent_chars(p.as_slice()) {
        Some(d) => d,
        None => chars_of("."),
    };
    proof {
        let stem_s = match file_stem(path@) { Some(s) => s, None => default_stem@ };
        let ext_s = match extension(path@) { Some(e) => seq!['.'] + e, None => Seq::<char>::empty() };
        assert(stem@ == stem_s);
        assert(ext@ =~= ext_s);
    }
    let mut index: u32 = 1;
    loop
        invariant
            1 <= index,
            forall|s: &str| #[trigger] taken.requires((s,)),
            answered(*taken, path@, true),
            forall|j: nat| 1 <= j < index ==> answered(*taken, #[trigger] candidate_named(path@, j, default_stem@), true),
            forall|k: nat| #[trigger] candidate_named(path@, k, default_stem@) == join(dir@, stem@ + seq!['_'] + decimal(k) + ext@),
        decreases u32::MAX - index,
    {
        let cand = candidate_chars(dir.as_slice(), stem.as_slice(), ext.as_slice(), index);
        let s = string_of(cand.as_slice());
        let is_taken = taken(s.as_str());
        assert(candidate_named(path@, index as nat, default_stem@) == s@);
        if !is_taken {
            return s;
        }
        if index == u32::MAX {
            return s;
        }
        index = index + 1;
    }
}

/// A path that `taken` reports as free: `path` itself, or else the first free
/// `{stem}_{k}{.ext}` for `k = 1, 2, …` (`output` standing for a missing stem).
///
/// Every name tried before the result was reported taken. Should all `k` up to
/// `u32::MAX` be taken, the last name tried is returned.
pub fn unique_path<F: Fn(&str) -> bool>(path: &str, taken: &F) -> (r: String)
    requires
        forall|s: &str| #[trigger] taken.requires((s,)),
    ensures
        free_outcome(*taken, path@, "output"@, r@),
{
    free_path(path, taken, "output")
}

// ── directory listings ──────────────────────────────────────────────────────

/// The entries of a directory: sub-directories first, then video files.
#[derive(Debug, Default)]
pub struct DirListing {
    /// Sub-directory names, sorted.
    pub dirs: Vec<String>,
    /// Video file names, sorted.
    pub files: Vec<String>,
}

/// The text of each string.
pub open spec fn texts(v: Seq<String>) -> Seq<Seq<char>> {
    v.map_values(|s: String| s@)
}

impl DirListing {
    /// All entries: directories first, then files.
    pub fn all_items(&self) -> (items: Vec<String>)
        ensures
            texts(items@) == texts(self.dirs@) + texts(self.files@),
    {
        let mut items: Vec<String> = Vec::new();
        let mut i: usize = 0;
        while i < self.dirs.len()
            invariant
                i <= self.dirs@.len(),
                texts(items@) == texts(self.dirs@.take(i as int)),
            decreases self.dirs@.len() - i,
        {
            items.push(self.dirs[i].as_str().to_owned());
            assert(texts(self.dirs@.take(i + 1)) =~= texts(self.dirs@.take(i as int)).push(self.dirs@[i as int]@));
            assert(texts(items@) =~= texts(self.dirs@.take(i as int)).push(self.dirs@[i as int]@));
            i = i + 1;
        }
        assert(self.dirs@.take(self.dirs@.len() as int) =~= self.dirs@);
        let mut j: usize = 0;
        while j < self.files.len()
            invariant
                j <= self.files@.len(),
                texts(items@) == texts(self.dirs@) + texts(self.files@.take(j as int)),
            decreases self.files@.len() - j,
        {
            let ghost before = items@;
            items.push(self.files[j].as_str().to_owned());
            assert(texts(self.files@.take(j + 1)) =~= texts(self.files@.take(j as int)).push(self.files@[j as int]@));
            assert(texts(items@) =~= texts(before).push(self.files@[j as int]@));
            j = j + 1;
        }
        assert(self.files@.take(self.files@.len() as int) =~= self.files@);
        items
    }

    /// Number of entries.
    pub fn total(&self) -> (n: usize)
        requires
            self.dirs@.len() + self.files@.len() <= usize::MAX,
        ensures
            n == self.dirs@.len() + self.files@.len(),
    {
        self.dirs.len() + self.files.len()
    }
}

/// What a directory entry is.
#[derive(Debug, Clone, Copy, PartialEq, Eq, Structural)]
pub enum EntryKind {
    /// A directory.
    Dir,
    /// A regular file.
    File,
    /// Anything else.
    Other,
}

/// A directory entry as read from the file system.
pub struct ScannedEntry {
    /// The entry's name, when it is valid Unicode.
    pub name: Option<String>,
    /// What the entry is.
    pub kind: EntryKind,
    /// The canonical form of the entry's path, when it could be resolved.
    pub resolved: Option<String>,
}

/// The entry's name, when it lies inside the guard's base and has kind `kind`
/// (and, for files, names a video).
pub open spec fn listed_name(e: ScannedEntry, dir: Seq<char>, guard: PathGuard, resolved_base: Option<&str>, kind: EntryKind) -> Option<Seq<char>> {
    match e.name {
        Some(n) => {
            let target = match e.resolved {
                Some(r) => r@,
                None => join(dir, n@),
            };
            if path_within(target, resolved_or(resolved_base, guard.base())) && e.kind == kind
                && (kind == EntryKind::File ==> is_video_name(n@)) {
                Some(n@)
            } else {
                None
            }
        },
        None => None,
    }
}

/// The names of kind `kind` that a listing shows, in entry order.
pub open spec fn listed_names(entries: Seq<ScannedEntry>, dir: Seq<char>, guard: PathGuard, resolved_base: Option<&str>, kind: EntryKind) -> Seq<Seq<char>>
    decreases entries.len(),
{
    if entries.len() == 0 {
        Seq::empty()
    } else {
        let r = listed_names(entries.drop_last(), dir, guard, resolved_base, kind);
        match listed_name(entries.last(), dir, guard, resolved_base, kind) {
            Some(n) => r.push(n),
            None => r,
        }
    }
}

/// Builds the listing of `dir` from its entries.
///
/// Entries without a Unicode name, or whose path lies outside the guard's base, are
/// skipped; directories and video files are kept, each group sorted by name. Fails when
/// `dir` is not a directory.
pub fn scan_directory(dir: &str, dir_is_dir: bool, entries: Vec<ScannedEntry>, guard: &PathGuard, resolved_base: Option<&str>) -> (r: Result<DirListing, AppError>)
    ensures
        !dir_is_dir ==> (r matches Err(AppError::DirectoryNotFound { path: p }) && p@ == dir@),
        dir_is_dir ==> (r matches Ok(l) && texts_sorted(texts(l.dirs@)) && texts_sorted(texts(l.files@))
            && texts(l.dirs@).to_multiset() == listed_names(entries@, dir@, *guard, resolved_base, EntryKind::Dir).to_multiset()
            && texts(l.files@).to_multiset() == listed_names(entries@, dir@, *guard, resolved_base, EntryKind::File).to_multiset()),
{
    if !dir_is_dir {
        return Err(AppError::directory_not_found(dir));
    }
    let d = chars_of(dir);
    let base = match resolved_base {
        Some(b) => chars_of(b),
        None => chars_of(guard.base_dir.as_str()),
    };
    let mut dirs: Vec<String> = Vec::new();
    let mut files: Vec<String> = Vec::new();
    let mut rest = entries;
    let ghost all = rest@;
    let ghost mut k: int = 0;
    while rest.len() > 0
        invariant
            0 <= k <= all.len(),
            rest@ == all.skip(k),
            d@ == dir@,
            base@ == resolved_or(resolved_base, guard.base()),
            texts(dirs@) == listed_names(all.take(k), dir@, *guard, resolved_base, EntryKind::Dir),
            texts(files@) == listed_names(all.take(k), dir@, *guard, resolved_base, EntryKind::File),
        decreases rest@.len(),
    {
        let e = rest.remove(0);
        proof {
            assert(all.skip(k).drop_first() =~= all.skip(k + 1));
            assert(all.take(k + 1).drop_last() =~= all.take(k));
            assert(all.take(k + 1).last() == e);
        }
        let ghost dirs_before = dirs@;
        let ghost files_before = files@;
        match e.name {
            Some(name) => {
                let n = chars_of(name.as_str());
                let target = match &e.resolved {
                    Some(r) => chars_of(r.as_str()),
                    None => join_chars(d.as_slice(), n.as_slice()),
                };
                if within_path(target.as_slice(), base.as_slice()) {
                    match e.kind {
                        EntryKind::Dir => {
                            dirs.push(name);
                            assert(texts(dirs@) =~= texts(dirs_before).push(n@));
                        },
                        EntryKind::File => {
                            if VideoExtensions::is_video(name.as_str()) {
                                files.push(name);
                                assert(texts(files@) =~= texts(files_before).push(n@));
                            }
                        },
                        EntryKind::Other => {},
                    }
                }
            },
            None => {},
        }
        proof {
            k = k + 1;
        }
    }
    assert(all.take(k) =~= all);
    let dirs = sort_strings(dirs);
    let files = sort_strings(files);
    Ok(DirListing { dirs, files })
}

// ── FFmpeg concat lists ─────────────────────────────────────────────────────

/// A path escaped for an FFmpeg concat list: backslashes doubled, quotes escaped.
pub open spec fn concat_escaped(p: Seq<char>) -> Seq<char> {
    replace_all(replace_all(p, seq!['\\'], seq!['\\', '\\']), seq!['\''], seq!['\\', '\''])
}

/// One line of a concat list: `file '{escaped}'` and a newline.
pub open spec fn concat_line(p: Seq<char>) -> Seq<char> {
    "file '"@ + concat_escaped(p) + seq!['\'', '\n']
}

/// The lines of a concat list, in order.
pub open spec fn concat_list(paths: Seq<Seq<char>>) -> Seq<char>
    decreases paths.len(),
{
    if paths.len() == 0 {
        Seq::empty()
    } else {
        concat_list(paths.drop_last()) + concat_line(paths.last())
    }
}

/// The content of an FFmpeg concat list for `paths`, one `file '…'` line per path.
pub fn concat_list_content(paths: &[String]) -> (r: String)
    ensures
        r@ == concat_list(texts(paths@)),
{
    let mut out: Vec<char> = Vec::new();
    let mut i: usize = 0;
    let backslash = chars_of("\\");
    let two_backslashes = chars_of("\\\\");
    let quote = chars_of("'");
    let escaped_quote = chars_of("\\'");
    proof {
        reveal_strlit("\\");
        reveal_strlit("\\\\");
        reveal_strlit("'");
        reveal_strlit("\\'");
    }
    assert(backslash@ =~= seq!['\\']);
    assert(two_backslashes@ =~= seq!['\\', '\\']);
    assert(quote@ =~= seq!['\'']);
    assert(escaped_quote@ =~= seq!['\\', '\'']);
    while i < paths.len()
        invariant
            i <= paths@.len(),
            out@ == concat_list(texts(paths@.take(i as int))),
            backslash@ == seq!['\\'],
            two_backslashes@ == seq!['\\', '\\'],
            quote@ == seq!['\''],
            escaped_quote@ == seq!['\\', '\''],
        decreases paths@.len() - i,
    {
        let p = chars_of(paths[i].as_str());
        let a = replace_chars(p.as_slice(), backslash.as_slice(), two_backslashes.as_slice());
        let b = replace_chars(a.as_slice(), quote.as_slice(), escaped_quote.as_slice());
        push_str(&mut out, "file '");
        push_chars(&mut out, b.as_slice());
        out.push('\'');
        out.push('\n');
        assert(texts(paths@.take(i + 1)) =~= texts(paths@.take(i as int)).push(paths@[i as int]@));
        assert(texts(paths@.take(i + 1)).drop_last() =~= texts(paths@.take(i as int)));
        assert(concat_line(paths@[i as int]@) =~= "file '"@ + b@ + seq!['\'', '\n']);
        assert(out@ =~= concat_list(texts(paths@.take(i + 1))));
        i = i + 1;
    }
    assert(paths@.take(paths@.len() as int) =~= paths@);
    string_of(out.as_slice())
}

} // verus!
