//! A model of Unix paths as text, following the component rules of `std::path`.
//!
//! A path's components are written as character sequences: the root is `"/"`,
//! a leading current-directory marker is `"."`, a parent marker is `".."` and every
//! other component is its name. Empty segments and inner `"."` segments are dropped.
use vstd::prelude::*;
use crate::text::{chars_eq, push_chars, split_chars, split_on};

verus! {

/// The path starts at the root.
pub open spec fn is_rooted(s: Seq<char>) -> bool {
    s.len() > 0 && s[0] == '/'
}

/// Whether the `k`-th `/`-separated segment of a path is one of its components.
pub open spec fn segment_kept(seg: Seq<char>, k: int, rooted: bool) -> bool {
    seg.len() > 0 && (seg != seq!['.'] || (k == 0 && !rooted))
}

/// The segments from index `from` on that are components.
pub open spec fn kept_segments(segs: Seq<Seq<char>>, from: int, rooted: bool) -> Seq<Seq<char>>
    decreases segs.len() - from,
{
    if from < 0 || from >= segs.len() {
        Seq::empty()
    } else {
        let rest = kept_segments(segs, from + 1, rooted);
        if segment_kept(segs[from], from, rooted) {
            seq![segs[from]] + rest
        } else {
            rest
        }
    }
}

/// The components of a path (`Path::components`).
pub open spec fn components(s: Seq<char>) -> Seq<Seq<char>> {
    let rooted = is_rooted(s);
    let root: Seq<Seq<char>> = if rooted { seq![seq!['/']] } else { Seq::empty() };
    root + kept_segments(split_on(s, '/'), 0, rooted)
}

/// `a` is a prefix of `b`, component by component.
pub open spec fn is_prefix<T>(a: Seq<T>, b: Seq<T>) -> bool {
    a.len() <= b.len() && forall|i: int| 0 <= i < a.len() ==> a[i] == b[i]
}

/// `s` lies at or below `base` (`Path::starts_with`): the components of `base`
/// are a prefix of those of `s`.
pub open spec fn path_starts_with(s: Seq<char>, base: Seq<char>) -> bool {
    is_prefix(components(base), components(s))
}

/// `child` appended to `parent` (`Path::join`): an absolute `child` replaces `parent`,
/// otherwise a separator is inserted unless `parent` is empty or already ends with one.
pub open spec fn join(parent: Seq<char>, child: Seq<char>) -> Seq<char> {
    if is_rooted(child) {
        child
    } else if parent.len() == 0 {
        child
    } else if parent.last() == '/' {
        parent + child
    } else {
        parent + seq!['/'] + child
    }
}

/// The pieces joined with `sep` between them.
pub open spec fn join_with(pieces: Seq<Seq<char>>, sep: char) -> Seq<char>
    decreases pieces.len(),
{
    if pieces.len() == 0 {
        Seq::empty()
    } else if pieces.len() == 1 {
        pieces[0]
    } else {
        join_with(pieces.drop_last(), sep) + seq![sep] + pieces.last()
    }
}

/// The normalized text of a list of components.
pub open spec fn render(comps: Seq<Seq<char>>) -> Seq<char> {
    if comps.len() > 0 && comps[0] == seq!['/'] {
        seq!['/'] + join_with(comps.drop_first(), '/')
    } else {
        join_with(comps, '/')
    }
}

/// A component that names a file or directory (not the root, `.` or `..`).
pub open spec fn is_normal(c: Seq<char>) -> bool {
    c != seq!['/'] && c != seq!['.'] && c != seq!['.', '.']
}

/// The final component, when it is a name (`Path::file_name`).
pub open spec fn file_name(s: Seq<char>) -> Option<Seq<char>> {
    let c = components(s);
    if c.len() > 0 && is_normal(c.last()) { Some(c.last()) } else { None }
}

/// The path without its final component, in normalized form (`Path::parent`);
/// `None` for the root and for the empty path.
pub open spec fn parent(s: Seq<char>) -> Option<Seq<char>> {
    let c = components(s);
    if c.len() == 0 || c.last() == seq!['/'] { None } else { Some(render(c.drop_last())) }
}

/// The index of the last occurrence of `ch`, or -1.
pub open spec fn last_index_of(s: Seq<char>, ch: char) -> int
    decreases s.len(),
{
    if s.len() == 0 {
        -1
    } else if s.last() == ch {
        s.len() - 1
    } else {
        last_index_of(s.drop_last(), ch)
    }
}

/// In `x`, then `c`, then text without `c`, the last `c` is the one after `x`.
pub proof fn lemma_last_index_after(x: Seq<char>, y: Seq<char>, c: char)
    requires
        forall|i: int| 0 <= i < y.len() ==> y[i] != c,
    ensures
        last_index_of(x.push(c) + y, c) == x.len(),
    decreases y.len(),
{
    let s = x.push(c) + y;
    if y.len() == 0 {
        assert(s =~= x.push(c));
    } else {
        assert(s.drop_last() =~= x.push(c) + y.drop_last());
        assert(s.last() == y.last());
        lemma_last_index_after(x, y.drop_last(), c);
    }
}

/// The part of a file name before its extension (`Path::file_stem` on a name).
pub open spec fn stem_of(name: Seq<char>) -> Seq<char> {
    let d = last_index_of(name, '.');
    if name == seq!['.', '.'] || d <= 0 { name } else { name.take(d) }
}

/// The extension of a file name, without the dot (`Path::extension` on a name).
pub open spec fn extension_of(name: Seq<char>) -> Option<Seq<char>> {
    let d = last_index_of(name, '.');
    if name == seq!['.', '.'] || d <= 0 { None } else { Some(name.skip(d + 1)) }
}

/// `Path::file_stem`.
pub open spec fn file_stem(s: Seq<char>) -> Option<Seq<char>> {
    match file_name(s) {
        Some(n) => Some(stem_of(n)),
        None => None,
    }
}

/// `Path::extension`.
pub open spec fn extension(s: Seq<char>) -> Option<Seq<char>> {
    match file_name(s) {
        Some(n) => extension_of(n),
        None => None,
    }
}

proof fn lemma_kept_segments_step(segs: Seq<Seq<char>>, from: int, rooted: bool)
    requires
        0 <= from < segs.len(),
    ensures
        kept_segments(segs, from, rooted) == (if segment_kept(segs[from], from, rooted) {
            seq![segs[from]] + kept_segments(segs, from + 1, rooted)
        } else {
            kept_segments(segs, from + 1, rooted)
        }),
{
}

/// The components of a path.
pub fn path_components(s: &[char]) -> (res: Vec<Vec<char>>)
    ensures
        res@.len() == components(s@).len(),
        forall|i: int| 0 <= i < res@.len() ==> #[trigger] res@[i]@ == components(s@)[i],
{
    let rooted = s.len() > 0 && s[0] == '/';
    let segs = split_chars(s, '/');
    let ghost gsegs = split_on(s@, '/');
    // Collect the kept segments from the right, matching the recursive definition.
    let mut kept_rev: Vec<Vec<char>> = Vec::new();
    let mut k: usize = segs.len();
    while k > 0
        invariant
            k <= segs@.len(),
            segs@.len() == gsegs.len(),
            forall|i: int| 0 <= i < segs@.len() ==> #[trigger] segs@[i]@ == gsegs[i],
            rooted == is_rooted(s@),
            kept_rev@.len() == kept_segments(gsegs, k as int, rooted).len(),
            forall|i: int| 0 <= i < kept_rev@.len() ==> #[trigger] kept_rev@[i]@
                == kept_segments(gsegs, k as int, rooted)[kept_rev@.len() - 1 - i],
        decreases k,
    {
        let idx = k - 1;
        proof {
            lemma_kept_segments_step(gsegs, idx as int, rooted);
        }
        let seg = &segs[idx];
        let is_dot = seg.len() == 1 && seg[0] == '.';
        assert(is_dot == (segs@[idx as int]@ == seq!['.'])) by {
            if segs@[idx as int]@ == seq!['.'] {
                assert(segs@[idx as int]@.len() == 1);
            }
            if is_dot {
                assert(segs@[idx as int]@ =~= seq!['.']);
            }
        }
        let keep = seg.len() > 0 && (!is_dot || (idx == 0 && !rooted));
        if keep {
            let ghost before = kept_rev@;
            let copy = copy_chars(seg);
            kept_rev.push(copy);
            assert forall|i: int| 0 <= i < kept_rev@.len() implies #[trigger] kept_rev@[i]@
                == kept_segments(gsegs, idx as int, rooted)[kept_rev@.len() - 1 - i] by {
                if i < before.len() {
                    assert(kept_rev@[i] == before[i]);
                }
            }
        }
        k = idx;
    }
    let mut res: Vec<Vec<char>> = Vec::new();
    if rooted {
        let mut root: Vec<char> = Vec::new();
        root.push('/');
        res.push(root);
        assert(res@[0]@ =~= seq!['/']);
    }
    let ghost root_part: Seq<Seq<char>> = if rooted { seq![seq!['/']] } else { Seq::empty() };
    let ghost kept = kept_segments(gsegs, 0, rooted);
    assert(components(s@) == root_part + kept);
    let mut j: usize = kept_rev.len();
    while j > 0
        invariant
            j <= kept_rev@.len(),
            kept_rev@.len() == kept.len(),
            forall|i: int| 0 <= i < kept_rev@.len() ==> #[trigger] kept_rev@[i]@ == kept[kept_rev@.len() - 1 - i],
            res@.len() == root_part.len() + (kept.len() - j),
            forall|i: int| 0 <= i < res@.len() ==> #[trigger] res@[i]@ == (root_part + kept)[i],
        decreases j,
    {
        let copy = copy_chars(&kept_rev[j - 1]);
        res.push(copy);
        j = j - 1;
    }
    res
}

/// A copy of a character vector.
pub fn copy_chars(v: &Vec<char>) -> (res: Vec<char>)
    ensures
        res@ == v@,
{
    let mut res: Vec<char> = Vec::new();
    push_chars(&mut res, v.as_slice());
    res
}

/// Whether `s` lies at or below `base`.
pub fn starts_with_path(s: &[char], base: &[char]) -> (res: bool)
    ensures
        res == path_starts_with(s@, base@),
{
    let cs = path_components(s);
    let cb = path_components(base);
    if cb.len() > cs.len() {
        return false;
    }
    let mut i: usize = 0;
    while i < cb.len()
        invariant
            cb@.len() <= cs@.len(),
            cs@.len() == components(s@).len(),
            cb@.len() == components(base@).len(),
            forall|k: int| 0 <= k < cs@.len() ==> #[trigger] cs@[k]@ == components(s@)[k],
            forall|k: int| 0 <= k < cb@.len() ==> #[trigger] cb@[k]@ == components(base@)[k],
            i <= cb@.len(),
            forall|k: int| 0 <= k < i ==> components(base@)[k] == components(s@)[k],
        decreases cb@.len() - i,
    {
        if !chars_eq(cb[i].as_slice(), cs[i].as_slice()) {
            return false;
        }
        i = i + 1;
    }
    true
}

/// Two paths with the same components (`Path` equality).
pub open spec fn same_path(a: Seq<char>, b: Seq<char>) -> bool {
    components(a) == components(b)
}

/// Whether two paths have the same components.
pub fn same_path_chars(a: &[char], b: &[char]) -> (res: bool)
    ensures
        res == same_path(a@, b@),
{
    let r = starts_with_path(a, b) && starts_with_path(b, a);
    assert(r == same_path(a@, b@)) by {
        if path_starts_with(a@, b@) && path_starts_with(b@, a@) {
            assert(components(a@) =~= components(b@));
        }
    }
    r
}

/// One component taken into a lexically resolved path: `.` changes nothing, `..` removes
/// the last name (at the root it stays at the root; with nothing left to remove it is
/// kept), any other component is appended.
pub open spec fn lexical_step(stack: Seq<Seq<char>>, c: Seq<char>) -> Seq<Seq<char>> {
    if c == seq!['.'] {
        stack
    } else if c == seq!['.', '.'] {
        if stack.len() == 0 || stack.last() == seq!['.', '.'] {
            stack.push(c)
        } else if stack.last() == seq!['/'] {
            stack
        } else {
            stack.drop_last()
        }
    } else {
        stack.push(c)
    }
}

/// The first `n` components, lexically resolved.
pub open spec fn lexical_prefix(comps: Seq<Seq<char>>, n: int) -> Seq<Seq<char>>
    decreases n,
{
    if n <= 0 {
        Seq::empty()
    } else {
        lexical_step(lexical_prefix(comps, n - 1), comps[n - 1])
    }
}

/// The components of a path with every `.` and `..` resolved by text alone.
pub open spec fn normal_components(s: Seq<char>) -> Seq<Seq<char>> {
    lexical_prefix(components(s), components(s).len() as int)
}

/// `s` lies at or below `base` once both are resolved: the resolved components of
/// `base` are a prefix of those of `s`. A path that climbs out of `base` with `..` does not.
pub open spec fn path_within(s: Seq<char>, base: Seq<char>) -> bool {
    is_prefix(normal_components(base), normal_components(s))
}

/// The components of `s` with `.` and `..` resolved.
pub fn normal_path_components(s: &[char]) -> (res: Vec<Vec<char>>)
    ensures
        res@.len() == normal_components(s@).len(),
        forall|i: int| 0 <= i < res@.len() ==> #[trigger] res@[i]@ == normal_components(s@)[i],
{
    let comps = path_components(s);
    let ghost gc = components(s@);
    let dot: Vec<char> = vec!['.'];
    let dotdot: Vec<char> = vec!['.', '.'];
    let root: Vec<char> = vec!['/'];
    assert(dot@ =~= seq!['.']);
    assert(dotdot@ =~= seq!['.', '.']);
    assert(root@ =~= seq!['/']);
    let mut out: Vec<Vec<char>> = Vec::new();
    let mut i: usize = 0;
    while i < comps.len()
        invariant
            comps@.len() == gc.len(),
            forall|k: int| 0 <= k < comps@.len() ==> #[trigger] comps@[k]@ == gc[k],
            i <= comps@.len(),
            dot@ == seq!['.'],
            dotdot@ == seq!['.', '.'],
            root@ == seq!['/'],
            out@.len() == lexical_prefix(gc, i as int).len(),
            forall|k: int| 0 <= k < out@.len() ==> #[trigger] out@[k]@ == lexical_prefix(gc, i as int)[k],
        decreases comps@.len() - i,
    {
        let ghost before = lexical_prefix(gc, i as int);
        let ghost after = lexical_prefix(gc, i as int + 1);
        assert(after == lexical_step(before, gc[i as int]));
        let c = &comps[i];
        if chars_eq(c.as_slice(), dot.as_slice()) {
        } else if chars_eq(c.as_slice(), dotdot.as_slice()) {
            let n = out.len();
            if n == 0 || chars_eq(out[n - 1].as_slice(), dotdot.as_slice()) {
                out.push(copy_chars(c));
                assert(after =~= before.push(gc[i as int]));
            } else if chars_eq(out[n - 1].as_slice(), root.as_slice()) {
            } else {
                out.pop();
                assert(after =~= before.drop_last());
            }
        } else {
            out.push(copy_chars(c));
            assert(after =~= before.push(gc[i as int]));
        }
        i = i + 1;
    }
    out
}

/// Whether `s` lies at or below `base` once `.` and `..` are resolved in both.
pub fn within_path(s: &[char], base: &[char]) -> (res: bool)
    ensures
        res == path_within(s@, base@),
{
    let cs = normal_path_components(s);
    let cb = normal_path_components(base);
    if cb.len() > cs.len() {
        return false;
    }
    let mut i: usize = 0;
    while i < cb.len()
        invariant
            cb@.len() <= cs@.len(),
            cs@.len() == normal_components(s@).len(),
            cb@.len() == normal_components(base@).len(),
            forall|k: int| 0 <= k < cs@.len() ==> #[trigger] cs@[k]@ == normal_components(s@)[k],
            forall|k: int| 0 <= k < cb@.len() ==> #[trigger] cb@[k]@ == normal_components(base@)[k],
            i <= cb@.len(),
            forall|k: int| 0 <= k < i ==> normal_components(base@)[k] == normal_components(s@)[k],
        decreases cb@.len() - i,
    {
        if !chars_eq(cb[i].as_slice(), cs[i].as_slice()) {
            return false;
        }
        i = i + 1;
    }
    true
}

/// The part of `s` below `base`, rendered (`Path::strip_prefix`), when `s` lies at or
/// below `base`.
pub fn strip_base(s: &[char], base: &[char]) -> (res: Option<Vec<char>>)
    ensures
        path_starts_with(s@, base@) ==> (res matches Some(v)
            && v@ == render(components(s@).skip(components(base@).len() as int))),
        !path_starts_with(s@, base@) ==> res is None,
{
    if !starts_with_path(s, base) {
        return None;
    }
    let cs = path_components(s);
    let nb = path_components(base).len();
    let ghost all = components(s@);
    let mut rest: Vec<Vec<char>> = Vec::new();
    let mut i = nb;
    while i < cs.len()
        invariant
            nb <= i <= cs@.len(),
            cs@.len() == all.len(),
            forall|k: int| 0 <= k < cs@.len() ==> #[trigger] cs@[k]@ == all[k],
            rest@.len() == i - nb,
            forall|k: int| 0 <= k < rest@.len() ==> #[trigger] rest@[k]@ == all[k + nb],
        decreases cs@.len() - i,
    {
        rest.push(copy_chars(&cs[i]));
        i = i + 1;
    }
    let n = rest.len();
    let r = render_prefix(&rest, n);
    assert(Seq::new(n as nat, |k: int| rest@[k]@) =~= all.skip(nb as int));
    Some(r)
}

/// `child` appended to `parent`.
pub fn join_chars(parent: &[char], child: &[char]) -> (res: Vec<char>)
    ensures
        res@ == join(parent@, child@),
{
    let mut out: Vec<char> = Vec::new();
    if child.len() > 0 && child[0] == '/' {
        push_chars(&mut out, child);
    } else if parent.len() == 0 {
        push_chars(&mut out, child);
    } else if parent[parent.len() - 1] == '/' {
        push_chars(&mut out, parent);
        push_chars(&mut out, child);
    } else {
        push_chars(&mut out, parent);
        out.push('/');
        push_chars(&mut out, child);
    }
    out
}

/// The normalized text of the first `n` components in `comps`.
fn render_prefix(comps: &Vec<Vec<char>>, n: usize) -> (res: Vec<char>)
    requires
        n <= comps@.len(),
    ensures
        res@ == render(Seq::new(n as nat, |i: int| comps@[i]@)),
{
    let ghost cs = Seq::new(n as nat, |i: int| comps@[i]@);
    let rooted = n > 0 && comps[0].len() == 1 && comps[0][0] == '/';
    assert(rooted == (cs.len() > 0 && cs[0] == seq!['/'])) by {
        if cs.len() > 0 && cs[0] == seq!['/'] {
            assert(comps@[0]@.len() == 1);
        }
        if rooted {
            assert(comps@[0]@ =~= seq!['/']);
        }
    }
    let start: usize = if rooted { 1 } else { 0 };
    let ghost body = cs.skip(start as int);
    let mut out: Vec<char> = Vec::new();
    let mut i = start;
    while i < n
        invariant
            start <= i <= n,
            n <= comps@.len(),
            body == cs.skip(start as int),
            cs == Seq::new(n as nat, |i: int| comps@[i]@),
            out@ == join_with(body.take(i - start), '/'),
        decreases n - i,
    {
        let ghost prev = body.take(i - start);
        assert(body.take(i - start + 1).drop_last() =~= prev);
        assert(body.take(i - start + 1).last() == comps@[i as int]@);
        if i > start {
            out.push('/');
        } else {
            assert(prev.len() == 0);
        }
        push_chars(&mut out, comps[i].as_slice());
        i = i + 1;
    }
    assert(body.take(n - start) =~= body);
    if rooted {
        let mut r: Vec<char> = Vec::new();
        r.push('/');
        push_chars(&mut r, out.as_slice());
        assert(cs.drop_first() =~= body);
        r
    } else {
        assert(cs =~= body);
        out
    }
}

/// The final component of a path, when it is a name.
pub fn file_name_chars(s: &[char]) -> (res: Option<Vec<char>>)
    ensures
        res matches Some(v) ==> file_name(s@) == Some(v@),
        res is None ==> file_name(s@) is None,
{
    let cs = path_components(s);
    if cs.len() == 0 {
        return None;
    }
    let last = &cs[cs.len() - 1];
    let is_root = last.len() == 1 && last[0] == '/';
    let is_dot = last.len() == 1 && last[0] == '.';
    let is_dotdot = last.len() == 2 && last[0] == '.' && last[1] == '.';
    proof {
        let l = last@;
        if l == seq!['/'] || l == seq!['.'] { assert(l.len() == 1); }
        if l == seq!['.', '.'] { assert(l.len() == 2); }
        if is_root { assert(l =~= seq!['/']); }
        if is_dot { assert(l =~= seq!['.']); }
        if is_dotdot { assert(l =~= seq!['.', '.']); }
    }
    if is_root || is_dot || is_dotdot {
        None
    } else {
        Some(copy_chars(last))
    }
}

/// The parent of a path, in normalized form.
pub fn parent_chars(s: &[char]) -> (res: Option<Vec<char>>)
    ensures
        res matches Some(v) ==> parent(s@) == Some(v@),
        res is None ==> parent(s@) is None,
{
    let cs = path_components(s);
    if cs.len() == 0 {
        return None;
    }
    let last = &cs[cs.len() - 1];
    let is_root = last.len() == 1 && last[0] == '/';
    proof {
        if last@ == seq!['/'] { assert(last@.len() == 1); }
        if is_root { assert(last@ =~= seq!['/']); }
    }
    if is_root {
        return None;
    }
    let r = render_prefix(&cs, cs.len() - 1);
    assert(Seq::new((cs@.len() - 1) as nat, |i: int| cs@[i]@) =~= components(s@).drop_last());
    Some(r)
}

proof fn lemma_last_index_of(s: Seq<char>, ch: char)
    ensures
        -1 <= last_index_of(s, ch) < s.len(),
        last_index_of(s, ch) >= 0 ==> s[last_index_of(s, ch)] == ch,
    decreases s.len(),
{
    if s.len() > 0 && s.last() != ch {
        lemma_last_index_of(s.drop_last(), ch);
    }
}

/// The index of the last occurrence of `ch` in `s`, if any.
pub fn last_index(s: &[char], ch: char) -> (res: Option<usize>)
    ensures
        res matches Some(i) ==> last_index_of(s@, ch) == i && i < s@.len(),
        res is None ==> last_index_of(s@, ch) == -1,
{
    proof { lemma_last_index_of(s@, ch); }
    let mut k: usize = s.len();
    assert(s@.take(s@.len() as int) =~= s@);
    while k > 0
        invariant
            k <= s@.len(),
            last_index_of(s@, ch) == last_index_of(s@.take(k as int), ch),
        decreases k,
    {
        assert(s@.take(k as int).last() == s@[k - 1]);
        if s[k - 1] == ch {
            return Some(k - 1);
        }
        assert(s@.take(k as int).drop_last() =~= s@.take(k - 1));
        k = k - 1;
    }
    None
}

/// The stem of a file name.
pub fn stem_of_chars(name: &[char]) -> (res: Vec<char>)
    ensures
        res@ == stem_of(name@),
{
    let is_dotdot = name.len() == 2 && name[0] == '.' && name[1] == '.';
    proof {
        if name@ == seq!['.', '.'] { assert(name@.len() == 2); }
        if is_dotdot { assert(name@ =~= seq!['.', '.']); }
    }
    let mut out: Vec<char> = Vec::new();
    match last_index(name, '.') {
        Some(d) => {
            if is_dotdot || d == 0 {
                push_chars(&mut out, name);
            } else {
                push_chars(&mut out, &name[0..d]);
                assert(name@.subrange(0, d as int) =~= name@.take(d as int));
            }
        },
        None => {
            push_chars(&mut out, name);
        },
    }
    out
}

/// The extension of a file name.
pub fn extension_of_chars(name: &[char]) -> (res: Option<Vec<char>>)
    ensures
        res matches Some(v) ==> extension_of(name@) == Some(v@),
        res is None ==> extension_of(name@) is None,
{
    let is_dotdot = name.len() == 2 && name[0] == '.' && name[1] == '.';
    proof {
        if name@ == seq!['.', '.'] { assert(name@.len() == 2); }
        if is_dotdot { assert(name@ =~= seq!['.', '.']); }
    }
    match last_index(name, '.') {
        Some(d) => {
            if is_dotdot || d == 0 {
                None
            } else {
                let mut out: Vec<char> = Vec::new();
                push_chars(&mut out, &name[d + 1..name.len()]);
                assert(name@.subrange(d + 1, name@.len() as int) =~= name@.skip(d + 1));
                Some(out)
            }
        },
        None => None,
    }
}

} // verus!
