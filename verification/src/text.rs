//! Character-sequence utilities used throughout the crate.
//!
//! Text is modelled as `Seq<char>` (the view of `String` and `&str`); the executable
//! helpers work on `Vec<char>` and convert at the edges.
use vstd::prelude::*;

verus! {

/// Appends one character to a `String` (`String::push`).
#[verifier::external_body]
pub(crate) fn push_char(s: &mut String, c: char)
    ensures
        final(s)@ == old(s)@.push(c),
{
    s.push(c);
}

/// The characters of a string slice, in order.
pub fn chars_of(s: &str) -> (res: Vec<char>)
    ensures
        res@ == s@,
{
    let mut res: Vec<char> = Vec::new();
    for c in it: s.chars()
        invariant
            res@ == it.seq().take(it.index() as int),
    {
        res.push(c);
    }
    res
}

/// Builds a `String` from a sequence of characters.
pub fn string_of(cs: &[char]) -> (res: String)
    ensures
        res@ == cs@,
{
    let mut res = String::new();
    let mut i: usize = 0;
    while i < cs.len()
        invariant
            i <= cs@.len(),
            res@ == cs@.take(i as int),
        decreases cs@.len() - i,
    {
        push_char(&mut res, cs[i]);
        assert(cs@.take(i as int + 1) == cs@.take(i as int).push(cs@[i as int]));
        i = i + 1;
    }
    assert(cs@.take(cs@.len() as int) == cs@);
    res
}

/// Appends the characters of `s` to `out`.
pub fn push_str(out: &mut Vec<char>, s: &str)
    ensures
        final(out)@ == old(out)@ + s@,
{
    let mut cs = chars_of(s);
    out.append(&mut cs);
}

/// Appends the characters of `s` to `out`.
pub fn push_chars(out: &mut Vec<char>, s: &[char])
    ensures
        final(out)@ == old(out)@ + s@,
{
    let mut i: usize = 0;
    let ghost start = out@;
    while i < s.len()
        invariant
            i <= s@.len(),
            out@ == start + s@.take(i as int),
        decreases s@.len() - i,
    {
        out.push(s[i]);
        assert(s@.take(i as int + 1) == s@.take(i as int).push(s@[i as int]));
        i = i + 1;
    }
    assert(s@.take(s@.len() as int) == s@);
}

/// Whether two character sequences are equal.
pub fn chars_eq(a: &[char], b: &[char]) -> (res: bool)
    ensures
        res == (a@ == b@),
{
    if a.len() != b.len() {
        return false;
    }
    let mut i: usize = 0;
    while i < a.len()
        invariant
            a@.len() == b@.len(),
            i <= a@.len(),
            forall|j: int| 0 <= j < i ==> a@[j] == b@[j],
        decreases a@.len() - i,
    {
        if a[i] != b[i] {
            return false;
        }
        i = i + 1;
    }
    assert(a@ =~= b@);
    true
}

/// Whether two string slices hold the same characters.
pub fn str_eq(a: &str, b: &str) -> (res: bool)
    ensures
        res == (a@ == b@),
{
    let ca = chars_of(a);
    let cb = chars_of(b);
    chars_eq(ca.as_slice(), cb.as_slice())
}

// ── prefixes, suffixes, occurrences ─────────────────────────────────────────

/// `s` begins with `p`.
pub open spec fn starts_with(s: Seq<char>, p: Seq<char>) -> bool {
    p.len() <= s.len() && s.take(p.len() as int) == p
}

/// `s` ends with `p`.
pub open spec fn ends_with(s: Seq<char>, p: Seq<char>) -> bool {
    p.len() <= s.len() && s.skip(s.len() - p.len()) == p
}

/// `p` occurs in `s` at position `i`.
pub open spec fn occurs_at(s: Seq<char>, p: Seq<char>, i: int) -> bool {
    0 <= i && i + p.len() <= s.len() && s.subrange(i, i + p.len()) == p
}

/// `p` occurs somewhere in `s`.
pub open spec fn contains(s: Seq<char>, p: Seq<char>) -> bool {
    exists|i: int| occurs_at(s, p, i)
}

/// Whether `s` begins with `p`.
pub fn has_prefix(s: &[char], p: &[char]) -> (res: bool)
    ensures
        res == starts_with(s@, p@),
{
    has_prefix_at(s, p, 0)
}

/// Whether `p` occurs in `s` at position `at`.
pub fn has_prefix_at(s: &[char], p: &[char], at: usize) -> (res: bool)
    ensures
        res == occurs_at(s@, p@, at as int),
        at == 0 ==> res == starts_with(s@, p@),
{
    if at > s.len() || p.len() > s.len() - at {
        return false;
    }
    let mut i: usize = 0;
    while i < p.len()
        invariant
            at + p@.len() <= s.len(),
            at <= s@.len(),
            i <= p@.len(),
            forall|j: int| 0 <= j < i ==> s@[at + j] == p@[j],
        decreases p@.len() - i,
    {
        if s[at + i] != p[i] {
            assert(s@.subrange(at as int, at + p@.len())[i as int] != p@[i as int]);
            return false;
        }
        i = i + 1;
    }
    assert(s@.subrange(at as int, at + p@.len()) =~= p@);
    if at == 0 {
        assert(s@.take(p@.len() as int) =~= s@.subrange(0, p@.len() as int));
    }
    true
}

/// Whether `s` ends with `p`.
pub fn has_suffix(s: &[char], p: &[char]) -> (res: bool)
    ensures
        res == ends_with(s@, p@),
{
    if p.len() > s.len() {
        return false;
    }
    let at = s.len() - p.len();
    let r = has_prefix_at(s, p, at);
    assert(s@.skip(at as int) =~= s@.subrange(at as int, s@.len() as int));
    r
}

/// The first position at which `p` occurs in `s` at or after `from`.
pub open spec fn first_occurrence_from(s: Seq<char>, p: Seq<char>, from: int) -> Option<int>
    decreases s.len() + 1 - from,
{
    if from < 0 || from + p.len() > s.len() {
        None
    } else if occurs_at(s, p, from) {
        Some(from)
    } else {
        first_occurrence_from(s, p, from + 1)
    }
}

proof fn lemma_first_occurrence_from(s: Seq<char>, p: Seq<char>, from: int)
    requires
        0 <= from,
    ensures
        first_occurrence_from(s, p, from) matches Some(i) ==> from <= i && occurs_at(s, p, i)
            && forall|j: int| from <= j < i ==> !occurs_at(s, p, j),
        first_occurrence_from(s, p, from) is None ==> forall|j: int| from <= j ==> !occurs_at(s, p, j),
    decreases s.len() + 1 - from,
{
    if from + p.len() > s.len() {
    } else if occurs_at(s, p, from) {
    } else {
        lemma_first_occurrence_from(s, p, from + 1);
    }
}

/// Finds the first occurrence of `p` in `s` at or after `from`.
pub fn find_from(s: &[char], p: &[char], from: usize) -> (res: Option<usize>)
    ensures
        res matches Some(i) ==> first_occurrence_from(s@, p@, from as int) == Some(i as int),
        res is None ==> first_occurrence_from(s@, p@, from as int) is None,
{
    let mut i = from;
    while i <= s.len() && p.len() <= s.len() - i
        invariant
            from <= i,
            first_occurrence_from(s@, p@, from as int) == first_occurrence_from(s@, p@, i as int),
        decreases s@.len() + 1 - i,
    {
        if has_prefix_at(s, p, i) {
            return Some(i);
        }
        assert(p@.len() > 0) by {
            if p@.len() == 0 {
                assert(s@.subrange(i as int, i as int) =~= p@);
            }
        }
        i = i + 1;
    }
    None
}

/// Whether `p` occurs in `s`.
pub fn contains_chars(s: &[char], p: &[char]) -> (res: bool)
    ensures
        res == contains(s@, p@),
{
    proof {
        lemma_first_occurrence_from(s@, p@, 0);
    }
    match find_from(s, p, 0) {
        Some(i) => true,
        None => false,
    }
}

// ── replacement ─────────────────────────────────────────────────────────────

/// Replaces every non-overlapping occurrence of the non-empty pattern `p`,
/// scanning from the left, by `r` (as `str::replace` does).
pub open spec fn replace_all(s: Seq<char>, p: Seq<char>, r: Seq<char>) -> Seq<char>
    recommends
        p.len() > 0,
    decreases s.len(),
{
    if p.len() == 0 || s.len() < p.len() {
        s
    } else if starts_with(s, p) {
        r + replace_all(s.skip(p.len() as int), p, r)
    } else {
        seq![s[0]] + replace_all(s.drop_first(), p, r)
    }
}

/// Replaces every occurrence of the non-empty pattern `p` in `s` by `r`.
pub fn replace_chars(s: &[char], p: &[char], r: &[char]) -> (res: Vec<char>)
    requires
        p@.len() > 0,
    ensures
        res@ == replace_all(s@, p@, r@),
{
    let mut out: Vec<char> = Vec::new();
    let mut i: usize = 0;
    assert(s@.skip(0) =~= s@);
    while i < s.len()
        invariant
            p@.len() > 0,
            i <= s@.len(),
            out@ + replace_all(s@.skip(i as int), p@, r@) == replace_all(s@, p@, r@),
        decreases s@.len() - i,
    {
        let ghost rest = s@.skip(i as int);
        if p.len() <= s.len() - i && has_prefix_at(s, p, i) {
            assert(rest.take(p@.len() as int) =~= s@.subrange(i as int, i + p@.len()));
            assert(rest.skip(p@.len() as int) =~= s@.skip(i + p@.len()));
            assert(out@ + r@ + replace_all(s@.skip(i + p@.len()), p@, r@)
                =~= out@ + replace_all(rest, p@, r@));
            push_chars(&mut out, r);
            i = i + p.len();
        } else {
            proof {
                if p@.len() <= rest.len() {
                    assert(rest.take(p@.len() as int) =~= s@.subrange(i as int, i + p@.len()));
                }
                assert(rest.drop_first() =~= s@.skip(i + 1));
                if rest.len() < p@.len() {
                    // the remainder is too short to hold the pattern: copied verbatim
                    lemma_replace_all_short(rest, p@, r@);
                    lemma_replace_all_short(s@.skip(i + 1), p@, r@);
                    assert(rest =~= seq![rest[0]] + s@.skip(i + 1));
                }
            }
            assert(out@.push(s@[i as int]) + replace_all(s@.skip(i + 1), p@, r@)
                =~= out@ + replace_all(rest, p@, r@));
            out.push(s[i]);
            i = i + 1;
        }
    }
    assert(s@.skip(i as int) =~= Seq::<char>::empty());
    assert(out@ + replace_all(Seq::<char>::empty(), p@, r@) =~= out@);
    out
}

proof fn lemma_replace_all_short(s: Seq<char>, p: Seq<char>, r: Seq<char>)
    requires
        s.len() < p.len(),
    ensures
        replace_all(s, p, r) == s,
{
}

// ── whitespace and trimming ─────────────────────────────────────────────────

/// The characters with the Unicode `White_Space` property (`char::is_whitespace`).
pub open spec fn is_whitespace(c: char) -> bool {
    ||| ('\u{9}' <= c && c <= '\u{d}')
    ||| c == ' '
    ||| c == '\u{85}'
    ||| c == '\u{a0}'
    ||| c == '\u{1680}'
    ||| ('\u{2000}' <= c && c <= '\u{200a}')
    ||| c == '\u{2028}'
    ||| c == '\u{2029}'
    ||| c == '\u{202f}'
    ||| c == '\u{205f}'
    ||| c == '\u{3000}'
}

/// Whether `c` is a white-space character.
pub fn is_whitespace_char(c: char) -> (res: bool)
    ensures
        res == is_whitespace(c),
{
    ('\u{9}' <= c && c <= '\u{d}') || c == ' ' || c == '\u{85}' || c == '\u{a0}' || c == '\u{1680}'
        || ('\u{2000}' <= c && c <= '\u{200a}') || c == '\u{2028}' || c == '\u{2029}' || c
        == '\u{202f}' || c == '\u{205f}' || c == '\u{3000}'
}

/// `s` without its leading white space.
pub open spec fn trim_start(s: Seq<char>) -> Seq<char>
    decreases s.len(),
{
    if s.len() > 0 && is_whitespace(s[0]) {
        trim_start(s.drop_first())
    } else {
        s
    }
}

/// `s` without its trailing white space.
pub open spec fn trim_end(s: Seq<char>) -> Seq<char>
    decreases s.len(),
{
    if s.len() > 0 && is_whitespace(s.last()) {
        trim_end(s.drop_last())
    } else {
        s
    }
}

/// `s` without leading and trailing white space (`str::trim`).
pub open spec fn trim(s: Seq<char>) -> Seq<char> {
    trim_end(trim_start(s))
}

/// Removes leading and trailing white space.
pub fn trim_chars(s: &[char]) -> (res: Vec<char>)
    ensures
        res@ == trim(s@),
{
    let mut a: usize = 0;
    assert(s@.skip(0) =~= s@);
    while a < s.len() && is_whitespace_char(s[a])
        invariant
            a <= s@.len(),
            trim_start(s@) == trim_start(s@.skip(a as int)),
        decreases s@.len() - a,
    {
        assert(s@.skip(a as int).drop_first() =~= s@.skip(a + 1));
        a = a + 1;
    }
    let ghost mid = s@.skip(a as int);
    assert(trim_start(s@) == mid) by {
        assert(s@.skip(a as int).len() == 0 || !is_whitespace(s@.skip(a as int)[0]));
    }
    let mut b: usize = s.len();
    while b > a && is_whitespace_char(s[b - 1])
        invariant
            a <= b <= s@.len(),
            trim_end(mid) == trim_end(s@.subrange(a as int, b as int)),
        decreases b,
    {
        assert(s@.subrange(a as int, b as int).drop_last() =~= s@.subrange(a as int, b - 1));
        b = b - 1;
    }
    let mut out: Vec<char> = Vec::new();
    let mut k = a;
    while k < b
        invariant
            a <= k <= b,
            b <= s@.len(),
            out@ == s@.subrange(a as int, k as int),
        decreases b - k,
    {
        out.push(s[k]);
        assert(s@.subrange(a as int, k + 1) =~= s@.subrange(a as int, k as int).push(s@[k as int]));
        k = k + 1;
    }
    out
}

// ── splitting ───────────────────────────────────────────────────────────────

/// The pieces of `s` between occurrences of `sep` (`str::split` with a char pattern).
/// There is always at least one piece.
pub open spec fn split_on(s: Seq<char>, sep: char) -> Seq<Seq<char>>
    decreases s.len(),
{
    if s.len() == 0 {
        seq![Seq::<char>::empty()]
    } else {
        let rest = split_on(s.drop_first(), sep);
        if s[0] == sep {
            seq![Seq::<char>::empty()] + rest
        } else {
            rest.update(0, seq![s[0]] + rest[0])
        }
    }
}

proof fn lemma_split_on_nonempty(s: Seq<char>, sep: char)
    ensures
        split_on(s, sep).len() >= 1,
    decreases s.len(),
{
    if s.len() > 0 {
        lemma_split_on_nonempty(s.drop_first(), sep);
    }
}

/// Text without the separator is a single piece.
pub proof fn lemma_split_plain(a: Seq<char>, sep: char)
    requires
        forall|i: int| 0 <= i < a.len() ==> a[i] != sep,
    ensures
        split_on(a, sep) == seq![a],
    decreases a.len(),
{
    if a.len() == 0 {
        assert(a =~= Seq::<char>::empty());
    } else {
        lemma_split_plain(a.drop_first(), sep);
        assert(seq![a[0]] + a.drop_first() =~= a);
        assert(seq![a.drop_first()].update(0, seq![a[0]] + a.drop_first()) =~= seq![a]);
    }
}

/// A piece without the separator, the separator, then more text: the piece comes first,
/// then the pieces of the rest.
pub proof fn lemma_split_join(a: Seq<char>, b: Seq<char>, sep: char)
    requires
        forall|i: int| 0 <= i < a.len() ==> a[i] != sep,
    ensures
        split_on(a + seq![sep] + b, sep) == seq![a] + split_on(b, sep),
    decreases a.len(),
{
    let s = a + seq![sep] + b;
    lemma_split_on_nonempty(b, sep);
    if a.len() == 0 {
        assert(a =~= Seq::<char>::empty());
        assert(s[0] == sep);
        assert(s.drop_first() =~= b);
    } else {
        let t = a.drop_first();
        lemma_split_join(t, b, sep);
        assert(s[0] == a[0]);
        assert(s.drop_first() =~= t + seq![sep] + b);
        assert(seq![a[0]] + t =~= a);
        assert((seq![t] + split_on(b, sep)).update(0, seq![a[0]] + t) =~= seq![a] + split_on(b, sep));
    }
}

/// Splits `s` at every occurrence of `sep`.
pub fn split_chars(s: &[char], sep: char) -> (res: Vec<Vec<char>>)
    ensures
        res@.len() == split_on(s@, sep).len(),
        forall|i: int| 0 <= i < res@.len() ==> #[trigger] res@[i]@ == split_on(s@, sep)[i],
{
    // Built from the right so that each step matches the recursive definition:
    // `cur` holds the first piece of the suffix, reversed; `pieces` the later pieces, last first.
    let mut pieces: Vec<Vec<char>> = Vec::new();
    let mut cur: Vec<char> = Vec::new();
    let mut i: usize = s.len();
    assert(s@.skip(s@.len() as int) =~= Seq::<char>::empty());
    while i > 0
        invariant
            i <= s@.len(),
            split_on(s@.skip(i as int), sep).len() == pieces@.len() + 1,
            split_on(s@.skip(i as int), sep)[0] == cur@.reverse(),
            forall|j: int| 0 <= j < pieces@.len() ==> #[trigger] pieces@[j]@
                == split_on(s@.skip(i as int), sep)[split_on(s@.skip(i as int), sep).len() - 1 - j],
        decreases i,
    {
        let ghost tail = split_on(s@.skip(i as int), sep);
        let ghost suffix = s@.skip(i - 1);
        assert(suffix.drop_first() =~= s@.skip(i as int));
        assert(suffix[0] == s@[i - 1]);
        assert(suffix.len() > 0);
        let ghost tail2 = split_on(suffix, sep);
        let c = s[i - 1];
        if c == sep {
            assert(tail2 == seq![Seq::<char>::empty()] + tail);
            let ghost old_pieces = pieces@;
            let done = reversed(&cur);
            pieces.push(done);
            cur = Vec::new();
            assert(cur@.reverse() =~= Seq::<char>::empty());
            assert forall|j: int| 0 <= j < pieces@.len() implies #[trigger] pieces@[j]@
                == tail2[tail2.len() - 1 - j] by {
                if j < pieces@.len() - 1 {
                    assert(pieces@[j] == old_pieces[j]);
                }
            }
        } else {
            assert(tail2 == tail.update(0, seq![c] + tail[0]));
            let ghost old_cur = cur@;
            cur.push(c);
            assert(cur@.reverse() =~= seq![c] + old_cur.reverse()) by {
                assert(cur@.drop_last() =~= old_cur);
            }
        }
        i = i - 1;
    }
    assert(s@.skip(0) =~= s@);
    // Emit in order: `cur` first, then `pieces` from last to first.
    let ghost all = split_on(s@, sep);
    let mut res: Vec<Vec<char>> = Vec::new();
    let first = reversed(&cur);
    res.push(first);
    let mut k: usize = pieces.len();
    while k > 0
        invariant
            k <= pieces@.len(),
            all.len() == pieces@.len() + 1,
            res@.len() == pieces@.len() + 1 - k,
            forall|j: int| 0 <= j < pieces@.len() ==> #[trigger] pieces@[j]@ == all[all.len() - 1 - j],
            forall|j: int| 0 <= j < res@.len() ==> #[trigger] res@[j]@ == all[j],
        decreases k,
    {
        let piece = copied(&pieces[k - 1]);
        res.push(piece);
        k = k - 1;
    }
    res
}

fn reversed(v: &Vec<char>) -> (res: Vec<char>)
    ensures
        res@ == v@.reverse(),
{
    let mut res: Vec<char> = Vec::new();
    let mut i: usize = v.len();
    while i > 0
        invariant
            i <= v@.len(),
            res@ == v@.skip(i as int).reverse(),
        decreases i,
    {
        res.push(v[i - 1]);
        assert(v@.skip(i - 1).reverse() =~= v@.skip(i as int).reverse().push(v@[i - 1]));
        i = i - 1;
    }
    assert(v@.skip(0) =~= v@);
    res
}

fn copied(v: &Vec<char>) -> (res: Vec<char>)
    ensures
        res@ == v@,
{
    let mut res: Vec<char> = Vec::new();
    push_chars(&mut res, v.as_slice());
    res
}

// ── decimal numbers ─────────────────────────────────────────────────────────

/// The character for a decimal digit.
pub open spec fn digit_char(d: int) -> char {
    if d == 0 { '0' }
    else if d == 1 { '1' }
    else if d == 2 { '2' }
    else if d == 3 { '3' }
    else if d == 4 { '4' }
    else if d == 5 { '5' }
    else if d == 6 { '6' }
    else if d == 7 { '7' }
    else if d == 8 { '8' }
    else { '9' }
}

/// The decimal representation of `n`, without leading zeros (as `Display` prints it).
pub open spec fn decimal(n: nat) -> Seq<char>
    decreases n,
{
    if n < 10 {
        seq![digit_char(n as int)]
    } else {
        decimal(n / 10).push(digit_char((n % 10) as int))
    }
}

/// `decimal(n)` left-padded with zeros to at least `width` characters (`{:0width$}`).
pub open spec fn zero_padded(n: nat, width: nat) -> Seq<char> {
    let d = decimal(n);
    if d.len() >= width {
        d
    } else {
        Seq::new((width - d.len()) as nat, |i: int| '0') + d
    }
}

fn digit_to_char(d: u64) -> (c: char)
    requires
        d < 10,
    ensures
        c == digit_char(d as int),
{
    match d {
        0 => '0',
        1 => '1',
        2 => '2',
        3 => '3',
        4 => '4',
        5 => '5',
        6 => '6',
        7 => '7',
        8 => '8',
        _ => '9',
    }
}

proof fn lemma_decimal_len(n: nat)
    ensures
        decimal(n).len() >= 1,
    decreases n,
{
    if n >= 10 {
        lemma_decimal_len(n / 10);
    }
}

/// The decimal text of a number is all digits, and parses back to the number.
pub proof fn lemma_decimal_parses(n: nat)
    ensures
        decimal(n).len() >= 1,
        all_digits(decimal(n)),
        digits_value(decimal(n)) == n,
        parse_unsigned(decimal(n)) == Some(n as int),
    decreases n,
{
    if n < 10 {
        let d = decimal(n);
        assert(d =~= seq![digit_char(n as int)]);
        assert(d.drop_last() =~= Seq::<char>::empty());
        assert(d.last() == digit_char(n as int));
        assert(digit_char(n as int) as int - '0' as int == n);
        assert(digits_value(d) == digits_value(d.drop_last()) * 10 + (d.last() as int - '0' as int));
        assert(digits_value(d.drop_last()) == 0);
    } else {
        lemma_decimal_parses(n / 10);
        let d = decimal(n);
        let c = digit_char((n % 10) as int);
        assert(d.drop_last() =~= decimal(n / 10));
        assert(c as int - '0' as int == n % 10);
        assert(d.last() == c);
        assert(digits_value(d) == digits_value(d.drop_last()) * 10 + (d.last() as int - '0' as int));
        assert(digits_value(d) == (n / 10) * 10 + n % 10);
        assert((n / 10) * 10 + n % 10 == n);
        assert(all_digits(d)) by {
            assert forall|i: int| 0 <= i < d.len() implies '0' <= #[trigger] d[i] && d[i] <= '9' by {
                if i < d.len() - 1 {
                    assert(d[i] == decimal(n / 10)[i]);
                }
            }
        }
    }
    let d = decimal(n);
    assert(d[0] != '+');
}

/// Appends the decimal representation of `n` to `out`.
pub fn push_decimal(out: &mut Vec<char>, n: u64)
    ensures
        final(out)@ == old(out)@ + decimal(n as nat),
    decreases n,
{
    if n < 10 {
        out.push(digit_to_char(n));
        assert(decimal(n as nat) =~= seq![digit_char(n as int)]);
    } else {
        push_decimal(out, n / 10);
        out.push(digit_to_char(n % 10));
    }
}

/// Appends `n` zero-padded to at least `width` digits.
pub fn push_zero_padded(out: &mut Vec<char>, n: u64, width: usize)
    ensures
        final(out)@ == old(out)@ + zero_padded(n as nat, width as nat),
{
    let mut digits: Vec<char> = Vec::new();
    push_decimal(&mut digits, n);
    assert(digits@ =~= decimal(n as nat));
    let ghost start = out@;
    if digits.len() < width {
        let pad = width - digits.len();
        let mut i: usize = 0;
        while i < pad
            invariant
                i <= pad,
                out@ == start + Seq::new(i as nat, |j: int| '0'),
            decreases pad - i,
        {
            out.push('0');
            assert(Seq::new((i + 1) as nat, |j: int| '0') =~= Seq::new(i as nat, |j: int| '0').push('0'));
            i = i + 1;
        }
    }
    push_chars(out, digits.as_slice());
    assert(out@ =~= start + zero_padded(n as nat, width as nat));
}

/// The decimal representation of a signed integer (`Display` for `i64`).
pub open spec fn signed_decimal(n: int) -> Seq<char> {
    if n < 0 { seq!['-'] + decimal((-n) as nat) } else { decimal(n as nat) }
}

/// Appends the decimal representation of a signed integer.
pub fn push_signed_decimal(out: &mut Vec<char>, n: i64)
    ensures
        final(out)@ == old(out)@ + signed_decimal(n as int),
{
    if n < 0 {
        out.push('-');
        let m: u64 = if n == i64::MIN { 9_223_372_036_854_775_808u64 } else { (-n) as u64 };
        push_decimal(out, m);
        assert(out@ =~= old(out)@ + signed_decimal(n as int));
    } else {
        push_decimal(out, n as u64);
    }
}

/// The value of a non-empty string of decimal digits.
pub open spec fn digits_value(s: Seq<char>) -> int
    decreases s.len(),
{
    if s.len() == 0 {
        0
    } else {
        digits_value(s.drop_last()) * 10 + (s.last() as int - '0' as int)
    }
}

/// All characters of `s` are ASCII digits.
pub open spec fn all_digits(s: Seq<char>) -> bool {
    forall|i: int| 0 <= i < s.len() ==> '0' <= #[trigger] s[i] && s[i] <= '9'
}

/// The unsigned integer a string denotes under Rust's `str::parse` rules:
/// an optional `+`, then at least one ASCII digit.
pub open spec fn parse_unsigned(s: Seq<char>) -> Option<int> {
    let body = if s.len() > 0 && s[0] == '+' { s.drop_first() } else { s };
    if body.len() > 0 && all_digits(body) {
        Some(digits_value(body))
    } else {
        None
    }
}

/// The signed integer a string denotes under Rust's `str::parse` rules:
/// an optional `+` or `-`, then at least one ASCII digit.
pub open spec fn parse_signed(s: Seq<char>) -> Option<int> {
    if s.len() > 0 && s[0] == '-' {
        let body = s.drop_first();
        if body.len() > 0 && all_digits(body) { Some(-digits_value(body)) } else { None }
    } else {
        parse_unsigned(s)
    }
}

proof fn lemma_digits_value_nonneg(s: Seq<char>)
    requires
        all_digits(s),
    ensures
        digits_value(s) >= 0,
    decreases s.len(),
{
    if s.len() > 0 {
        lemma_digits_value_nonneg(s.drop_last());
    }
}

proof fn lemma_digits_value_monotone(s: Seq<char>, k: int)
    requires
        all_digits(s),
        0 <= k <= s.len(),
    ensures
        digits_value(s.take(k)) <= digits_value(s),
    decreases s.len() - k,
{
    if k < s.len() {
        lemma_digits_value_monotone(s, k + 1);
        assert(s.take(k + 1).drop_last() =~= s.take(k));
        lemma_digits_value_nonneg(s.take(k));
        assert(all_digits(s.take(k)));
    } else {
        assert(s.take(k) =~= s);
    }
}

/// Accumulates the digits of `body` into a number no greater than `limit`;
/// `None` when a character is not a digit or the value exceeds `limit`.
fn accumulate_digits(body: &[char], limit: u64) -> (res: Option<u64>)
    ensures
        res matches Some(v) ==> all_digits(body@) && v == digits_value(body@) && v <= limit,
        res is None ==> !all_digits(body@) || digits_value(body@) > limit,
{
    let mut acc: u64 = 0;
    let mut i: usize = 0;
    while i < body.len()
        invariant
            i <= body@.len(),
            all_digits(body@.take(i as int)),
            acc == digits_value(body@.take(i as int)),
            acc <= limit,
        decreases body@.len() - i,
    {
        let c = body[i];
        assert(body@.take(i + 1).drop_last() =~= body@.take(i as int));
        if !('0' <= c && c <= '9') {
            assert(!('0' <= body@[i as int] && body@[i as int] <= '9'));
            return None;
        }
        let d: u64 = (c as u32 - '0' as u32) as u64;
        assert(all_digits(body@.take(i + 1)));
        let next: u128 = acc as u128 * 10 + d as u128;
        assert(digits_value(body@.take(i + 1)) == acc * 10 + d);
        if next > limit as u128 {
            proof {
                if all_digits(body@) {
                    lemma_digits_value_monotone(body@, i + 1);
                }
            }
            return None;
        }
        acc = next as u64;
        i = i + 1;
    }
    assert(body@.take(body@.len() as int) =~= body@);
    Some(acc)
}

/// Parses an unsigned integer no greater than `limit`, as `str::parse::<uN>` does
/// for the type whose maximum is `limit`.
pub fn parse_unsigned_chars(s: &[char], limit: u64) -> (res: Option<u64>)
    ensures
        res matches Some(v) ==> parse_unsigned(s@) == Some(v as int) && v <= limit,
        res is None ==> parse_unsigned(s@) is None || parse_unsigned(s@).unwrap() > limit,
{
    let start: usize = if s.len() > 0 && s[0] == '+' { 1 } else { 0 };
    let mut body: Vec<char> = Vec::new();
    let mut i = start;
    while i < s.len()
        invariant
            start <= i <= s@.len(),
            body@ == s@.subrange(start as int, i as int),
        decreases s@.len() - i,
    {
        body.push(s[i]);
        assert(s@.subrange(start as int, i + 1) =~= s@.subrange(start as int, i as int).push(s@[i as int]));
        i = i + 1;
    }
    assert(body@ =~= (if s@.len() > 0 && s@[0] == '+' { s@.drop_first() } else { s@ }));
    if body.len() == 0 {
        return None;
    }
    accumulate_digits(body.as_slice(), limit)
}

/// Parses a signed integer within `[-limit - 1, limit]`, as `str::parse::<iN>` does for the
/// type whose maximum is `limit`.
pub fn parse_signed_chars(s: &[char], limit: u64) -> (res: Option<i64>)
    requires
        limit <= i64::MAX,
    ensures
        res matches Some(v) ==> parse_signed(s@) == Some(v as int) && -(limit as int) - 1 <= v
            <= limit,
        res is None ==> parse_signed(s@) is None || parse_signed(s@).unwrap() > limit
            || parse_signed(s@).unwrap() < -(limit as int) - 1,
{
    if s.len() > 0 && s[0] == '-' {
        let mut body: Vec<char> = Vec::new();
        let mut i: usize = 1;
        while i < s.len()
            invariant
                1 <= i <= s@.len(),
                body@ == s@.subrange(1, i as int),
            decreases s@.len() - i,
        {
            body.push(s[i]);
            assert(s@.subrange(1, i + 1) =~= s@.subrange(1, i as int).push(s@[i as int]));
            i = i + 1;
        }
        assert(body@ =~= s@.drop_first());
        if body.len() == 0 {
            return None;
        }
        match accumulate_digits(body.as_slice(), limit + 1) {
            Some(v) => {
                let r: i64 = if v == limit + 1 { -(limit as i64) - 1 } else { -(v as i64) };
                Some(r)
            },
            None => None,
        }
    } else {
        match parse_unsigned_chars(s, limit) {
            Some(v) => Some(v as i64),
            None => None,
        }
    }
}


// ── ordering ────────────────────────────────────────────────────────────────

/// Lexicographic order on text by code point (the order of `String`'s `Ord`).
pub open spec fn text_le(a: Seq<char>, b: Seq<char>) -> bool
    decreases a.len(),
{
    if a.len() == 0 {
        true
    } else if b.len() == 0 {
        false
    } else if a[0] != b[0] {
        a[0] < b[0]
    } else {
        text_le(a.drop_first(), b.drop_first())
    }
}

/// `text_le` is total.
pub proof fn lemma_text_le_total(a: Seq<char>, b: Seq<char>)
    ensures
        text_le(a, b) || text_le(b, a),
    decreases a.len(),
{
    if a.len() > 0 && b.len() > 0 && a[0] == b[0] {
        lemma_text_le_total(a.drop_first(), b.drop_first());
    }
}

/// `text_le` is transitive.
pub proof fn lemma_text_le_transitive(a: Seq<char>, b: Seq<char>, c: Seq<char>)
    requires
        text_le(a, b),
        text_le(b, c),
    ensures
        text_le(a, c),
    decreases a.len(),
{
    if a.len() > 0 && b.len() > 0 && c.len() > 0 && a[0] == b[0] && b[0] == c[0] {
        lemma_text_le_transitive(a.drop_first(), b.drop_first(), c.drop_first());
    }
}

/// Whether `a` comes no later than `b` in text order.
pub fn chars_le(a: &[char], b: &[char]) -> (res: bool)
    ensures
        res == text_le(a@, b@),
{
    let mut i: usize = 0;
    assert(a@.skip(0) =~= a@);
    assert(b@.skip(0) =~= b@);
    while i < a.len() && i < b.len()
        invariant
            i <= a@.len(),
            i <= b@.len(),
            text_le(a@, b@) == text_le(a@.skip(i as int), b@.skip(i as int)),
        decreases a@.len() - i,
    {
        assert(a@.skip(i as int)[0] == a@[i as int]);
        assert(b@.skip(i as int)[0] == b@[i as int]);
        if a[i] != b[i] {
            return a[i] < b[i];
        }
        assert(a@.skip(i as int).drop_first() =~= a@.skip(i + 1));
        assert(b@.skip(i as int).drop_first() =~= b@.skip(i + 1));
        i = i + 1;
    }
    i == a.len()
}

/// `s` is in ascending text order.
pub open spec fn texts_sorted(s: Seq<Seq<char>>) -> bool {
    forall|i: int, j: int| 0 <= i < j < s.len() ==> text_le(#[trigger] s[i], #[trigger] s[j])
}

fn string_le_chars(s: &String, x: &[char]) -> (res: bool)
    ensures
        res == text_le(s@, x@),
{
    let c = chars_of(s.as_str());
    chars_le(c.as_slice(), x)
}

/// Sorts strings in ascending text order (as `Vec::<String>::sort` does).
pub fn sort_strings(v: Vec<String>) -> (res: Vec<String>)
    ensures
        texts_sorted(res@.map_values(|s: String| s@)),
        res@.map_values(|s: String| s@).to_multiset() == v@.map_values(|s: String| s@).to_multiset(),
{
    let ghost view = |s: String| s@;
    let mut rest = v;
    let ghost all = rest@;
    let mut out: Vec<String> = Vec::new();
    let ghost mut k: int = 0;
    assert(out@.map_values(view) =~= all.take(0).map_values(view));
    while rest.len() > 0
        invariant
            0 <= k <= all.len(),
            rest@ == all.skip(k),
            view == (|s: String| s@),
            texts_sorted(out@.map_values(view)),
            out@.map_values(view).to_multiset() == all.take(k).map_values(view).to_multiset(),
        decreases rest@.len(),
    {
        let x = rest.remove(0);
        proof {
            assert(all.skip(k).drop_first() =~= all.skip(k + 1));
            assert(all.take(k + 1).map_values(view) =~= all.take(k).map_values(view).push(x@));
        }
        let xc = chars_of(x.as_str());
        // find the first position whose element is not <= x
        let mut j: usize = 0;
        while j < out.len() && string_le_chars(&out[j], xc.as_slice())
            invariant
                j <= out@.len(),
                xc@ == x@,
                forall|i: int| 0 <= i < j ==> text_le(#[trigger] out@[i]@, x@),
            decreases out@.len() - j,
        {
            j = j + 1;
        }
        let ghost before = out@.map_values(view);
        let ghost n = out@.len();
        proof {
            assert(forall|i: int| 0 <= i < n ==> #[trigger] before[i] == out@[i]@);
        }
        out.insert(j, x);
        proof {
            let m = out@.map_values(view);
            assert(m =~= before.insert(j as int, x@));
            vstd::seq_lib::to_multiset_insert(before, j as int, x@);
            vstd::seq_lib::to_multiset_build(all.take(k).map_values(view), x@);
            assert forall|a: int, b: int| 0 <= a < b < m.len() implies text_le(
                #[trigger] m[a],
                #[trigger] m[b],
            ) by {
                if b < j {
                    assert(m[a] == before[a] && m[b] == before[b]);
                } else if b == j {
                    assert(m[a] == before[a]);
                } else if a < j {
                    assert(m[a] == before[a] && m[b] == before[b - 1]);
                } else if a == j {
                    assert(m[b] == before[b - 1]);
                    assert(!text_le(before[j as int], x@));
                    lemma_text_le_total(x@, before[j as int]);
                    if b - 1 > j {
                        lemma_text_le_transitive(x@, before[j as int], before[b - 1]);
                    }
                } else {
                    assert(m[a] == before[a - 1] && m[b] == before[b - 1]);
                }
            }
            k = k + 1;
        }
    }
    assert(all.take(k) =~= all);
    out
}


// ── runs of a character ─────────────────────────────────────────────────────

/// `s` with every run of `c` shortened to a single `c`.
pub open spec fn collapse_runs(s: Seq<char>, c: char) -> Seq<char>
    decreases s.len(),
{
    if s.len() == 0 {
        Seq::empty()
    } else {
        let r = collapse_runs(s.drop_last(), c);
        if s.last() == c && r.len() > 0 && r.last() == c {
            r
        } else {
            r.push(s.last())
        }
    }
}

/// No two neighbouring characters of `s` are both `c`.
pub open spec fn no_repeat(s: Seq<char>, c: char) -> bool {
    forall|i: int| 0 <= i < s.len() - 1 ==> !(#[trigger] s[i] == c && s[i + 1] == c)
}

/// A collapsed text holds no repeated `c`, and it is empty exactly when `s` is.
pub proof fn lemma_collapse_runs(s: Seq<char>, c: char)
    ensures
        no_repeat(collapse_runs(s, c), c),
        collapse_runs(s, c).len() <= s.len(),
        (collapse_runs(s, c).len() == 0) == (s.len() == 0),
        s.len() > 0 ==> collapse_runs(s, c).last() == s.last(),
    decreases s.len(),
{
    if s.len() > 0 {
        lemma_collapse_runs(s.drop_last(), c);
        let r = collapse_runs(s.drop_last(), c);
        if !(s.last() == c && r.len() > 0 && r.last() == c) {
            let q = r.push(s.last());
            assert forall|i: int| 0 <= i < q.len() - 1 implies !(#[trigger] q[i] == c && q[i + 1] == c) by {
                if i + 1 < r.len() {
                    assert(q[i] == r[i] && q[i + 1] == r[i + 1]);
                } else {
                    assert(q[i + 1] == s.last());
                    assert(q[i] == r.last());
                }
            }
        }
    }
}

/// `s` with every run of `c` shortened to a single `c`.
pub fn collapse_runs_chars(s: &[char], c: char) -> (r: Vec<char>)
    ensures
        r@ == collapse_runs(s@, c),
{
    let mut out: Vec<char> = Vec::new();
    let mut i: usize = 0;
    while i < s.len()
        invariant
            i <= s@.len(),
            out@ == collapse_runs(s@.take(i as int), c),
        decreases s@.len() - i,
    {
        assert(s@.take(i + 1).drop_last() =~= s@.take(i as int));
        let n = out.len();
        if !(s[i] == c && n > 0 && out[n - 1] == c) {
            out.push(s[i]);
        }
        i = i + 1;
    }
    assert(s@.take(s@.len() as int) =~= s@);
    out
}

// ── case mapping ────────────────────────────────────────────────────────────

/// The text `str::to_lowercase` produces (full Unicode case mapping).
pub uninterp spec fn lowercase(s: Seq<char>) -> Seq<char>;

/// Every character of `s` is ASCII.
pub open spec fn all_ascii(s: Seq<char>) -> bool {
    forall|i: int| 0 <= i < s.len() ==> (s[i] as u32) < 128
}

/// ASCII text with `A`..`Z` turned into `a`..`z`.
pub open spec fn ascii_lower(s: Seq<char>) -> Seq<char> {
    s.map_values(|c: char| if 'A' <= c && c <= 'Z' { ((c as u32) + 32) as char } else { c })
}

/// `str::to_lowercase`: the text with every character mapped to lower case; on ASCII
/// text that mapping turns `A`..`Z` into `a`..`z` and keeps every other character.
#[verifier::external_body]
pub(crate) fn to_lowercase(s: &str) -> (r: String)
    ensures
        r@ == lowercase(s@),
        all_ascii(s@) ==> r@ == ascii_lower(s@),
{
    s.to_lowercase()
}


/// The text `str::to_uppercase` produces (full Unicode case mapping).
pub uninterp spec fn uppercase(s: Seq<char>) -> Seq<char>;

/// `str::to_uppercase`: the text with every character mapped to upper case.
#[verifier::external_body]
pub(crate) fn to_uppercase(s: &str) -> (r: String)
    ensures
        r@ == uppercase(s@),
{
    s.to_uppercase()
}

/// The characters of `s` from `a` up to (not including) `b`.
pub fn sub_chars(s: &[char], a: usize, b: usize) -> (res: Vec<char>)
    requires
        a <= b <= s@.len(),
    ensures
        res@ == s@.subrange(a as int, b as int),
{
    let mut out: Vec<char> = Vec::new();
    let mut i = a;
    while i < b
        invariant
            a <= i <= b,
            b <= s@.len(),
            out@ == s@.subrange(a as int, i as int),
        decreases b - i,
    {
        out.push(s[i]);
        assert(s@.subrange(a as int, i + 1) =~= s@.subrange(a as int, i as int).push(s@[i as int]));
        i = i + 1;
    }
    out
}

/// The number a text denotes as a `usize`, or 0 when it is not one (`parse().unwrap_or(0)`).
pub open spec fn usize_or_zero(s: Seq<char>) -> usize {
    match parse_unsigned(s) {
        Some(v) => if v <= usize::MAX { v as usize } else { 0 },
        None => 0,
    }
}

/// Parses a `usize`, giving 0 for text that is not one.
pub fn parse_usize_or_zero(s: &[char]) -> (n: usize)
    ensures
        n == usize_or_zero(s@),
{
    match parse_unsigned_chars(s, usize::MAX as u64) {
        Some(v) => v as usize,
        None => 0,
    }
}


/// The number a text denotes as a `u64`, or 0 when it is not one (`parse().unwrap_or(0)`).
pub open spec fn u64_or_zero(s: Seq<char>) -> nat {
    match parse_unsigned(s) {
        Some(v) => if v <= u64::MAX { v as nat } else { 0 },
        None => 0,
    }
}

/// Parses a `u64`, giving 0 for text that is not one.
pub fn parse_u64_or_zero(s: &[char]) -> (n: u64)
    ensures
        n == u64_or_zero(s@),
{
    match parse_unsigned_chars(s, u64::MAX) {
        Some(v) => v,
        None => 0,
    }
}

} // verus!
