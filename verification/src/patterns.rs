//! Regular-expression matching, done by the `regex` crate.
//!
//! What a pattern matches is the crate's to decide; the library names each result and
//! states its own logic over those names.
use vstd::prelude::*;

verus! {

/// The leftmost-first match of `pattern` in `text` (`Regex::find`), `None` when there is
/// none or the pattern does not compile.
pub uninterp spec fn regex_first_match(pattern: Seq<char>, text: Seq<char>) -> Option<Seq<char>>;

/// `text` with the leftmost-first match of `pattern` replaced by the literal `replacement`
/// (`Regex::replace` with `NoExpand`); `text` itself when the pattern does not compile.
pub uninterp spec fn regex_first_replaced(pattern: Seq<char>, text: Seq<char>, replacement: Seq<char>) -> Seq<char>;

/// The capture groups of the leftmost-first match of `pattern` in `text`
/// (`Regex::captures`), group 0 first; `None` when there is no match or the pattern does
/// not compile.
pub uninterp spec fn regex_first_captures(pattern: Seq<char>, text: Seq<char>) -> Option<Seq<Option<Seq<char>>>>;

/// `Regex::new(pattern)` then `find(text)`: the matched text.
#[verifier::external_body]
pub(crate) fn find_first(pattern: &str, text: &str) -> (r: Option<String>)
    ensures
        r matches Some(m) ==> regex_first_match(pattern@, text@) == Some(m@),
        r is None ==> regex_first_match(pattern@, text@) is None,
{
    match regex::Regex::new(pattern) {
        Ok(re) => match re.find(text) {
            Some(m) => Some(m.as_str().to_owned()),
            None => None,
        },
        Err(_) => None,
    }
}

/// `Regex::new(pattern)` then `replace(text, NoExpand(replacement))`.
#[verifier::external_body]
pub(crate) fn replace_first(pattern: &str, text: &str, replacement: &str) -> (r: String)
    ensures
        r@ == regex_first_replaced(pattern@, text@, replacement@),
{
    match regex::Regex::new(pattern) {
        Ok(re) => re.replace(text, regex::NoExpand(replacement)).into_owned(),
        Err(_) => text.to_owned(),
    }
}

/// `Regex::new(pattern)` then `captures(text)`: each group's text, group 0 first.
#[verifier::external_body]
pub(crate) fn captures_first(pattern: &str, text: &str) -> (r: Option<Vec<Option<String>>>)
    ensures
        r matches Some(v) ==> regex_first_captures(pattern@, text@) matches Some(g)
            && g.len() == v@.len()
            && forall|i: int| 0 <= i < g.len() ==> (#[trigger] g[i] matches Some(t) ==> v@[i] matches Some(u) && u@ == t)
                && (g[i] is None ==> v@[i] is None),
        r is None ==> regex_first_captures(pattern@, text@) is None,
{
    let re = match regex::Regex::new(pattern) {
        Ok(re) => re,
        Err(_) => return None,
    };
    let caps = re.captures(text)?;
    let mut groups: Vec<Option<String>> = Vec::new();
    for g in caps.iter() {
        groups.push(match g { Some(m) => Some(m.as_str().to_owned()), None => None });
    }
    Some(groups)
}

} // verus!
