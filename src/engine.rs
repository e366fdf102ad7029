//! The regular-expression engine, reached through the `regex` crate. Each
//! item here is taken on trust: its contract states what the engine's
//! documentation gives.
use vstd::prelude::*;

verus! {

#[verifier::external_type_specification]
#[verifier::external_body]
pub struct ExRegex(regex::Regex);

/// The message with which the engine refuses pattern `p`, or `None` where it
/// accepts it.
pub uninterp spec fn compile_error_of(p: Seq<char>) -> Option<Seq<char>>;

/// For every successive non-overlapping match of pattern `p` in `t`, left to
/// right, the text of each of its capture groups in order, group 0 (the whole
/// match) first; `None` for a group that took no part in that match.
pub uninterp spec fn captures_of(p: Seq<char>, t: Seq<char>) -> Seq<Seq<Option<Seq<char>>>>;

/// The name of each capture group of pattern `p`, group 0 first; `None` for a
/// group without a name.
pub uninterp spec fn group_names_of(p: Seq<char>) -> Seq<Option<Seq<char>>>;

/// The text of an optional piece of text.
pub open spec fn opt_text(o: Option<Vec<char>>) -> Option<Seq<char>> {
    match o {
        Some(v) => Some(v@),
        None => None,
    }
}

/// The texts of a sequence of optional pieces of text.
pub open spec fn opt_texts(v: Seq<Option<Vec<char>>>) -> Seq<Option<Seq<char>>> {
    v.map_values(|o: Option<Vec<char>>| opt_text(o))
}

/// The texts of the groups of every match.
pub open spec fn match_texts(v: Seq<Vec<Option<Vec<char>>>>) -> Seq<Seq<Option<Seq<char>>>> {
    v.map_values(|m: Vec<Option<Vec<char>>>| opt_texts(m@))
}

/// A compiled pattern, with the text it was compiled from.
pub struct Pattern {
    re: regex::Regex,
    text: Ghost<Seq<char>>,
}

impl Pattern {
    /// The text this pattern was compiled from.
    pub closed spec fn source(&self) -> Seq<char> {
        self.text@
    }
}

/// Relies on `regex::Regex::new`, and on the `Display` of its error for the
/// message: whether `p` compiles, and the message where it does not, depend
/// on `p` alone.
#[verifier::external_body]
pub(crate) fn compile(p: &Vec<char>) -> (r: Result<Pattern, Vec<char>>)
    ensures
        match r {
            Ok(c) => compile_error_of(p@) is None && c.source() == p@,
            Err(e) => compile_error_of(p@) == Some(e@),
        },
{
    let source: String = p.iter().collect();
    match regex::Regex::new(&source) {
        Ok(re) => Ok(Pattern { re, text: Ghost(p@) }),
        Err(e) => Err(e.to_string().chars().collect()),
    }
}

/// Relies on `regex::Regex::captures_iter` and `regex::Captures::iter`: the
/// groups of every non-overlapping match of the pattern in `text`.
#[verifier::external_body]
pub(crate) fn captures_in(pat: &Pattern, text: &Vec<char>) -> (r: Vec<Vec<Option<Vec<char>>>>)
    ensures
        match_texts(r@) == captures_of(pat.source(), text@),
{
    let haystack: String = text.iter().collect();
    pat.re.captures_iter(&haystack).map(
        |c| c.iter().map(|m| m.map(|m| m.as_str().chars().collect())).collect(),
    ).collect()
}

/// Relies on `regex::Regex::capture_names`: the name of each group of the
/// pattern, in order.
#[verifier::external_body]
pub(crate) fn group_names(pat: &Pattern) -> (r: Vec<Option<Vec<char>>>)
    ensures
        opt_texts(r@) == group_names_of(pat.source()),
{
    pat.re.capture_names().map(|n| n.map(|s| s.chars().collect())).collect()
}

/// Relies on `regex::Regex::as_str`: the text the pattern was compiled from.
#[verifier::external_body]
pub(crate) fn source_text(pat: &Pattern) -> (r: Vec<char>)
    ensures
        r@ == pat.source(),
{
    pat.re.as_str().chars().collect()
}

} // verus!
