//! Regular-expression matching, as the `regex` crate performs it.
use vstd::prelude::*;

use crate::text::views_of;

verus! {

/// What a search with `regex::Regex::captures` finds: the text of every group of the first
/// match, the whole match first and an empty text for a group that took no part, where the
/// pattern compiles and matches.
pub uninterp spec fn regex_groups(pattern: Seq<char>, text: Seq<char>) -> Option<Seq<Seq<char>>>;

/// What `regex::Regex::replace_all` makes of the text, where the pattern compiles.
pub uninterp spec fn regex_replaced(pattern: Seq<char>, text: Seq<char>, with: Seq<char>) -> Option<
    Seq<char>,
>;

/// Relies on `regex::Regex::new` and `regex::Regex::captures`: compiles the pattern and takes
/// the groups of its first match (a group that did not take part gives an empty string).
#[verifier::external_body]
pub(crate) fn captures(pattern: &str, text: &str) -> (r: Option<Vec<String>>)
    ensures
        r is Some <==> regex_groups(pattern@, text@) is Some,
        r is Some ==> views_of(r->0@) == regex_groups(pattern@, text@)->0,
{
    let re = regex::Regex::new(pattern).ok()?;
    let caps = re.captures(text)?;
    Some(caps.iter().map(|m| m.map_or(String::new(), |m| m.as_str().to_string())).collect())
}

/// Relies on `regex::Regex::new` and `regex::Regex::replace_all`: compiles the pattern and
/// replaces every match in the text.
#[verifier::external_body]
pub(crate) fn replace_all(pattern: &str, text: &str, with: &str) -> (r: Option<String>)
    ensures
        r is Some <==> regex_replaced(pattern@, text@, with@) is Some,
        r is Some ==> r->0@ == regex_replaced(pattern@, text@, with@)->0,
{
    let re = regex::Regex::new(pattern).ok()?;
    Some(re.replace_all(text, with).into_owned())
}

} // verus!
