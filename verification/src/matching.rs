//! Regular-expression matching, done by the `regex` crate.
use vstd::prelude::*;

verus! {

/// The text of the named groups `groups` when `pattern` matches `haystack`
/// (`None` for a group that took no part in the match); `None` when the
/// pattern does not match, or is not a valid regular expression.
pub uninterp spec fn regex_captures(
    pattern: Seq<char>,
    haystack: Seq<char>,
    groups: Seq<Seq<char>>,
) -> Option<Seq<Option<Seq<char>>>>;

/// Compiles `pattern` with `regex::Regex::new` and runs `Regex::captures` on
/// `haystack`, then reads the named groups with `Captures::name`. The
/// contract names the result `regex_captures` (a function of the pattern,
/// the haystack and the group names alone) and states that one entry is
/// returned per group name; which texts match is left to the regex engine.
#[verifier::external_body]
pub fn captures(pattern: &str, haystack: &str, groups: &Vec<&str>) -> (r: Option<Vec<Option<String>>>)
    ensures
        r.deep_view() == regex_captures(pattern@, haystack@, groups.deep_view()),
        r matches Some(v) ==> v@.len() == groups@.len(),
{
    let re = match regex::Regex::new(pattern) {
        Ok(re) => re,
        Err(_) => return None,
    };
    let caps = re.captures(haystack)?;
    Some(groups.iter().map(|n| caps.name(n).map(|m| m.as_str().to_string())).collect())
}

} // verus!
