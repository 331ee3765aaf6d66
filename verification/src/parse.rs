//! Reading quantities from text: the regular expressions that split a text
//! into a number and a unit.
use vstd::prelude::*;

verus! {

/// The text was not a number with an optional unit.
#[derive(Copy, Clone, Debug, PartialEq, Eq, Structural)]
pub struct ParseError;

/// The capture groups of the leftmost match of the regular expression
/// `pattern` in `haystack`: one entry for each group of the pattern, the
/// whole match first, `None` for a group that took no part in the match.
/// The result is `None` if there is no match, or if `pattern` is not a
/// regular expression.
pub uninterp spec fn regex_captures(pattern: Seq<char>, haystack: Seq<char>) -> Option<
    Seq<Option<Seq<char>>>,
>;

/// The texts of capture groups as sequences of characters.
pub open spec fn groups_view(groups: Option<Vec<Option<String>>>) -> Option<
    Seq<Option<Seq<char>>>,
> {
    match groups {
        Some(g) => Some(
            Seq::new(
                g@.len(),
                |i: int|
                    match g@[i] {
                        Some(text) => Some(text@),
                        None => None,
                    },
            ),
        ),
        None => None,
    }
}

/// Compiles `pattern` with `regex::Regex::new` and searches `haystack` with
/// `Regex::captures`. The contract claims only that the outcome is a
/// function of the two texts, and calls it [`regex_captures`]; nothing is
/// claimed of which texts match.
#[verifier::external_body]
pub(crate) fn captures(pattern: &str, haystack: &str) -> (r: Option<Vec<Option<String>>>)
    ensures
        groups_view(r) == regex_captures(pattern@, haystack@),
{
    let re = regex::Regex::new(pattern).ok()?;
    let found = re.captures(haystack)?;
    Some(found.iter().map(|group| group.map(|m| m.as_str().to_string())).collect())
}

/// Group `i` of a match, if the match has such a group and it took part.
pub open spec fn group_spec(groups: Seq<Option<Seq<char>>>, i: int) -> Option<Seq<char>> {
    if 0 <= i < groups.len() {
        groups[i]
    } else {
        None
    }
}

/// The texts of the capture groups of a match.
pub open spec fn texts(groups: &Vec<Option<String>>) -> Seq<Option<Seq<char>>> {
    groups_view(Some(*groups))->0
}

/// Group `i` of a match, if the match has such a group and it took part.
pub fn group(groups: &Vec<Option<String>>, i: usize) -> (r: Option<&str>)
    ensures
        match r {
            Some(text) => group_spec(texts(groups), i as int) == Some(text@),
            None => group_spec(texts(groups), i as int) is None,
        },
{
    if i < groups.len() {
        match &groups[i] {
            Some(text) => Some(text.as_str()),
            None => None,
        }
    } else {
        None
    }
}

/// Whether `c` is the letter given in lower and in upper case.
pub open spec fn is_letter(c: char, lower: char, upper: char) -> bool {
    c == lower || c == upper
}

/// Whether `c` is the letter given in lower and in upper case.
pub fn letter(c: char, lower: char, upper: char) -> (r: bool)
    ensures
        r == is_letter(c, lower, upper),
{
    c == lower || c == upper
}

} // verus!
