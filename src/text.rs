use vstd::prelude::*;

verus! {

/// What `str::to_lowercase` makes of a string. It depends on the characters
/// alone.
pub uninterp spec fn lower_of(s: Seq<char>) -> Seq<char>;

/// `needle` occurs in `hay` as a run of consecutive characters.
pub open spec fn has_substring(hay: Seq<char>, needle: Seq<char>) -> bool {
    exists|i: int|
        0 <= i && i + needle.len() <= hay.len() && #[trigger] hay.subrange(i, i + needle.len())
            == needle
}

/// Relies on `str::to_lowercase`: the lowercase equivalent of the string,
/// which depends on its characters alone; an empty string stays empty.
#[verifier::external_body]
pub(crate) fn lowercase(s: &str) -> (r: String)
    ensures
        r@ == lower_of(s@),
        s@.len() == 0 ==> r@.len() == 0,
{
    s.to_lowercase()
}

/// Relies on `str::contains` with a `&str` pattern: true when `needle` is a
/// substring of `hay`.
#[verifier::external_body]
pub(crate) fn contains_str(hay: &str, needle: &str) -> (r: bool)
    ensures
        r == has_substring(hay@, needle@),
{
    hay.contains(needle)
}

/// The completion state that a status word selects: `completed` keeps the
/// finished items, `incomplete` the others; any other word selects nothing.
pub open spec fn status_of(word: Seq<char>) -> Option<bool> {
    if word == "completed"@ {
        Some(true)
    } else if word == "incomplete"@ {
        Some(false)
    } else {
        None
    }
}

/// Reads a status word; see `status_of`.
pub fn parse_status(word: &str) -> (r: Option<bool>)
    ensures
        r == status_of(word@),
{
    let w = word.to_string();
    let completed = "completed".to_string();
    let incomplete = "incomplete".to_string();
    proof {
        reveal_strlit("completed");
        reveal_strlit("incomplete");
    }
    if w == completed {
        Some(true)
    } else if w == incomplete {
        Some(false)
    } else {
        None
    }
}

} // verus!
