use vstd::prelude::*;

use crate::search::{find_from, match_at, spec_find};

verus! {

/// The opening tag that bounds the answer fragment.
pub open spec fn open_tag() -> Seq<char> {
    seq!['<', 'm', 'a', 'i', 'n', '>']
}

/// The closing tag that bounds the answer fragment.
pub open spec fn close_tag() -> Seq<char> {
    seq!['<', '/', 'm', 'a', 'i', 'n', '>']
}

/// The bounds of the answer fragment in a response body: it starts at the
/// first opening tag, and runs to the end of the first closing tag that
/// starts at or after the end of that opening tag. Absent either tag, the
/// body holds no fragment.
pub open spec fn fragment_bounds(body: Seq<char>) -> Option<(int, int)> {
    match spec_find(body, open_tag(), 0) {
        Some(i) => match spec_find(body, close_tag(), i + open_tag().len()) {
            Some(j) => Some((i, j + close_tag().len())),
            None => None,
        },
        None => None,
    }
}

/// Whether a response body holds an answer fragment.
pub open spec fn has_fragment(body: Seq<char>) -> bool {
    fragment_bounds(body) is Some
}

/// The answer fragment of a response body, tags included.
pub open spec fn fragment_of(body: Seq<char>) -> Seq<char>
    recommends
        has_fragment(body),
{
    let (i, j) = fragment_bounds(body)->0;
    body.subrange(i, j)
}

/// Extracts the answer fragment bounded by the first `<main>` and the first
/// following `</main>` from a response body, or nothing when either tag is
/// absent.
pub fn extract_fragment<'a>(body: &'a str) -> (r: Option<&'a str>)
    ensures
        r is Some <==> has_fragment(body@),
        r matches Some(f) ==> f@ == fragment_of(body@),
{
    proof {
        reveal_strlit("<main>");
        reveal_strlit("</main>");
        assert("<main>"@ =~= open_tag());
        assert("</main>"@ =~= close_tag());
    }
    let n = body.unicode_len();
    match find_from(body, "<main>", 0) {
        Some(i) => {
            match find_from(body, "</main>", i + 6) {
                Some(j) => Some(body.substring_char(i, j + 7)),
                None => None,
            }
        },
        None => None,
    }
}

} // verus!
