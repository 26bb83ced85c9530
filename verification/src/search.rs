use vstd::prelude::*;

verus! {

/// Whether `pat` occurs in `s` starting at position `i`.
pub open spec fn match_at(s: Seq<char>, pat: Seq<char>, i: int) -> bool {
    0 <= i && i + pat.len() <= s.len() && s.subrange(i, i + pat.len()) == pat
}

/// The first position at or after `from` where `pat` occurs in `s`, if any.
pub open spec fn spec_find(s: Seq<char>, pat: Seq<char>, from: int) -> Option<int>
    recommends
        0 <= from,
    decreases s.len() - from,
{
    if from < 0 || from + pat.len() > s.len() {
        None
    } else if pat.len() == 0 {
        Some(from)
    } else if s.subrange(from, from + pat.len()) == pat {
        Some(from)
    } else {
        spec_find(s, pat, from + 1)
    }
}

/// A found position is a match, the first one at or after `from`.
pub proof fn lemma_spec_find_is_first(s: Seq<char>, pat: Seq<char>, from: int)
    requires
        0 <= from,
    ensures
        spec_find(s, pat, from) matches Some(i) ==> from <= i && match_at(s, pat, i) && (forall|
            j: int,
        |
            from <= j < i ==> !match_at(s, pat, j)),
        spec_find(s, pat, from) is None ==> forall|j: int| from <= j ==> !match_at(s, pat, j),
    decreases s.len() - from,
{
    if from + pat.len() > s.len() {
        assert forall|j: int| from <= j implies !match_at(s, pat, j) by {}
    } else if pat.len() == 0 {
        assert(s.subrange(from, from + pat.len()) =~= pat);
    } else if s.subrange(from, from + pat.len()) == pat {
    } else {
        lemma_spec_find_is_first(s, pat, from + 1);
    }
}

fn contains_at(s: &str, pat: &str, i: usize) -> (r: bool)
    requires
        i + pat@.len() <= s@.len(),
        s@.len() <= usize::MAX,
    ensures
        r == match_at(s@, pat@, i as int),
{
    let plen = pat.unicode_len();
    let mut k: usize = 0;
    while k < plen
        invariant
            k <= plen,
            plen == pat@.len(),
            i + plen <= s@.len() <= usize::MAX,
            forall|t: int| 0 <= t < k ==> s@[i + t] == pat@[t],
        decreases plen - k,
    {
        if s.get_char(i + k) != pat.get_char(k) {
            proof {
                assert(s@.subrange(i as int, i + plen as int)[k as int] == s@[i + k]);
            }
            return false;
        }
        k += 1;
    }
    proof {
        assert(s@.subrange(i as int, i + plen as int) =~= pat@);
    }
    true
}

/// Finds the first occurrence of `pat` in `s` at or after position `from`
/// (positions count characters).
pub fn find_from(s: &str, pat: &str, from: usize) -> (r: Option<usize>)
    requires
        from <= s@.len(),
    ensures
        match r {
            Some(i) => Some(i as int) == spec_find(s@, pat@, from as int),
            None => spec_find(s@, pat@, from as int) is None,
        },
        r matches Some(i) ==> from <= i && i + pat@.len() <= s@.len() && match_at(
            s@,
            pat@,
            i as int,
        ),
{
    let slen = s.unicode_len();
    let plen = pat.unicode_len();
    if plen == 0 {
        proof {
            assert(s@.subrange(from as int, from as int) =~= pat@);
        }
        return Some(from);
    }
    if plen > slen || from > slen - plen {
        return None;
    }
    let mut j: usize = from;
    while j <= slen - plen
        invariant
            from <= j,
            1 <= plen <= slen,
            j <= slen - plen + 1,
            slen == s@.len(),
            plen == pat@.len(),
            spec_find(s@, pat@, from as int) == spec_find(s@, pat@, j as int),
        decreases slen - j,
    {
        if contains_at(s, pat, j) {
            return Some(j);
        }
        j += 1;
    }
    None
}

} // verus!
