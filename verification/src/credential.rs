use vstd::prelude::*;

use crate::errors::WorkflowError;

verus! {

/// Whether `c` carries the Unicode `White_Space` property — the characters
/// that trimming removes.
pub open spec fn spec_is_space(c: char) -> bool {
    let u = c as u32;
    u == 0x09 || u == 0x0a || u == 0x0b || u == 0x0c || u == 0x0d || u == 0x20 || u == 0x85 || u
        == 0xa0 || u == 0x1680 || (0x2000 <= u && u <= 0x200a) || u == 0x2028 || u == 0x2029 || u
        == 0x202f || u == 0x205f || u == 0x3000
}

/// A credential text is blank when every character is whitespace; the empty
/// text is blank.
pub open spec fn is_blank(s: Seq<char>) -> bool {
    forall|i: int| 0 <= i < s.len() ==> spec_is_space(s[i])
}

/// What a read of the credential store yields, given what the storage holds:
/// the stored text exactly, unless the storage is absent or blank.
pub open spec fn credential_read_rep(stored: Option<Seq<char>>) -> Option<Seq<char>> {
    match stored {
        Some(s) => if is_blank(s) {
            None
        } else {
            Some(s)
        },
        None => None,
    }
}

fn char_is_space(c: char) -> (r: bool)
    ensures
        r == spec_is_space(c),
{
    let u = c as u32;
    u == 0x09 || u == 0x0a || u == 0x0b || u == 0x0c || u == 0x0d || u == 0x20 || u == 0x85 || u
        == 0xa0 || u == 0x1680 || (0x2000 <= u && u <= 0x200a) || u == 0x2028 || u == 0x2029 || u
        == 0x202f || u == 0x205f || u == 0x3000
}

/// Whether `s` is empty or consists of whitespace alone.
pub fn str_is_blank(s: &str) -> (r: bool)
    ensures
        r == is_blank(s@),
{
    let n = s.unicode_len();
    let mut i: usize = 0;
    while i < n
        invariant
            i <= n,
            n == s@.len(),
            forall|j: int| 0 <= j < i ==> spec_is_space(s@[j]),
        decreases n - i,
    {
        if !char_is_space(s.get_char(i)) {
            return false;
        }
        i += 1;
    }
    true
}

/// Validates what was read from the credential storage: absent or blank
/// content is rejected as `CredentialMissingOrEmpty`; anything else is
/// returned exactly as stored.
pub fn validate_credential(stored: Option<String>) -> (r: Result<String, WorkflowError>)
    ensures
        r is Ok <==> credential_read_rep(view_of_stored(stored)) is Some,
        r matches Ok(tok) ==> view_of_stored(stored) matches Some(s) && tok@ == s && !is_blank(
            tok@,
        ),
        r matches Err(e) ==> e == WorkflowError::CredentialMissingOrEmpty,
{
    match stored {
        Some(s) => {
            if str_is_blank(s.as_str()) {
                Err(WorkflowError::CredentialMissingOrEmpty)
            } else {
                Ok(s)
            }
        },
        None => Err(WorkflowError::CredentialMissingOrEmpty),
    }
}

/// The view of an optionally stored credential.
pub open spec fn view_of_stored(stored: Option<String>) -> Option<Seq<char>> {
    match stored {
        Some(s) => Some(s@),
        None => None,
    }
}

/// Picks the credential for a run: an explicitly supplied token always wins
/// and is marked to be persisted; otherwise the stored one is validated; with
/// neither, the run cannot proceed. The returned flag says whether the token
/// came from the caller and must be written back to storage.
pub fn resolve_credential(supplied: Option<String>, stored: Option<String>) -> (r: Result<
    (String, bool),
    WorkflowError,
>)
    ensures
        supplied matches Some(f) ==> r matches Ok(p) && p.0@ == f@ && p.1 == true,
        supplied is None ==> (r is Ok <==> credential_read_rep(view_of_stored(stored)) is Some),
        supplied is None ==> (r matches Ok(p) ==> Some(p.0@) == credential_read_rep(
            view_of_stored(stored),
        ) && p.1 == false),
        r matches Err(e) ==> e == WorkflowError::CredentialMissingOrEmpty,
{
    match supplied {
        Some(f) => Ok((f, true)),
        None => match validate_credential(stored) {
            Ok(tok) => Ok((tok, false)),
            Err(e) => Err(e),
        },
    }
}

/// Law: storing a non-blank credential and reading it back yields exactly the
/// stored text, and storing a blank one makes the following read fail.
pub proof fn lemma_credential_round_trip(token: Seq<char>)
    ensures
        !is_blank(token) ==> credential_read_rep(Some(token)) == Some(token),
        is_blank(token) ==> credential_read_rep(Some(token)) is None,
{
}

} // verus!
