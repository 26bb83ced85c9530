use vstd::prelude::*;

use vstd::utf8::{decode_utf8, valid_utf8};

use crate::decode::decode_body;
use crate::errors::WorkflowError;
use crate::extract::{extract_fragment, fragment_of, has_fragment};
use crate::numerals::dec_rep;
use crate::render::{render_html, rendered_of};

verus! {

/// What the transport handed back: whether the status was a success (2xx),
/// and the raw response body.
pub struct HttpResponse {
    pub ok: bool,
    pub body: Vec<u8>,
}

/// The first decision of the fetch workflow: a coordinate with a cache entry
/// is served from the cache; only a coordinate without one goes to the
/// network.
#[derive(Clone, Copy, Debug, PartialEq, Eq, Structural)]
pub enum FetchPlan {
    ServeCache,
    CallNetwork,
}

/// Decides whether a fetch is served from the cache or from the network.
pub fn plan_fetch(cache_exists: bool) -> (p: FetchPlan)
    ensures
        p == (if cache_exists {
            FetchPlan::ServeCache
        } else {
            FetchPlan::CallNetwork
        }),
{
    if cache_exists {
        FetchPlan::ServeCache
    } else {
        FetchPlan::CallNetwork
    }
}

/// The bytes a fetch emits, over a model of the cache entry: a present entry
/// is emitted verbatim; otherwise the response body is emitted whatever the
/// status was.
pub open spec fn fetch_emits(cache: Option<Seq<u8>>, resp_ok: bool, resp_body: Seq<u8>) -> Seq<
    u8,
> {
    match cache {
        Some(c) => c,
        None => resp_body,
    }
}

/// The cache entry after a fetch: a present entry is never touched; a miss
/// stores the response body exactly when the status was a success.
pub open spec fn cache_after_fetch(
    cache: Option<Seq<u8>>,
    resp_ok: bool,
    resp_body: Seq<u8>,
) -> Option<Seq<u8>> {
    match cache {
        Some(c) => Some(c),
        None => if resp_ok {
            Some(resp_body)
        } else {
            None
        },
    }
}

/// Law: when a cache entry exists, a fetch emits that entry verbatim and
/// leaves it unchanged, independent of anything the transport might have
/// answered — so the outcome never depends on a network call.
pub proof fn lemma_cache_hit_is_transport_independent(
    cache: Option<Seq<u8>>,
    ok1: bool,
    body1: Seq<u8>,
    ok2: bool,
    body2: Seq<u8>,
)
    requires
        cache is Some,
    ensures
        fetch_emits(cache, ok1, body1) == cache->0,
        fetch_emits(cache, ok1, body1) == fetch_emits(cache, ok2, body2),
        cache_after_fetch(cache, ok1, body1) == cache,
{
}

/// Law: a successful fetch on a miss emits the response body and persists it,
/// and a second fetch for the same coordinate is then served from the cache
/// with identical content, whatever the transport would answer next.
pub proof fn lemma_successful_fetch_populates_cache(
    body: Seq<u8>,
    ok2: bool,
    body2: Seq<u8>,
)
    ensures
        fetch_emits(None, true, body) == body,
        cache_after_fetch(None, true, body) == Some(body),
        fetch_emits(cache_after_fetch(None, true, body), ok2, body2) == body,
        cache_after_fetch(cache_after_fetch(None, true, body), ok2, body2) == Some(body),
{
}

/// Law: a failed fetch on a miss still emits the response body, but creates
/// no cache entry.
pub proof fn lemma_failed_fetch_is_not_cached(body: Seq<u8>)
    ensures
        fetch_emits(None, false, body) == body,
        cache_after_fetch(None, false, body) is None,
{
}

/// The view of what a fetch asks to be stored.
pub open spec fn store_view(store: Option<Vec<u8>>) -> Option<Seq<u8>> {
    match store {
        Some(b) => Some(b@),
        None => None,
    }
}

/// What a network fetch settles to: the text to emit, and the bytes to
/// persist under the coordinate's cache key, if any.
#[derive(Debug)]
pub struct FetchSettlement {
    pub output: String,
    pub store: Option<Vec<u8>>,
}

fn copy_bytes(v: &Vec<u8>) -> (c: Vec<u8>)
    ensures
        c@ == v@,
{
    let mut c: Vec<u8> = Vec::new();
    let mut i: usize = 0;
    while i < v.len()
        invariant
            i <= v.len(),
            c@ == v@.subrange(0, i as int),
        decreases v.len() - i,
    {
        c.push(v[i]);
        i += 1;
        proof {
            assert(c@ =~= v@.subrange(0, i as int));
        }
    }
    proof {
        assert(c@ =~= v@);
    }
    c
}

/// Settles a network fetch on a cache miss: the decoded body is emitted
/// whatever the status was, and the raw bytes are persisted exactly when the
/// status was a success — a failure page is never cached. A body that is not
/// valid UTF-8 is a decode failure and nothing is emitted or stored.
pub fn settle_fetch(resp: HttpResponse) -> (r: Result<FetchSettlement, WorkflowError>)
    ensures
        r is Ok <==> valid_utf8(resp.body@),
        r matches Ok(st) ==> st.output@ == decode_utf8(fetch_emits(None, resp.ok, resp.body@)),
        r matches Ok(st) ==> store_view(st.store) == cache_after_fetch(None, resp.ok, resp.body@),
        r matches Err(e) ==> e == WorkflowError::DecodeFailure,
{
    let HttpResponse { ok, body } = resp;
    let kept = if ok {
        Some(copy_bytes(&body))
    } else {
        None
    };
    match decode_body(body) {
        Ok(output) => Ok(FetchSettlement { output, store: kept }),
        Err(e) => Err(e),
    }
}

/// The cookie that authenticates every request against the remote service.
pub struct SessionCookie {
    pub name: String,
    pub value: String,
    pub domain: String,
    pub secure: bool,
}

/// The authentication cookie a transport session is configured with: named
/// `session`, holding the credential, scoped to the remote service's domain,
/// and marked secure-transport-only.
pub fn session_cookie(token: String) -> (c: SessionCookie)
    ensures
        c.name@ == "session"@,
        c.value@ == token@,
        c.domain@ == "adventofcode.com"@,
        c.secure == true,
{
    SessionCookie {
        name: String::from_str("session"),
        value: token,
        domain: String::from_str("adventofcode.com"),
        secure: true,
    }
}

/// The two form fields a submission posts: the level and the answer text.
pub fn submission_form(level: u32, answer: String) -> (form: Vec<(String, String)>)
    ensures
        form@.len() == 2,
        form@[0].0@ == "level"@,
        form@[0].1@ == dec_rep(level as nat),
        form@[1].0@ == "answer"@,
        form@[1].1@ == answer@,
{
    let mut form: Vec<(String, String)> = Vec::new();
    form.push((String::from_str("level"), crate::numerals::u32_to_decimal(level)));
    form.push((String::from_str("answer"), answer));
    form
}

/// Renders a decoded submission response: the fragment bounded by the first
/// `<main>` and the first following `</main>` is rendered as plain text; a
/// body without that fragment fails the whole operation, with no partial
/// output.
pub fn render_submission(body: &str) -> (r: Result<String, WorkflowError>)
    ensures
        r is Ok <==> has_fragment(body@),
        r matches Ok(out) ==> out@ == rendered_of(fragment_of(body@)),
        r matches Err(e) ==> e == WorkflowError::ExtractionFailure,
{
    match extract_fragment(body) {
        Some(f) => Ok(render_html(f)),
        None => Err(WorkflowError::ExtractionFailure),
    }
}

/// The whole submission response step: the raw body is decoded (a body that
/// is not valid UTF-8 is a decode failure), the answer fragment is extracted
/// (a body without one is an extraction failure), and the fragment's
/// rendering is the sole output.
pub fn process_submission(body: Vec<u8>) -> (r: Result<String, WorkflowError>)
    ensures
        r is Ok <==> valid_utf8(body@) && has_fragment(decode_utf8(body@)),
        r matches Ok(out) ==> out@ == rendered_of(fragment_of(decode_utf8(body@))),
        !valid_utf8(body@) ==> (r matches Err(e) && e == WorkflowError::DecodeFailure),
        valid_utf8(body@) && !has_fragment(decode_utf8(body@)) ==> (r matches Err(e) && e
            == WorkflowError::ExtractionFailure),
{
    match decode_body(body) {
        Ok(text) => render_submission(text.as_str()),
        Err(e) => Err(e),
    }
}

} // verus!
