use vstd::prelude::*;
use vstd::string::*;

use crate::model::Endpoint;
use crate::registry::same_text;

verus! {

/// The upper-case form of a text, as `str::to_uppercase` computes it.
pub uninterp spec fn upper_of(s: Seq<char>) -> Seq<char>;

/// Relies on `str::to_uppercase`: the result depends on the characters alone.
#[verifier::external_body]
fn to_upper(s: &str) -> (r: String)
    ensures
        r@ == upper_of(s@),
{
    s.to_uppercase()
}

/// The methods an endpoint can answer to, in canonical upper case.
pub open spec fn is_supported_method(m: Seq<char>) -> bool {
    m == "GET"@ || m == "POST"@ || m == "PUT"@ || m == "DELETE"@ || m == "PATCH"@
}

/// A request method (as the HTTP layer names it) matches an endpoint method
/// when the upper-case form of the latter is a supported method equal to it.
pub open spec fn method_matches_spec(req: Seq<char>, endpoint_method: Seq<char>) -> bool {
    is_supported_method(upper_of(endpoint_method)) && req == upper_of(endpoint_method)
}

/// An entry answers a request when the paths are equal character for
/// character and the methods match.
pub open spec fn entry_matches(req: Seq<char>, path: Seq<char>, e: Endpoint) -> bool {
    e.path@ == path && method_matches_spec(req, e.method@)
}

/// Entry `i` answers the request and no earlier entry does.
pub open spec fn is_first_match(req: Seq<char>, path: Seq<char>, s: Seq<Endpoint>, i: int) -> bool {
    &&& 0 <= i < s.len()
    &&& entry_matches(req, path, s[i])
    &&& forall|k: int| 0 <= k < i ==> !entry_matches(req, path, #[trigger] s[k])
}

/// Some entry answers the request.
pub open spec fn has_match(req: Seq<char>, path: Seq<char>, s: Seq<Endpoint>) -> bool {
    exists|i: int| 0 <= i < s.len() && entry_matches(req, path, #[trigger] s[i])
}

/// The index of the entry that answers the request: the first one that
/// matches, or none.
pub open spec fn first_match(req: Seq<char>, path: Seq<char>, s: Seq<Endpoint>) -> Option<int> {
    if has_match(req, path, s) {
        Some(choose|i: int| is_first_match(req, path, s, i))
    } else {
        None
    }
}

/// The body sent when no entry answers a request.
pub open spec fn not_found_body() -> Seq<char> {
    "{\"error\": \"Endpoint not found\"}"@
}

/// What the listener sends back for one request.
#[derive(Debug)]
pub struct RouteResponse {
    pub status: u16,
    /// Whether the response is labelled `Content-Type: application/json`.
    pub json_content: bool,
    pub body: String,
    /// Milliseconds to wait before the response is sent.
    pub delay_ms: u64,
}

/// At most one index is the first match.
pub proof fn lemma_first_match_unique(req: Seq<char>, path: Seq<char>, s: Seq<Endpoint>, i: int, j: int)
    requires
        is_first_match(req, path, s, i),
        is_first_match(req, path, s, j),
    ensures
        i == j,
{
    if i < j {
        assert(!entry_matches(req, path, s[i]));
    } else if j < i {
        assert(!entry_matches(req, path, s[j]));
    }
}

/// An index that is the first match is the one `first_match` names.
pub proof fn lemma_first_match_is(req: Seq<char>, path: Seq<char>, s: Seq<Endpoint>, i: int)
    requires
        is_first_match(req, path, s, i),
    ensures
        first_match(req, path, s) == Some(i),
{
    assert(has_match(req, path, s));
    let k = choose|k: int| is_first_match(req, path, s, k);
    lemma_first_match_unique(req, path, s, i, k);
}

/// Whether a request method equals an already upper-cased endpoint method
/// that is one of the supported methods.
pub fn method_matches_upper(req_method: &str, upper: &str) -> (r: bool)
    ensures
        r == (is_supported_method(upper@) && req_method@ == upper@),
{
    let supported = same_text(upper, "GET") || same_text(upper, "POST") || same_text(upper, "PUT")
        || same_text(upper, "DELETE") || same_text(upper, "PATCH");
    supported && same_text(req_method, upper)
}

/// Whether a request method matches an endpoint's configured method,
/// compared without regard to case.
pub fn method_matches(req_method: &str, endpoint_method: &str) -> (r: bool)
    ensures
        r == method_matches_spec(req_method@, endpoint_method@),
{
    let upper = to_upper(endpoint_method);
    method_matches_upper(req_method, upper.as_str())
}

/// The index of the first entry that answers a request, if any.
pub fn find_endpoint(req_method: &str, path: &str, endpoints: &Vec<Endpoint>) -> (r: Option<usize>)
    ensures
        match r {
            Some(i) => is_first_match(req_method@, path@, endpoints@, i as int)
                && first_match(req_method@, path@, endpoints@) == Some(i as int),
            None => first_match(req_method@, path@, endpoints@) is None,
        },
{
    let mut i: usize = 0;
    while i < endpoints.len()
        invariant
            i <= endpoints@.len(),
            forall|k: int| 0 <= k < i ==> !entry_matches(req_method@, path@, #[trigger] endpoints@[k]),
        decreases endpoints@.len() - i,
    {
        let e = &endpoints[i];
        if same_text(e.path.as_str(), path) && method_matches(req_method, e.method.as_str()) {
            proof {
                lemma_first_match_is(req_method@, path@, endpoints@, i as int);
            }
            return Some(i);
        }
        i += 1;
    }
    proof {
        if has_match(req_method@, path@, endpoints@) {
            let k = choose|k: int| 0 <= k < endpoints@.len() && entry_matches(req_method@, path@, #[trigger] endpoints@[k]);
            assert(!entry_matches(req_method@, path@, endpoints@[k]));
        }
    }
    None
}

/// Answers a request from the endpoint list: the first entry whose path
/// equals `path` and whose method matches gives the status, body and delay,
/// labelled as JSON; with no such entry the answer is 404 with a fixed
/// JSON error body.
pub fn route(req_method: &str, path: &str, endpoints: &Vec<Endpoint>) -> (r: RouteResponse)
    ensures
        match first_match(req_method@, path@, endpoints@) {
            Some(i) => {
                &&& r.status == endpoints@[i].status
                &&& r.json_content
                &&& r.body@ == endpoints@[i].response@
                &&& r.delay_ms == endpoints@[i].delay
            },
            None => {
                &&& r.status == 404
                &&& !r.json_content
                &&& r.body@ == not_found_body()
                &&& r.delay_ms == 0
            },
        },
{
    match find_endpoint(req_method, path, endpoints) {
        Some(i) => {
            let e = &endpoints[i];
            RouteResponse {
                status: e.status,
                json_content: true,
                body: e.response.clone(),
                delay_ms: e.delay,
            }
        },
        None => RouteResponse {
            status: 404,
            json_content: false,
            body: String::from_str("{\"error\": \"Endpoint not found\"}"),
            delay_ms: 0,
        },
    }
}

/// Of two entries with the same method and path, the later one never
/// answers a request: the entry chosen is the earlier one or one before it.
pub proof fn lemma_first_inserted_wins(req: Seq<char>, path: Seq<char>, s: Seq<Endpoint>, i: int, j: int)
    requires
        0 <= i < j < s.len(),
        s[i].method@ == s[j].method@,
        s[i].path@ == s[j].path@,
        entry_matches(req, path, s[j]),
    ensures
        first_match(req, path, s) matches Some(k) && k <= i,
{
    assert(entry_matches(req, path, s[i]));
    assert(has_match(req, path, s));
    let k = choose|k: int| is_first_match(req, path, s, k);
    if !is_first_match(req, path, s, k) {
        lemma_first_match_exists(req, path, s, i);
    }
}

/// Where some entry at index `i` matches, a first match exists at or
/// before it.
pub proof fn lemma_first_match_exists(req: Seq<char>, path: Seq<char>, s: Seq<Endpoint>, i: int)
    requires
        0 <= i < s.len(),
        entry_matches(req, path, s[i]),
    ensures
        exists|k: int| k <= i && is_first_match(req, path, s, k),
    decreases i,
{
    if forall|k: int| 0 <= k < i ==> !entry_matches(req, path, #[trigger] s[k]) {
        assert(is_first_match(req, path, s, i));
    } else {
        let k = choose|k: int| 0 <= k < i && !!entry_matches(req, path, #[trigger] s[k]);
        lemma_first_match_exists(req, path, s, k);
    }
}

} // verus!
