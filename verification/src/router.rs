//! The message router: classifies one inbound text payload by its embedded
//! `path` attribute and decides the single outbound call to make, or the
//! reason the payload is dropped. Reading the payload's JSON structure is
//! serde_json's work, behind a trusted wrapper; everything decided from what
//! it hands back is verified here.

use vstd::prelude::*;
use vstd::string::StrSliceExecFns;
use vstd::string::StringExecFns;

verus! {

/// Whether the needle `n` occurs in `h` starting at position `i`.
pub open spec fn spec_contains_at(h: Seq<char>, n: Seq<char>, i: int) -> bool {
    0 <= i && i + n.len() <= h.len() && h.subrange(i, i + n.len() as int) == n
}

/// Whether the needle `n` occurs anywhere in `h`.
pub open spec fn spec_contains(h: Seq<char>, n: Seq<char>) -> bool {
    exists|i: int| spec_contains_at(h, n, i)
}

/// Whether `n` occurs in `h` starting exactly at position `i`.
fn match_at(h: &str, n: &str, i: usize) -> (r: bool)
    requires
        i + n@.len() <= h@.len(),
    ensures
        r == (h@.subrange(i as int, i as int + n@.len() as int) == n@),
{
    let hl = h.unicode_len();
    let nl = n.unicode_len();
    let mut j: usize = 0;
    while j < nl
        invariant
            hl == h@.len(),
            nl == n@.len(),
            i + nl <= h@.len(),
            0 <= j <= nl,
            forall|k: int| 0 <= k < j ==> h@[i as int + k] == n@[k],
        decreases nl - j,
    {
        if h.get_char(i + j) != n.get_char(j) {
            proof {
                let sub = h@.subrange(i as int, i as int + n@.len() as int);
                assert(sub[j as int] == h@[i as int + j as int]);
                assert(sub[j as int] != n@[j as int]);
            }
            return false;
        }
        j += 1;
    }
    proof {
        assert(h@.subrange(i as int, i as int + n@.len() as int) =~= n@);
    }
    true
}

/// Whether the text `h` contains the text `n` as a contiguous substring.
pub fn contains_substr(h: &str, n: &str) -> (r: bool)
    ensures
        r == spec_contains(h@, n@),
{
    let hl = h.unicode_len();
    let nl = n.unicode_len();
    if nl == 0 {
        proof {
            assert(h@.subrange(0, 0) =~= n@);
            assert(spec_contains_at(h@, n@, 0));
        }
        return true;
    }
    if nl > hl {
        proof {
            assert(forall|k: int| !spec_contains_at(h@, n@, k));
        }
        return false;
    }
    let mut i: usize = 0;
    while i <= hl - nl
        invariant
            hl == h@.len(),
            nl == n@.len(),
            0 < nl <= hl,
            0 <= i <= hl - nl + 1,
            forall|k: int| 0 <= k < i ==> !spec_contains_at(h@, n@, k),
        decreases hl - nl + 1 - i,
    {
        if match_at(h, n, i) {
            proof {
                assert(spec_contains_at(h@, n@, i as int));
            }
            return true;
        }
        i += 1;
    }
    proof {
        assert forall|k: int| !spec_contains_at(h@, n@, k) by {
            if 0 <= k && k + n@.len() <= h@.len() {
                assert(k < i);
            }
        }
    }
    false
}

/// The marker that sends a payload to the existence endpoint: any `path`
/// containing it is routed there, every other `path` to the timer endpoint.
pub open spec fn route_marker() -> Seq<char> {
    "pusher_poker_existence"@
}

/// One of the two fixed local routes a payload can be classified into.
#[derive(Debug, PartialEq, Eq, Structural, Clone, Copy)]
pub enum Target {
    PusherPokerExistence,
    PokerTimer,
}

/// The route for a given `path` attribute.
pub open spec fn spec_target(path: Seq<char>) -> Target {
    if spec_contains(path, route_marker()) {
        Target::PusherPokerExistence
    } else {
        Target::PokerTimer
    }
}

/// Classifies a `path` attribute into its target route.
pub fn classify_path(path: &str) -> (t: Target)
    ensures
        t == spec_target(path@),
{
    if contains_substr(path, "pusher_poker_existence") {
        Target::PusherPokerExistence
    } else {
        Target::PokerTimer
    }
}

/// The route suffix appended to the local base address.
pub open spec fn spec_target_suffix(t: Target) -> Seq<char> {
    match t {
        Target::PusherPokerExistence => "pusher_poker_existence"@,
        Target::PokerTimer => "poker_timer"@,
    }
}

/// The route suffix for a target, as text.
pub fn target_suffix(t: Target) -> (s: &'static str)
    ensures
        s@ == spec_target_suffix(t),
{
    match t {
        Target::PusherPokerExistence => "pusher_poker_existence",
        Target::PokerTimer => "poker_timer",
    }
}

/// The full local address a classified payload is posted to.
pub open spec fn spec_outbound_url(t: Target) -> Seq<char> {
    "http://localhost:3000/api/"@ + spec_target_suffix(t)
}

/// Builds the full local address for a target route.
pub fn outbound_url(t: Target) -> (u: String)
    ensures
        u@ == spec_outbound_url(t),
{
    let mut u = String::from_str("http://localhost:3000/api/");
    u.append(target_suffix(t));
    u
}

/// Why a payload was dropped instead of routed.
#[derive(Debug, PartialEq, Eq, Structural, Clone, Copy)]
pub enum RouteError {
    /// The payload is not valid JSON.
    MalformedPayload,
    /// The payload has no top-level `body` field.
    MissingBody,
    /// The payload has no top-level `path` field holding a string.
    MissingPath,
}

impl RouteError {
    /// A short diagnostic text for the drop reason.
    pub fn describe(&self) -> (m: &'static str)
        ensures
            *self is MalformedPayload ==> m@ == "payload is not valid JSON"@,
            *self is MissingBody ==> m@ == "no body found"@,
            *self is MissingPath ==> m@ == "no string path found"@,
    {
        match self {
            RouteError::MalformedPayload => "payload is not valid JSON",
            RouteError::MissingBody => "no body found",
            RouteError::MissingPath => "no string path found",
        }
    }
}

/// The router's verdict on one text payload: either the single outbound call
/// to make, or the reason the payload is dropped.
#[derive(Debug, PartialEq, Eq)]
pub enum Decision {
    /// Post `body` to the local route for `target`.
    Post { target: Target, body: String },
    /// Drop the payload; the consumer loop goes on with the next one.
    Reject { reason: RouteError },
}

/// A router verdict at the specification level, over mathematical text.
pub enum Routed {
    ToPost(Target, Seq<char>),
    Dropped(RouteError),
}

/// Whether an executable verdict carries exactly the abstract verdict `m`.
pub open spec fn decision_abstracts(d: Decision, m: Routed) -> bool {
    match d {
        Decision::Post { target, body } => m == Routed::ToPost(target, body@),
        Decision::Reject { reason } => m == Routed::Dropped(reason),
    }
}

/// Whether serde_json parses a piece of text as a JSON document.
pub uninterp spec fn json_parses(s: Seq<char>) -> bool;

/// The canonical serialization of the top-level `body` field of a payload,
/// when the payload parses and such a field exists; `None` otherwise.
pub uninterp spec fn json_body_of(s: Seq<char>) -> Option<Seq<char>>;

/// The top-level `path` field of a payload, when the payload parses and that
/// field holds a string; `None` otherwise.
pub uninterp spec fn json_path_of(s: Seq<char>) -> Option<Seq<char>>;

/// Relies on `serde_json::from_str`, `serde_json::Value::get`,
/// `serde_json::Value::as_str` and `serde_json::to_string`: whether a payload
/// parses, the canonical text of its `body` field and its string `path`
/// field are each a function of the payload text alone.
#[verifier::external_body]
fn extract_fields(data: &str) -> (r: (bool, Option<String>, Option<String>))
    ensures
        r.0 == json_parses(data@),
        r.1.deep_view() == json_body_of(data@),
        r.2.deep_view() == json_path_of(data@),
{
    let v = match serde_json::from_str::<serde_json::Value>(data) {
        Ok(v) => v,
        Err(_) => return (false, None, None),
    };
    let body = match v.get("body") {
        Some(b) => serde_json::to_string(b).ok(),
        None => None,
    };
    let path = v.get("path").and_then(|p| p.as_str()).map(|s| s.to_string());
    (true, body, path)
}

/// The router's abstract verdict, given whether the payload parses and what
/// its `body` and `path` fields hold. The payload must parse and carry both
/// a `body` and a string `path`; the checks are made in that order, and the
/// first failure names the drop reason.
pub open spec fn spec_route(
    parses: bool,
    body: Option<Seq<char>>,
    path: Option<Seq<char>>,
) -> Routed {
    if !parses {
        Routed::Dropped(RouteError::MalformedPayload)
    } else if body is None {
        Routed::Dropped(RouteError::MissingBody)
    } else if path is None {
        Routed::Dropped(RouteError::MissingPath)
    } else {
        Routed::ToPost(spec_target(path->0), body->0)
    }
}

/// Routes one text payload: decides the single outbound call it warrants, or
/// the reason it is dropped.
pub fn route_message(data: &str) -> (d: Decision)
    ensures
        decision_abstracts(
            d,
            spec_route(json_parses(data@), json_body_of(data@), json_path_of(data@)),
        ),
{
    let (parses, body, path) = extract_fields(data);
    if !parses {
        return Decision::Reject { reason: RouteError::MalformedPayload };
    }
    let body = match body {
        Some(b) => b,
        None => return Decision::Reject { reason: RouteError::MissingBody },
    };
    let path = match path {
        Some(p) => p,
        None => return Decision::Reject { reason: RouteError::MissingPath },
    };
    Decision::Post { target: classify_path(path.as_str()), body }
}

/// Every payload that parses and carries a `body` and a string `path`
/// containing the route marker is answered with exactly one post, to the
/// existence route, carrying the canonical `body` text.
pub proof fn lemma_marker_path_posts_existence(
    parses: bool,
    body: Option<Seq<char>>,
    path: Option<Seq<char>>,
)
    requires
        parses,
        body is Some,
        path is Some,
        spec_contains(path->0, route_marker()),
    ensures
        spec_route(parses, body, path) == Routed::ToPost(Target::PusherPokerExistence, body->0),
{
}

/// Every payload that parses and carries a `body` and a string `path` not
/// containing the route marker is answered with exactly one post, to the
/// timer route, carrying the canonical `body` text.
pub proof fn lemma_other_path_posts_timer(
    parses: bool,
    body: Option<Seq<char>>,
    path: Option<Seq<char>>,
)
    requires
        parses,
        body is Some,
        path is Some,
        !spec_contains(path->0, route_marker()),
    ensures
        spec_route(parses, body, path) == Routed::ToPost(Target::PokerTimer, body->0),
{
}

/// A payload without a `body` field never produces an outbound call, whatever
/// its `path` holds.
pub proof fn lemma_missing_body_never_posts(parses: bool, path: Option<Seq<char>>)
    ensures
        !(spec_route(parses, Option::<Seq<char>>::None, path) is ToPost),
{
}

/// A payload whose `path` field is absent or not a string never produces an
/// outbound call.
pub proof fn lemma_missing_path_never_posts(parses: bool, body: Option<Seq<char>>)
    ensures
        !(spec_route(parses, body, Option::<Seq<char>>::None) is ToPost),
{
}

} // verus!
