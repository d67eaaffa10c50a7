//! The connector's compute half: assembling the connection request URL from
//! the configured endpoint, and checking that the assembled text is a URL the
//! `url` crate accepts. Opening the streaming connection itself is network
//! work and stays with the caller.

use vstd::prelude::*;
use vstd::string::StringExecFns;

verus! {

/// The immutable connection endpoint: remote address, credential and topic
/// filter. Built once at startup from process configuration and never
/// mutated afterwards.
pub struct Endpoint {
    pub base_url: String,
    pub secret: String,
    pub topic_filter: String,
}

/// The connection request URL for an endpoint:
/// `<base>?secret=<credential>&value=<filter>&filter=contains`.
pub open spec fn spec_connect_url(e: Endpoint) -> Seq<char> {
    e.base_url@ + "?secret="@ + e.secret@ + "&value="@ + e.topic_filter@
        + "&filter=contains"@
}

/// Whether `url::Url::parse` accepts a piece of text as an absolute URL.
pub uninterp spec fn url_accepted(s: Seq<char>) -> bool;

/// Relies on `url::Url::parse`: it returns `Ok` exactly when the text is an
/// absolute URL under the crate's grammar, and whether it does depends on the
/// text alone.
#[verifier::external_body]
fn url_parse_ok(s: &str) -> (b: bool)
    ensures
        b == url_accepted(s@),
{
    url::Url::parse(s).is_ok()
}

/// Assembles the connection request URL for an endpoint.
pub fn connect_url(e: &Endpoint) -> (u: String)
    ensures
        u@ == spec_connect_url(*e),
{
    let mut u = String::from_str(e.base_url.as_str());
    u.append("?secret=");
    u.append(e.secret.as_str());
    u.append("&value=");
    u.append(e.topic_filter.as_str());
    u.append("&filter=contains");
    u
}

/// Assembles the connection request URL and keeps it only if the `url` crate
/// accepts it, so that a connection attempt is made with well-formed text or
/// not at all.
pub fn checked_connect_url(e: &Endpoint) -> (r: Option<String>)
    ensures
        r is Some <==> url_accepted(spec_connect_url(*e)),
        r is Some ==> r->0@ == spec_connect_url(*e),
{
    let u = connect_url(e);
    if url_parse_ok(u.as_str()) {
        Some(u)
    } else {
        None
    }
}

} // verus!
