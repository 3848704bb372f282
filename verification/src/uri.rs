//! Federation URIs and the domain-match check.
//!
//! An actor or object is identified by an absolute URI. The only thing the
//! engine ever reads out of a URI is its host (its authority), to defend
//! against spoofed provenance: an activity's `id` must live under the same
//! authority as its `actor`.

use vstd::prelude::*;

use crate::error::FedError;

verus! {

/// The host of the absolute URI written in `s`, or `None` when `s` is not
/// an absolute URI or has no host. What exactly the URL grammar accepts
/// takes pages to state; this name stands for it, and it is a function of
/// the text alone.
pub uninterp spec fn host_of(s: Seq<char>) -> Option<Seq<char>>;

/// Relies on `url::Url::parse`, which reads nothing but the text, and
/// `url::Url::host_str`, which reports the parsed URL's host where it has
/// one.
#[verifier::external_body]
fn uri_host(s: &str) -> (r: Option<String>)
    ensures
        r is Some <==> host_of(s@) is Some,
        r is Some ==> r.unwrap()@ == host_of(s@).unwrap(),
{
    match url::Url::parse(s) {
        Ok(u) => u.host_str().map(|h| h.to_owned()),
        Err(_) => None,
    }
}

/// Both URIs parse, both have a host, and the hosts are equal.
pub open spec fn domains_match(a: Seq<char>, b: Seq<char>) -> bool {
    host_of(a) is Some && host_of(b) is Some && host_of(a) == host_of(b)
}

/// A URI the engine will accept as an identity at all: absolute, with a host.
pub open spec fn uri_has_host(s: Seq<char>) -> bool {
    host_of(s) is Some
}

/// The error a failed domain-match check reports: a missing host is a
/// malformed envelope, two present but disagreeing hosts are a mismatch.
pub open spec fn domain_error(a: Seq<char>, b: Seq<char>) -> FedError {
    if !uri_has_host(a) || !uri_has_host(b) {
        FedError::MalformedEnvelope
    } else {
        FedError::DomainMismatch
    }
}

/// The domain-match check. Accepts exactly when both URIs carry a host and
/// the hosts agree; reports a missing host as a malformed envelope and
/// disagreeing hosts as a domain mismatch.
pub fn verify_domains_match(a: &String, b: &String) -> (r: Result<(), FedError>)
    ensures
        r is Ok <==> domains_match(a@, b@),
        !domains_match(a@, b@) ==> r == Err::<(), FedError>(domain_error(a@, b@)),
{
    let ha = uri_host(a.as_str());
    let hb = uri_host(b.as_str());
    match (ha, hb) {
        (Some(x), Some(y)) => {
            if x == y {
                Ok(())
            } else {
                Err(FedError::DomainMismatch)
            }
        },
        _ => Err(FedError::MalformedEnvelope),
    }
}

/// A URI is usable as a federation identity exactly when it has a host.
pub fn check_uri_valid(s: &String) -> (r: Result<(), FedError>)
    ensures
        r is Ok <==> uri_has_host(s@),
        r is Err ==> r == Err::<(), FedError>(FedError::MalformedEnvelope),
{
    match uri_host(s.as_str()) {
        Some(_) => Ok(()),
        None => Err(FedError::MalformedEnvelope),
    }
}

} // verus!
