//! Forwarding to the target service: the upstream address of a request.
pub mod handler;
pub mod proxy;

use vstd::prelude::*;

verus! {

/// The upstream address of a request: the target service's base followed by the
/// request's URI as written.
pub fn forward_uri(target: &str, request_uri: &str) -> (uri: String)
    ensures
        uri@ == target@ + request_uri@,
{
    String::from_str(target).concat(request_uri)
}

} // verus!
