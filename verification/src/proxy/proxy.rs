//! Forwarding through the HTTP client of the newer route set: only the path and query
//! of the request are kept, behind the target service's base.
use vstd::prelude::*;

verus! {

/// The upstream address: the target's base followed by the request's path and query,
/// or by nothing when the request has none.
pub fn upstream_uri(target_service: &str, path_and_query: Option<&str>) -> (uri: String)
    ensures
        uri@ == target_service@ + match path_and_query {
            Some(pq) => pq@,
            None => Seq::<char>::empty(),
        },
{
    match path_and_query {
        Some(pq) => String::from_str(target_service).concat(pq),
        None => {
            let s = String::from_str(target_service);
            assert(s@ =~= target_service@ + Seq::<char>::empty());
            s
        },
    }
}

/// The answer to a request that could not be forwarded: status 502 with the body
/// "Bad Gateway".
pub fn bad_gateway() -> (reply: (u16, &'static str))
    ensures
        reply.0 == 502,
        reply.1@ == "Bad Gateway"@,
{
    (502, "Bad Gateway")
}

} // verus!
