use vstd::prelude::*;
use vstd::string::*;

use crate::config::AppConfig;
use crate::error::ProxyError;
use crate::transport::{ensure_transport_enabled, transport_check};
use crate::urls::{upstream_url, upstream_url_of};

verus! {

/// The request target that a request without one stands for: `/`.
pub open spec fn target_or_root(path_and_query: Option<Seq<char>>) -> Seq<char> {
    match path_and_query {
        Some(p) => p,
        None => "/"@,
    }
}

/// The upstream URL to forward a request to, or why it is refused.
/// `path_and_query` is the request target (`None` when there is none).
pub fn plan_proxy_request(config: &AppConfig, path_and_query: Option<&str>) -> (r: Result<String, ProxyError>)
    ensures
        ({
            let pq = target_or_root(
                match path_and_query {
                    Some(p) => Some(p@),
                    None => None,
                },
            );
            &&& r is Ok <==> transport_check(*config, pq) is Ok
            &&& r matches Ok(url) ==> url@ == upstream_url_of(*config, pq)
            &&& r matches Err(e) ==> transport_check(*config, pq) == Err::<(), ProxyError>(e)
        }),
{
    let pq = match path_and_query {
        Some(p) => p,
        None => "/",
    };
    match ensure_transport_enabled(config, pq) {
        Ok(()) => Ok(upstream_url(config, pq)),
        Err(e) => Err(e),
    }
}

/// The body of the 502 answer to a request that could not be forwarded.
pub fn gateway_error_body(message: &str) -> (r: String)
    ensures
        r@ == "McpProxy error: "@ + message@,
{
    let mut s = "McpProxy error: ".to_owned();
    s.append(message);
    s
}

} // verus!
