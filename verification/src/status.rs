use vstd::prelude::*;

use crate::config::AppConfig;
use crate::urls::{bind_url, bind_url_of, public_url, public_url_of, upstream_url, upstream_url_of};

verus! {

/// What the window shows of the proxy.
#[derive(Debug)]
pub struct ProxyStatus {
    pub running: bool,
    pub bind_url: String,
    pub public_sse_url: String,
    pub public_stream_url: String,
    pub upstream_sse_url: String,
    pub upstream_stream_url: String,
    pub recent_logs: Vec<String>,
}

/// The status of the proxy under a configuration.
pub fn status_from_config(config: &AppConfig, running: bool, recent_logs: Vec<String>) -> (r: ProxyStatus)
    ensures
        r.running == running,
        r.bind_url@ == bind_url_of(*config),
        r.public_sse_url@ == public_url_of(*config, "/sse"@),
        r.public_stream_url@ == public_url_of(*config, "/stream"@),
        r.upstream_sse_url@ == upstream_url_of(*config, "/sse"@),
        r.upstream_stream_url@ == upstream_url_of(*config, "/stream"@),
        r.recent_logs == recent_logs,
{
    ProxyStatus {
        running,
        bind_url: bind_url(config),
        public_sse_url: public_url(config, "/sse"),
        public_stream_url: public_url(config, "/stream"),
        upstream_sse_url: upstream_url(config, "/sse"),
        upstream_stream_url: upstream_url(config, "/stream"),
        recent_logs,
    }
}

} // verus!
