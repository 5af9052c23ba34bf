use vstd::prelude::*;

use crate::error::ProxyError;
use crate::outside::{url_error_message, url_parse_error, url_parse_failure, url_parses};

verus! {

/// The proxy's settings, as `config.toml` holds them.
#[derive(Debug, Clone)]
pub struct AppConfig {
    /// Base URL of the upstream MCP server, such as `http://127.0.0.1:64342`.
    pub upstream_base_url: String,
    /// Address the proxy listens on.
    pub listen_host: String,
    pub listen_port: u16,
    /// Host and port under which clients reach the proxy.
    pub public_host: String,
    pub public_port: u16,
    pub enable_sse: bool,
    pub enable_streamable_http: bool,
    pub auto_start_proxy: bool,
    pub debug_log_enabled: bool,
    pub log_dir: String,
}

impl Default for AppConfig {
    fn default() -> (r: Self)
        ensures
            r.upstream_base_url@ == "http://127.0.0.1:64342"@,
            r.listen_host@ == "0.0.0.0"@,
            r.listen_port == 23333,
            r.public_host@ == "172.21.112.1"@,
            r.public_port == 23333,
            r.enable_sse,
            r.enable_streamable_http,
            r.auto_start_proxy,
            !r.debug_log_enabled,
            r.log_dir@ == "logs"@,
    {
        AppConfig {
            upstream_base_url: "http://127.0.0.1:64342".to_owned(),
            listen_host: "0.0.0.0".to_owned(),
            listen_port: 23333,
            public_host: "172.21.112.1".to_owned(),
            public_port: 23333,
            enable_sse: true,
            enable_streamable_http: true,
            auto_start_proxy: true,
            debug_log_enabled: false,
            log_dir: "logs".to_owned(),
        }
    }
}

/// Whether a configuration passes every check, given whether its
/// `listen_host` is an IP address.
pub open spec fn config_accepted(c: AppConfig, listen_host_is_ip: bool) -> bool {
    &&& url_parses(c.upstream_base_url@)
    &&& listen_host_is_ip
    &&& c.listen_port != 0
    &&& c.public_port != 0
    &&& (c.enable_sse || c.enable_streamable_http)
}

/// Checks a configuration, given what parsing its `upstream_base_url` as a
/// URL and its `listen_host` as an IP address gave (`None` for success,
/// else the parser's message). The checks run in order and the first that
/// fails gives the error.
pub fn check_config(
    config: &AppConfig,
    upstream_url_error: Option<String>,
    listen_host_error: Option<String>,
) -> (r: Result<(), ProxyError>)
    ensures
        r is Ok <==> (upstream_url_error is None && listen_host_error is None && config.listen_port
            != 0 && config.public_port != 0 && (config.enable_sse || config.enable_streamable_http)),
        upstream_url_error is Some ==> (r matches Err(ProxyError::InvalidUpstreamUrl { cause })
            && cause == upstream_url_error->0),
        upstream_url_error is None && listen_host_error is Some ==> (r matches Err(
            ProxyError::InvalidListenHost { cause },
        ) && cause == listen_host_error->0),
        upstream_url_error is None && listen_host_error is None && (config.listen_port == 0
            || config.public_port == 0) ==> r matches Err(ProxyError::ZeroPort),
        upstream_url_error is None && listen_host_error is None && config.listen_port != 0
            && config.public_port != 0 && !config.enable_sse && !config.enable_streamable_http
            ==> r matches Err(ProxyError::NoTransportEnabled),
{
    if let Some(cause) = upstream_url_error {
        return Err(ProxyError::InvalidUpstreamUrl { cause });
    }
    if let Some(cause) = listen_host_error {
        return Err(ProxyError::InvalidListenHost { cause });
    }
    if config.listen_port == 0 || config.public_port == 0 {
        return Err(ProxyError::ZeroPort);
    }
    if !config.enable_sse && !config.enable_streamable_http {
        return Err(ProxyError::NoTransportEnabled);
    }
    Ok(())
}

/// The error that checking a configuration gives when it is refused: the
/// first failing check in order (URL, listen host, ports, transports), a
/// URL error carrying the URL parser's message for that text and a listen-host
/// error carrying the given message.
pub open spec fn config_error_fits(c: AppConfig, listen_host_error: Option<String>, e: ProxyError) -> bool {
    if !url_parses(c.upstream_base_url@) {
        e matches ProxyError::InvalidUpstreamUrl { cause } && Some(cause@) == url_parse_failure(
            c.upstream_base_url@,
        ) && url_error_message(cause@)
    } else if listen_host_error is Some {
        e matches ProxyError::InvalidListenHost { cause } && cause == listen_host_error->0
    } else if c.listen_port == 0 || c.public_port == 0 {
        e is ZeroPort
    } else {
        e is NoTransportEnabled
    }
}

/// Checks a configuration: its `upstream_base_url` is parsed as a URL here;
/// `listen_host_error` is what parsing `listen_host` as an IP address gave
/// (`None` when it is one, else the parser's message). The checks run in
/// order and the first that fails gives the error.
pub fn validate_config(config: &AppConfig, listen_host_error: Option<String>) -> (r: Result<(), ProxyError>)
    ensures
        r is Ok <==> config_accepted(*config, listen_host_error is None),
        r matches Err(e) ==> config_error_fits(*config, listen_host_error, e),
{
    let upstream_url_error = url_parse_error(config.upstream_base_url.as_str());
    check_config(config, upstream_url_error, listen_host_error)
}

} // verus!
