use mcpproxy::config::{check_config, validate_config, AppConfig};
use mcpproxy::error::{stringify_error, ProxyError};
use mcpproxy::urls::{
    bind_url, ensure_leading_slash, local_proxy_url, port_text, public_base_url, public_url,
    upstream_base_url, upstream_url,
};

#[test]
fn default_config_matches_readme() {
    let c = AppConfig::default();
    assert_eq!(c.upstream_base_url, "http://127.0.0.1:64342");
    assert_eq!(c.listen_host, "0.0.0.0");
    assert_eq!(c.listen_port, 23333);
    assert_eq!(c.public_host, "172.21.112.1");
    assert_eq!(c.public_port, 23333);
    assert!(c.enable_sse);
    assert!(c.enable_streamable_http);
    assert!(c.auto_start_proxy);
    assert!(!c.debug_log_enabled);
    assert_eq!(c.log_dir, "logs");
}

#[test]
fn default_config_is_valid() {
    assert!(validate_config(&AppConfig::default(), None).is_ok());
}

#[test]
fn invalid_upstream_url_is_refused_with_cause() {
    let mut c = AppConfig::default();
    c.upstream_base_url = "not a url".to_string();
    let err = validate_config(&c, None).unwrap_err();
    assert!(matches!(err, ProxyError::InvalidUpstreamUrl { .. }));
    assert_eq!(
        stringify_error(err),
        "upstream_base_url must be a valid URL: relative URL without a base"
    );
}

#[test]
fn listen_host_error_is_reported() {
    let c = AppConfig::default();
    let err = validate_config(&c, Some("invalid IP address syntax".to_string())).unwrap_err();
    assert_eq!(err.message(), "listen_host must be an IP address: invalid IP address syntax");
}

#[test]
fn zero_ports_are_refused() {
    let mut c = AppConfig::default();
    c.public_port = 0;
    let err = validate_config(&c, None).unwrap_err();
    assert!(matches!(err, ProxyError::ZeroPort));
    assert_eq!(err.message(), "ports must be greater than 0");
    let mut c = AppConfig::default();
    c.listen_port = 0;
    assert!(matches!(validate_config(&c, None), Err(ProxyError::ZeroPort)));
}

#[test]
fn one_transport_must_be_enabled() {
    let mut c = AppConfig::default();
    c.enable_sse = false;
    assert!(validate_config(&c, None).is_ok());
    c.enable_streamable_http = false;
    let err = validate_config(&c, None).unwrap_err();
    assert_eq!(err.message(), "at least one transport must be enabled");
}

#[test]
fn url_error_comes_before_host_error() {
    let mut c = AppConfig::default();
    c.upstream_base_url = "".to_string();
    c.listen_port = 0;
    let err = validate_config(&c, Some("bad".to_string())).unwrap_err();
    assert!(matches!(err, ProxyError::InvalidUpstreamUrl { .. }));
}

#[test]
fn leading_slash_is_added_once() {
    assert_eq!(ensure_leading_slash("sse"), "/sse");
    assert_eq!(ensure_leading_slash("/sse"), "/sse");
    assert_eq!(ensure_leading_slash(""), "/");
    assert_eq!(ensure_leading_slash(&ensure_leading_slash("x?y=1")), "/x?y=1");
}

#[test]
fn readme_endpoint_urls() {
    let c = AppConfig::default();
    assert_eq!(upstream_url(&c, "/sse"), "http://127.0.0.1:64342/sse");
    assert_eq!(upstream_url(&c, "stream"), "http://127.0.0.1:64342/stream");
    assert_eq!(public_url(&c, "/sse"), "http://172.21.112.1:23333/sse");
    assert_eq!(public_url(&c, "/stream"), "http://172.21.112.1:23333/stream");
    assert_eq!(public_base_url(&c), "http://172.21.112.1:23333");
    assert_eq!(local_proxy_url(&c, "/sse"), "http://127.0.0.1:23333/sse");
    assert_eq!(bind_url(&c), "http://0.0.0.0:23333");
}

#[test]
fn trailing_slashes_of_upstream_are_dropped() {
    let mut c = AppConfig::default();
    c.upstream_base_url = "http://host:1///".to_string();
    assert_eq!(upstream_base_url(&c), "http://host:1");
    assert_eq!(upstream_url(&c, "/message?sessionId=7"), "http://host:1/message?sessionId=7");
}

#[test]
fn port_text_is_decimal() {
    assert_eq!(port_text(0), "0");
    assert_eq!(port_text(7), "7");
    assert_eq!(port_text(80), "80");
    assert_eq!(port_text(65535), "65535");
    for p in [1u16, 9, 10, 99, 100, 1000, 23333, 64342] {
        assert_eq!(port_text(p), p.to_string());
    }
}

#[test]
fn check_config_reports_given_causes_in_order() {
    let c = AppConfig::default();
    assert!(check_config(&c, None, None).is_ok());
    let err = check_config(&c, Some("empty host".to_string()), Some("bad ip".to_string())).unwrap_err();
    assert_eq!(err.message(), "upstream_base_url must be a valid URL: empty host");
    let err = check_config(&c, None, Some("bad ip".to_string())).unwrap_err();
    assert_eq!(err.message(), "listen_host must be an IP address: bad ip");
}

#[test]
fn url_cause_is_the_parsers_message_for_the_text() {
    let mut c = AppConfig::default();
    c.upstream_base_url = "http://".to_string();
    let err = validate_config(&c, None).unwrap_err();
    assert_eq!(err.message(), "upstream_base_url must be a valid URL: empty host");
    c.upstream_base_url = "http://host:99999".to_string();
    let err = validate_config(&c, None).unwrap_err();
    assert_eq!(err.message(), "upstream_base_url must be a valid URL: invalid port number");
}
