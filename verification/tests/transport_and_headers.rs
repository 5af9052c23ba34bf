use mcpproxy::config::AppConfig;
use mcpproxy::error::ProxyError;
use mcpproxy::headers::{
    filter_request_headers, forward_request_header, forward_response_header, is_event_stream,
    is_hop_by_hop_header,
};
use mcpproxy::proxy::{gateway_error_body, plan_proxy_request};
use mcpproxy::transport::{ensure_transport_enabled, normalize_transport};

#[test]
fn routes_follow_the_readme() {
    let mut c = AppConfig::default();
    assert!(ensure_transport_enabled(&c, "/sse").is_ok());
    assert!(ensure_transport_enabled(&c, "/stream").is_ok());
    c.enable_sse = false;
    assert!(matches!(ensure_transport_enabled(&c, "/sse"), Err(ProxyError::SseDisabled)));
    assert!(matches!(
        ensure_transport_enabled(&c, "/message?sessionId=abc"),
        Err(ProxyError::SseDisabled)
    ));
    assert!(matches!(ensure_transport_enabled(&c, "/messages/x"), Err(ProxyError::SseDisabled)));
    assert!(ensure_transport_enabled(&c, "/stream").is_ok());
    assert!(ensure_transport_enabled(&c, "/sse2").is_ok());
    let mut c = AppConfig::default();
    c.enable_streamable_http = false;
    let err = ensure_transport_enabled(&c, "/stream?x=1").unwrap_err();
    assert_eq!(err.message(), "Streamable HTTP transport is disabled");
    assert!(ensure_transport_enabled(&c, "/stream/extra").is_ok());
    assert!(ensure_transport_enabled(&c, "/sse").is_ok());
}

#[test]
fn query_does_not_change_routing() {
    let mut c = AppConfig::default();
    c.enable_sse = false;
    assert!(ensure_transport_enabled(&c, "/sse?a=b").is_err());
    assert!(ensure_transport_enabled(&c, "/other?x=/sse").is_ok());
}

#[test]
fn transport_names_are_normalized() {
    assert_eq!(normalize_transport("sse").unwrap(), "sse");
    assert_eq!(normalize_transport("  SSE\t").unwrap(), "sse");
    assert_eq!(normalize_transport("Stream").unwrap(), "streamable-http");
    assert_eq!(normalize_transport("streamable").unwrap(), "streamable-http");
    assert_eq!(normalize_transport("STREAMABLE-HTTP").unwrap(), "streamable-http");
    assert_eq!(normalize_transport("streamable_http\n").unwrap(), "streamable-http");
    let err = normalize_transport(" WebSocket ").unwrap_err();
    assert_eq!(err.message(), "unsupported transport: websocket");
    assert_eq!(
        normalize_transport(&normalize_transport("Stream").unwrap()).unwrap(),
        "streamable-http"
    );
}

#[test]
fn hop_by_hop_headers() {
    for name in [
        "connection",
        "Keep-Alive",
        "PROXY-AUTHENTICATE",
        "proxy-authorization",
        "TE",
        "trailer",
        "Transfer-Encoding",
        "upgrade",
        "proxy-connection",
    ] {
        assert!(is_hop_by_hop_header(name), "{name}");
        assert!(!forward_request_header(name));
        assert!(!forward_response_header(name));
    }
    assert!(!is_hop_by_hop_header("content-type"));
    assert!(!is_hop_by_hop_header("tee"));
    assert!(!forward_request_header("Host"));
    assert!(forward_response_header("Host"));
    assert!(!forward_response_header("Content-Length"));
    assert!(forward_request_header("Content-Length"));
    assert!(forward_request_header("Accept"));
}

#[test]
fn request_headers_are_filtered_in_order() {
    let headers = vec![
        ("host".to_string(), b"127.0.0.1:23333".to_vec()),
        ("accept".to_string(), b"text/event-stream".to_vec()),
        ("Connection".to_string(), b"keep-alive".to_vec()),
        ("mcp-session-id".to_string(), b"abc".to_vec()),
    ];
    let out = filter_request_headers(headers);
    assert_eq!(
        out,
        vec![
            ("accept".to_string(), b"text/event-stream".to_vec()),
            ("mcp-session-id".to_string(), b"abc".to_vec()),
        ]
    );
}

#[test]
fn event_stream_detection() {
    assert!(is_event_stream(Some("text/event-stream")));
    assert!(is_event_stream(Some("Text/Event-Stream; charset=utf-8")));
    assert!(!is_event_stream(Some("application/json")));
    assert!(!is_event_stream(None));
}

#[test]
fn proxy_request_plan() {
    let c = AppConfig::default();
    assert_eq!(
        plan_proxy_request(&c, Some("/message?sessionId=1")).unwrap(),
        "http://127.0.0.1:64342/message?sessionId=1"
    );
    assert_eq!(plan_proxy_request(&c, None).unwrap(), "http://127.0.0.1:64342/");
    let mut c = AppConfig::default();
    c.enable_sse = false;
    assert!(matches!(plan_proxy_request(&c, Some("/sse")), Err(ProxyError::SseDisabled)));
}

#[test]
fn gateway_error_text() {
    assert_eq!(gateway_error_body("SSE transport is disabled"), "McpProxy error: SSE transport is disabled");
}
