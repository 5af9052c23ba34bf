use bytes::Bytes;
use mcpproxy::config::AppConfig;
use mcpproxy::rewrite::{
    rewrite_header_value, rewrite_response_headers, rewrite_sse_chunk, rewrite_sse_text,
};
use mcpproxy::text::replace_str;

#[test]
fn replace_matches_std() {
    let cases = [
        ("abcabc", "b", "XY"),
        ("aaaa", "aa", "b"),
        ("abc", "", "X"),
        ("", "", "X"),
        ("", "a", "X"),
        ("héllo wörld", "ö", "oe"),
        ("no match here", "zzz", "y"),
        ("aaa", "a", "aa"),
        ("ababab", "aba", "-"),
    ];
    for (s, p, r) in cases {
        assert_eq!(replace_str(s, p, r), s.replace(p, r), "{s:?} {p:?} {r:?}");
    }
}

#[test]
fn header_values_are_rewritten() {
    let c = AppConfig::default();
    assert_eq!(
        rewrite_header_value(&c, "http://127.0.0.1:64342/message?sessionId=1"),
        "http://172.21.112.1:23333/message?sessionId=1"
    );
    assert_eq!(rewrite_header_value(&c, "text/event-stream"), "text/event-stream");
}

#[test]
fn sse_text_endpoints_become_public() {
    let text = "event: endpoint\ndata: /message?sessionId=42\n\n";
    assert_eq!(
        rewrite_sse_text(text, "http://127.0.0.1:64342", "http://172.21.112.1:23333"),
        "event: endpoint\ndata: http://172.21.112.1:23333/message?sessionId=42\n\n"
    );
    assert_eq!(
        rewrite_sse_text("data:/message?x=1\n", "http://u", "http://p:1"),
        "data:http://p:1/message?x=1\n"
    );
    assert_eq!(
        rewrite_sse_text("data: http://u/message\n", "http://u", "http://p:1"),
        "data: http://p:1/message\n"
    );
}

#[test]
fn sse_chunk_bytes_are_rewritten() {
    let chunk = Bytes::from("event: endpoint\ndata: /message?sessionId=9\n\n");
    let out = rewrite_sse_chunk(&chunk, "http://127.0.0.1:64342", "http://172.21.112.1:23333");
    assert_eq!(
        out,
        Bytes::from("event: endpoint\ndata: http://172.21.112.1:23333/message?sessionId=9\n\n")
    );
    let plain = Bytes::from("data: {\"jsonrpc\":\"2.0\"}\n\n");
    assert_eq!(rewrite_sse_chunk(&plain, "http://127.0.0.1:64342", "http://x:1"), plain);
}

#[test]
fn invalid_utf8_becomes_replacement_characters() {
    let chunk = Bytes::from(vec![b'a', 0xff, b'b']);
    let out = rewrite_sse_chunk(&chunk, "http://u", "http://p");
    assert_eq!(out, Bytes::from("a\u{fffd}b"));
}

#[test]
fn response_headers_are_filtered_and_rewritten() {
    let c = AppConfig::default();
    let headers = vec![
        ("content-type".to_string(), Some("text/event-stream".to_string())),
        ("content-length".to_string(), Some("12".to_string())),
        ("transfer-encoding".to_string(), Some("chunked".to_string())),
        ("location".to_string(), Some("http://127.0.0.1:64342/stream".to_string())),
        ("x-binary".to_string(), None),
    ];
    assert_eq!(
        rewrite_response_headers(&c, headers),
        vec![
            ("content-type".to_string(), "text/event-stream".to_string()),
            ("location".to_string(), "http://172.21.112.1:23333/stream".to_string()),
        ]
    );
}

#[test]
fn same_public_and_upstream_base_rewrites_nothing() {
    let mut c = AppConfig::default();
    c.upstream_base_url = "http://172.21.112.1:23333/".to_string();
    let v = "http://172.21.112.1:23333/message?sessionId=1";
    assert_eq!(rewrite_header_value(&c, v), v);
}

#[test]
fn upstream_url_becomes_public_url() {
    let c = AppConfig::default();
    let up = mcpproxy::urls::upstream_url(&c, "/stream?x=1");
    assert_eq!(rewrite_header_value(&c, &up), mcpproxy::urls::public_url(&c, "/stream?x=1"));
}
