use vstd::prelude::*;

use crate::text::{chars_eq, chars_of, contains_chars, lower_chars, lower_seq, occurs_in};

verus! {

/// The hop-by-hop header names, in lower case; a proxy does not forward them.
pub open spec fn is_hop_by_hop_name(lower_name: Seq<char>) -> bool {
    ||| lower_name == "connection"@
    ||| lower_name == "keep-alive"@
    ||| lower_name == "proxy-authenticate"@
    ||| lower_name == "proxy-authorization"@
    ||| lower_name == "te"@
    ||| lower_name == "trailer"@
    ||| lower_name == "transfer-encoding"@
    ||| lower_name == "upgrade"@
    ||| lower_name == "proxy-connection"@
}

/// Whether a header is hop-by-hop, whatever the case of its name.
pub fn is_hop_by_hop_header(name: &str) -> (r: bool)
    ensures
        r == is_hop_by_hop_name(lower_seq(name@)),
{
    let n = lower_chars(&chars_of(name));
    chars_eq(&n, &chars_of("connection")) || chars_eq(&n, &chars_of("keep-alive")) || chars_eq(
        &n,
        &chars_of("proxy-authenticate"),
    ) || chars_eq(&n, &chars_of("proxy-authorization")) || chars_eq(&n, &chars_of("te"))
        || chars_eq(&n, &chars_of("trailer")) || chars_eq(&n, &chars_of("transfer-encoding"))
        || chars_eq(&n, &chars_of("upgrade")) || chars_eq(&n, &chars_of("proxy-connection"))
}

/// Whether a client's request header goes on to the upstream server: not
/// hop-by-hop and not `Host`.
pub open spec fn forwards_request_header(name: Seq<char>) -> bool {
    !is_hop_by_hop_name(lower_seq(name)) && lower_seq(name) != "host"@
}

/// Whether an upstream response header goes back to the client: not
/// hop-by-hop and not `Content-Length` (the body is streamed anew).
pub open spec fn forwards_response_header(name: Seq<char>) -> bool {
    !is_hop_by_hop_name(lower_seq(name)) && lower_seq(name) != "content-length"@
}

/// Whether a client's request header goes on to the upstream server.
pub fn forward_request_header(name: &str) -> (r: bool)
    ensures
        r == forwards_request_header(name@),
{
    let n = lower_chars(&chars_of(name));
    !is_hop_by_hop_header(name) && !chars_eq(&n, &chars_of("host"))
}

/// Whether an upstream response header goes back to the client.
pub fn forward_response_header(name: &str) -> (r: bool)
    ensures
        r == forwards_response_header(name@),
{
    let n = lower_chars(&chars_of(name));
    !is_hop_by_hop_header(name) && !chars_eq(&n, &chars_of("content-length"))
}

/// The request headers that go on to the upstream server, in their order.
pub fn filter_request_headers(headers: Vec<(String, Vec<u8>)>) -> (r: Vec<(String, Vec<u8>)>)
    ensures
        r@ == headers@.filter(|h: (String, Vec<u8>)| forwards_request_header(h.0@)),
{
    let ghost all = headers@;
    let ghost pred = |h: (String, Vec<u8>)| forwards_request_header(h.0@);
    let mut r: Vec<(String, Vec<u8>)> = Vec::new();
    for h in it: headers
        invariant
            all == it.seq(),
            pred == (|h: (String, Vec<u8>)| forwards_request_header(h.0@)),
            r@ == all.take(it.index() as int).filter(pred),
    {
        proof {
            reveal_with_fuel(Seq::<_>::filter, 1);
        }
        let ghost i = it.index();
        assert(all.take(i + 1).drop_last() == all.take(i as int));
        assert(all.take(i + 1).last() == h);
        if forward_request_header(h.0.as_str()) {
            r.push(h);
        }
    }
    assert(all.take(all.len() as int) == all);
    r
}

/// `text/event-stream` appears in the content type, whatever its case.
pub open spec fn is_event_stream_type(content_type: Option<Seq<char>>) -> bool {
    match content_type {
        Some(t) => occurs_in(lower_seq(t), "text/event-stream"@),
        None => false,
    }
}

/// Whether an upstream response is a server-sent event stream, judged by
/// its `Content-Type` (`None` when it has none that is text).
pub fn is_event_stream(content_type: Option<&str>) -> (r: bool)
    ensures
        r == is_event_stream_type(
            match content_type {
                Some(t) => Some(t@),
                None => None,
            },
        ),
{
    match content_type {
        Some(t) => {
            let l = lower_chars(&chars_of(t));
            contains_chars(&l, &chars_of("text/event-stream"))
        },
        None => false,
    }
}

} // verus!
