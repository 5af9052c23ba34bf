use vstd::prelude::*;
use vstd::string::*;
use vstd::utf8::*;

use crate::config::AppConfig;
use crate::headers::{forward_response_header, forwards_response_header};
use crate::outside::{bytes_contents, bytes_from_string, bytes_to_vec, decode_utf8_lossy, utf8_lossy};
use crate::text::{replace_all, replace_str};
use crate::urls::{public_base, public_base_url, upstream_base, upstream_base_url};

verus! {

/// A header value with the upstream base URL replaced by the public one.
pub open spec fn rewritten_header(c: AppConfig, value: Seq<char>) -> Seq<char> {
    replace_all(value, upstream_base(c), public_base(c))
}

/// Replaces the upstream base URL in a header value (such as `Location`)
/// by the URL under which clients reach the proxy.
pub fn rewrite_header_value(config: &AppConfig, value: &str) -> (r: String)
    ensures
        r@ == rewritten_header(*config, value@),
{
    let up = upstream_base_url(config);
    let public = public_base_url(config);
    replace_str(value, up.as_str(), public.as_str())
}

/// An SSE text with the upstream base URL replaced by the public one, and
/// the relative `/message` endpoint in `data:` lines made absolute.
pub open spec fn sse_rewrite(text: Seq<char>, upstream: Seq<char>, public: Seq<char>) -> Seq<char> {
    let a = replace_all(text, upstream, public);
    let b = replace_all(a, "data: /message"@, "data: "@ + public + "/message"@);
    replace_all(b, "data:/message"@, "data:"@ + public + "/message"@)
}

/// Rewrites the text of an SSE chunk (see `sse_rewrite`).
pub fn rewrite_sse_text(text: &str, upstream_base_url: &str, public_base_url: &str) -> (r: String)
    ensures
        r@ == sse_rewrite(text@, upstream_base_url@, public_base_url@),
{
    let a = replace_str(text, upstream_base_url, public_base_url);
    let mut spaced = "data: ".to_owned();
    spaced.append(public_base_url);
    spaced.append("/message");
    let b = replace_str(a.as_str(), "data: /message", spaced.as_str());
    let mut tight = "data:".to_owned();
    tight.append(public_base_url);
    tight.append("/message");
    replace_str(b.as_str(), "data:/message", tight.as_str())
}

/// Rewrites a chunk of an upstream SSE body: its bytes are read as UTF-8
/// (invalid sequences become U+FFFD), rewritten by `sse_rewrite` and
/// encoded again.
pub fn rewrite_sse_chunk(bytes: &bytes::Bytes, upstream_base_url: &str, public_base_url: &str) -> (r: bytes::Bytes)
    ensures
        bytes_contents(r) == encode_utf8(
            sse_rewrite(utf8_lossy(bytes_contents(*bytes)), upstream_base_url@, public_base_url@),
        ),
        valid_utf8(bytes_contents(*bytes)) ==> bytes_contents(r) == encode_utf8(
            sse_rewrite(decode_utf8(bytes_contents(*bytes)), upstream_base_url@, public_base_url@),
        ),
{
    let raw = bytes_to_vec(bytes);
    let text = decode_utf8_lossy(raw.as_slice());
    let rewritten = rewrite_sse_text(text.as_str(), upstream_base_url, public_base_url);
    bytes_from_string(rewritten)
}

/// The response headers that go back to the client, with rewritten values:
/// hop-by-hop headers, `Content-Length` and values that are not text
/// (`None`) are left out.
pub open spec fn response_headers_out(c: AppConfig, headers: Seq<(String, Option<String>)>) -> Seq<(Seq<char>, Seq<char>)>
    decreases headers.len(),
{
    if headers.len() == 0 {
        Seq::empty()
    } else {
        let rest = response_headers_out(c, headers.drop_last());
        let h = headers.last();
        if forwards_response_header(h.0@) && h.1 is Some {
            rest.push((h.0@, rewritten_header(c, h.1->0@)))
        } else {
            rest
        }
    }
}

/// The names and values of header pairs.
pub open spec fn header_pairs_view(headers: Seq<(String, String)>) -> Seq<(Seq<char>, Seq<char>)> {
    headers.map_values(|h: (String, String)| (h.0@, h.1@))
}

/// The upstream response headers that go back to the client, values rewritten.
pub fn rewrite_response_headers(config: &AppConfig, headers: Vec<(String, Option<String>)>) -> (r: Vec<(String, String)>)
    ensures
        header_pairs_view(r@) == response_headers_out(*config, headers@),
{
    let ghost all = headers@;
    let mut r: Vec<(String, String)> = Vec::new();
    for h in it: headers
        invariant
            all == it.seq(),
            header_pairs_view(r@) == response_headers_out(*config, all.take(it.index() as int)),
    {
        let ghost i = it.index();
        assert(all.take(i + 1).drop_last() == all.take(i as int));
        assert(all.take(i + 1).last() == h);
        let (name, value) = h;
        if forward_response_header(name.as_str()) {
            match value {
                Some(v) => {
                    let rewritten = rewrite_header_value(config, v.as_str());
                    let ghost old_r = r@;
                    r.push((name, rewritten));
                    assert(header_pairs_view(r@) == header_pairs_view(old_r).push(
                        (h.0@, rewritten_header(*config, h.1->0@)),
                    ));
                },
                None => {},
            }
        }
    }
    assert(all.take(all.len() as int) == all);
    r
}

} // verus!
