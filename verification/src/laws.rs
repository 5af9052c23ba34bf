use vstd::prelude::*;
use vstd::utf8::*;

use crate::config::AppConfig;
use crate::error::ProxyError;
use crate::probe::test_url;
use crate::text::decimal;
use crate::control::{tray_action_of, TrayAction};
use crate::logs::{keep_last, RECENT_LOG_LIMIT};
use crate::headers::{forwards_request_header, forwards_response_header, is_hop_by_hop_name};
use crate::rewrite::{rewritten_header, sse_rewrite};
use crate::text::{ascii_lower, before_char, lower_seq, occurs_in, replace_all, trim_end_char};
use crate::transport::{normalized_transport, request_path, transport_check};
use crate::urls::{
    public_base, public_url_of, upstream_base, upstream_url_of, with_leading_slash,
};

verus! {

/// Putting a leading slash is idempotent, and its result starts with `/`.
pub proof fn law_leading_slash(s: Seq<char>)
    ensures
        with_leading_slash(s).len() > 0,
        with_leading_slash(s)[0] == '/',
        with_leading_slash(with_leading_slash(s)) == with_leading_slash(s),
{
}

/// Removing trailing slashes leaves none, and doing it twice is doing it once.
pub proof fn law_trim_end_slashes(s: Seq<char>)
    ensures
        trim_end_char(s, '/').len() == 0 || trim_end_char(s, '/').last() != '/',
        trim_end_char(trim_end_char(s, '/'), '/') == trim_end_char(s, '/'),
    decreases s.len(),
{
    if s.len() > 0 && s.last() == '/' {
        law_trim_end_slashes(s.drop_last());
    }
}

/// An upstream URL is the base URL without trailing slashes followed by a
/// path that starts with `/`: the two never meet in a double slash.
pub proof fn law_upstream_url_joins_once(c: AppConfig, path_and_query: Seq<char>)
    ensures
        upstream_url_of(c, path_and_query) == upstream_base(c) + with_leading_slash(path_and_query),
        upstream_base(c).len() == 0 || upstream_base(c).last() != '/',
        with_leading_slash(path_and_query)[0] == '/',
{
    law_trim_end_slashes(c.upstream_base_url@);
}

proof fn lemma_before_query(p: Seq<char>, rest: Seq<char>)
    requires
        !p.contains('?'),
    ensures
        before_char(p + rest, '?') == p + before_char(rest, '?'),
    decreases p.len(),
{
    if p.len() > 0 {
        assert(!p.drop_first().contains('?')) by {
            if p.drop_first().contains('?') {
                let k = choose|k: int| 0 <= k < p.drop_first().len() && p.drop_first()[k] == '?';
                assert(p[k + 1] == '?');
            }
        }
        lemma_before_query(p.drop_first(), rest);
        assert((p + rest).drop_first() == p.drop_first() + rest);
        assert(p[0] != '?') by {
            assert(p.contains(p[0]) || p[0] != '?');
        }
        assert(seq![p[0]] + p.drop_first() == p);
    }
}

/// A query string does not change how a request is routed: a path with a
/// query is accepted or refused exactly as the bare path.
pub proof fn law_query_does_not_route(c: AppConfig, path: Seq<char>, query: Seq<char>)
    requires
        !path.contains('?'),
    ensures
        request_path(path + seq!['?'] + query) == path,
        transport_check(c, path + seq!['?'] + query) == transport_check(c, path),
{
    lemma_before_query(path, seq!['?'] + query);
    assert(path + seq!['?'] + query == path + (seq!['?'] + query));
    assert(before_char(seq!['?'] + query, '?') == Seq::<char>::empty());
    lemma_before_query(path, Seq::empty());
    assert(path + Seq::<char>::empty() == path);
}

/// Each transport switch refuses only its own paths: the Streamable HTTP
/// switch only the path `/stream`, the SSE switch only `/sse` and paths
/// under `/message` (the query, after `?`, plays no part). With SSE on, no
/// request under `/message` is refused, whatever the other switch says;
/// with Streamable HTTP on, `/stream` is not refused; and a path of
/// neither transport is never refused.
pub proof fn law_switches_refuse_only_their_paths(c: AppConfig, path_and_query: Seq<char>)
    ensures
        transport_check(c, path_and_query) == Err::<(), ProxyError>(ProxyError::StreamableHttpDisabled)
            ==> before_char(path_and_query, '?') == "/stream"@ && !c.enable_streamable_http,
        transport_check(c, path_and_query) == Err::<(), ProxyError>(ProxyError::SseDisabled) ==> !c.enable_sse
            && (before_char(path_and_query, '?') == "/sse"@ || "/message"@.is_prefix_of(
            before_char(path_and_query, '?'),
        )),
        transport_check(c, path_and_query) is Ok || transport_check(c, path_and_query) == Err::<
            (),
            ProxyError,
        >(ProxyError::SseDisabled) || transport_check(c, path_and_query) == Err::<(), ProxyError>(
            ProxyError::StreamableHttpDisabled,
        ),
        c.enable_sse && "/message"@.is_prefix_of(before_char(path_and_query, '?')) ==> transport_check(
            c,
            path_and_query,
        ) is Ok,
        c.enable_sse && before_char(path_and_query, '?') == "/sse"@ ==> transport_check(c, path_and_query) is Ok,
        c.enable_streamable_http && before_char(path_and_query, '?') == "/stream"@ ==> transport_check(
            c,
            path_and_query,
        ) is Ok,
        before_char(path_and_query, '?') != "/sse"@ && !"/message"@.is_prefix_of(
            before_char(path_and_query, '?'),
        ) && before_char(path_and_query, '?') != "/stream"@ ==> transport_check(c, path_and_query) is Ok,
{
    reveal_strlit("/message");
    reveal_strlit("/stream");
    reveal_strlit("/sse");
    let p = before_char(path_and_query, '?');
    if "/message"@.is_prefix_of(p) {
        assert("/message"@[1] == 'm');
        assert(p[1] == "/message"@[1]);
        assert("/stream"@[1] == 's');
        assert(p != "/stream"@);
    }
    if p == "/sse"@ {
        assert(p != "/stream"@) by {
            assert(p.len() != "/stream"@.len());
        }
    }
}

/// A client's request header goes upstream exactly when its name, in any
/// case, is none of the hop-by-hop names and not `Host`: every other
/// header (`Content-Type`, `Accept`, `Authorization`, `Mcp-Session-Id`,
/// ...) is forwarded.
pub proof fn law_request_headers_forwarded(name: Seq<char>)
    ensures
        !is_hop_by_hop_name(lower_seq(name)) && lower_seq(name) != "host"@ ==> forwards_request_header(name),
        forwards_request_header(name) <==> !({
            let l = lower_seq(name);
            ||| l == "connection"@
            ||| l == "keep-alive"@
            ||| l == "proxy-authenticate"@
            ||| l == "proxy-authorization"@
            ||| l == "te"@
            ||| l == "trailer"@
            ||| l == "transfer-encoding"@
            ||| l == "upgrade"@
            ||| l == "proxy-connection"@
            ||| l == "host"@
        }),
{
}

/// An upstream response header goes back to the client exactly when its
/// name, in any case, is none of the hop-by-hop names and not
/// `Content-Length`: every other header (`Content-Type`,
/// `Mcp-Session-Id`, ...) is forwarded.
pub proof fn law_response_headers_forwarded(name: Seq<char>)
    ensures
        !is_hop_by_hop_name(lower_seq(name)) && lower_seq(name) != "content-length"@ ==> forwards_response_header(
            name,
        ),
        forwards_response_header(name) <==> !({
            let l = lower_seq(name);
            ||| l == "connection"@
            ||| l == "keep-alive"@
            ||| l == "proxy-authenticate"@
            ||| l == "proxy-authorization"@
            ||| l == "te"@
            ||| l == "trailer"@
            ||| l == "transfer-encoding"@
            ||| l == "upgrade"@
            ||| l == "proxy-connection"@
            ||| l == "content-length"@
        }),
{
}

/// A connection test against `upstream` probes the upstream server, at
/// `/sse` for the SSE transport and at `/stream` for Streamable HTTP; a
/// test against any other target probes the local proxy on the loopback
/// address and the listen port, at the same paths.
pub proof fn law_test_targets(c: AppConfig, target: Seq<char>)
    ensures
        target == "upstream"@ ==> test_url(c, "sse"@, target) == trim_end_char(c.upstream_base_url@, '/')
            + "/sse"@,
        target == "upstream"@ ==> test_url(c, "streamable-http"@, target) == trim_end_char(
            c.upstream_base_url@,
            '/',
        ) + "/stream"@,
        target != "upstream"@ ==> test_url(c, "sse"@, target) == "http://127.0.0.1:"@ + decimal(
            c.listen_port as nat,
        ) + "/sse"@,
        target != "upstream"@ ==> test_url(c, "streamable-http"@, target) == "http://127.0.0.1:"@
            + decimal(c.listen_port as nat) + "/stream"@,
{
    reveal_strlit("/sse");
    reveal_strlit("/stream");
    reveal_strlit("sse");
    reveal_strlit("streamable-http");
    assert("streamable-http"@ != "sse"@) by {
        assert("streamable-http"@.len() != "sse"@.len());
    }
    assert(with_leading_slash("/sse"@) == "/sse"@);
    assert(with_leading_slash("/stream"@) == "/stream"@);
}

/// The public URLs are built from the public host and the public port
/// alone: `http://<public_host>:<public_port><path>`. The listen address
/// plays no part, so two configurations with the same public host and
/// port give the same public URLs.
pub proof fn law_public_urls_from_public_address(c: AppConfig, d: AppConfig, path: Seq<char>)
    ensures
        public_base(c) == "http://"@ + c.public_host@ + ":"@ + decimal(c.public_port as nat),
        public_url_of(c, path) == "http://"@ + c.public_host@ + ":"@ + decimal(c.public_port as nat)
            + with_leading_slash(path),
        c.public_host@ == d.public_host@ && c.public_port == d.public_port ==> public_url_of(c, path)
            == public_url_of(d, path),
{
}

/// With both transports on, no request is refused for its path.
pub proof fn law_all_transports_on(c: AppConfig, path_and_query: Seq<char>)
    requires
        c.enable_sse,
        c.enable_streamable_http,
    ensures
        transport_check(c, path_and_query) is Ok,
{
}

/// Lower-casing ASCII letters twice is lower-casing them once.
pub proof fn law_lower_idempotent(s: Seq<char>)
    ensures
        lower_seq(lower_seq(s)) == lower_seq(s),
{
    assert forall|i: int| 0 <= i < s.len() implies ascii_lower(ascii_lower(s[i])) == ascii_lower(s[i]) by {
        let c = s[i];
        if 'A' <= c && c <= 'Z' {
            assert('a' <= ascii_lower(c) && ascii_lower(c) <= 'z');
        }
    }
    assert(lower_seq(lower_seq(s)) =~= lower_seq(s));
}

/// Header names are matched whatever their case: a name and its
/// lower-case form are forwarded (or dropped) alike.
pub proof fn law_header_case_insensitive(name: Seq<char>)
    ensures
        forwards_request_header(lower_seq(name)) == forwards_request_header(name),
        forwards_response_header(lower_seq(name)) == forwards_response_header(name),
        is_hop_by_hop_name(lower_seq(lower_seq(name))) == is_hop_by_hop_name(lower_seq(name)),
{
    law_lower_idempotent(name);
}

/// Hop-by-hop headers go neither way.
pub proof fn law_hop_by_hop_never_forwarded(name: Seq<char>)
    requires
        is_hop_by_hop_name(lower_seq(name)),
    ensures
        !forwards_request_header(name),
        !forwards_response_header(name),
{
}

/// Text without the pattern comes out of a replacement unchanged.
pub proof fn law_replace_absent(s: Seq<char>, pat: Seq<char>, rep: Seq<char>)
    requires
        pat.len() > 0,
        !occurs_in(s, pat),
    ensures
        replace_all(s, pat, rep) == s,
    decreases s.len(),
{
    if s.len() >= pat.len() {
        assert(s.take(pat.len() as int) != pat) by {
            if s.take(pat.len() as int) == pat {
                assert(s.subrange(0int, 0int + pat.len()) == pat);
            }
        }
        let t = s.drop_first();
        assert(!occurs_in(t, pat)) by {
            if occurs_in(t, pat) {
                let i = choose|i: int| 0 <= i <= t.len() - pat.len() && #[trigger] t.subrange(i, i + pat.len()) == pat;
                assert(s.subrange(i + 1, i + 1 + pat.len()) == t.subrange(i, i + pat.len()));
            }
        }
        law_replace_absent(t, pat, rep);
        assert(seq![s[0]] + t == s);
    }
}

/// Text that starts with the pattern starts with the replacement after it.
pub proof fn law_replace_prefix(pat: Seq<char>, rest: Seq<char>, rep: Seq<char>)
    requires
        pat.len() > 0,
    ensures
        replace_all(pat + rest, pat, rep) == rep + replace_all(rest, pat, rep),
{
    let s = pat + rest;
    assert(s.take(pat.len() as int) == pat);
    assert(s.skip(pat.len() as int) == rest);
}

/// The upstream URL of a path, as a header value, is rewritten to the
/// public URL of the same path (when the path does not itself mention the
/// upstream base URL).
pub proof fn law_upstream_url_becomes_public(c: AppConfig, path: Seq<char>)
    requires
        upstream_base(c).len() > 0,
        !occurs_in(with_leading_slash(path), upstream_base(c)),
    ensures
        rewritten_header(c, upstream_url_of(c, path)) == public_url_of(c, path),
{
    law_replace_prefix(upstream_base(c), with_leading_slash(path), public_base(c));
    law_replace_absent(with_leading_slash(path), upstream_base(c), public_base(c));
}

/// Replacing a pattern by itself changes nothing.
pub proof fn law_replace_by_itself(s: Seq<char>, pat: Seq<char>)
    requires
        pat.len() > 0,
    ensures
        replace_all(s, pat, pat) == s,
    decreases s.len(),
{
    if s.len() >= pat.len() {
        if s.take(pat.len() as int) == pat {
            law_replace_by_itself(s.skip(pat.len() as int), pat);
            assert(s.take(pat.len() as int) + s.skip(pat.len() as int) == s);
        } else {
            law_replace_by_itself(s.drop_first(), pat);
            assert(seq![s[0]] + s.drop_first() == s);
        }
    }
}

/// A header value that does not mention the upstream base URL passes unchanged.
pub proof fn law_header_without_upstream_unchanged(c: AppConfig, value: Seq<char>)
    requires
        upstream_base(c).len() > 0,
        !occurs_in(value, upstream_base(c)),
    ensures
        rewritten_header(c, value) == value,
{
    law_replace_absent(value, upstream_base(c), public_base(c));
}

/// When the public base URL is the upstream one, header values pass unchanged.
pub proof fn law_header_same_base_unchanged(c: AppConfig, value: Seq<char>)
    requires
        upstream_base(c).len() > 0,
        upstream_base(c) == public_base(c),
    ensures
        rewritten_header(c, value) == value,
{
    law_replace_by_itself(value, upstream_base(c));
}

/// An SSE chunk of valid UTF-8 whose text mentions neither the upstream
/// base URL nor a relative `/message` endpoint goes out byte for byte.
pub proof fn law_sse_chunk_without_urls_unchanged(bytes: Seq<u8>, upstream: Seq<char>, public: Seq<char>)
    requires
        valid_utf8(bytes),
        upstream.len() > 0,
        !occurs_in(decode_utf8(bytes), upstream),
        !occurs_in(decode_utf8(bytes), "data: /message"@),
        !occurs_in(decode_utf8(bytes), "data:/message"@),
    ensures
        encode_utf8(sse_rewrite(decode_utf8(bytes), upstream, public)) == bytes,
{
    let t = decode_utf8(bytes);
    reveal_strlit("data: /message");
    reveal_strlit("data:/message");
    law_replace_absent(t, upstream, public);
    law_replace_absent(t, "data: /message"@, "data: "@ + public + "/message"@);
    law_replace_absent(t, "data:/message"@, "data:"@ + public + "/message"@);
    decode_utf8_encode_utf8(bytes);
}

/// Every accepted transport name is already canonical: normalizing twice
/// is normalizing once.
pub proof fn law_normalize_idempotent(value: Seq<char>)
    ensures
        normalized_transport(value) matches Ok(name) ==> normalized_transport(name) == Ok::<
            Seq<char>,
            Seq<char>,
        >(name),
{
    reveal_strlit("sse");
    reveal_strlit("streamable-http");
    reveal_strlit("stream");
    reveal_strlit("streamable");
    reveal_strlit("streamable_http");
    let a = "sse"@;
    let b = "streamable-http"@;
    reveal_with_fuel(crate::text::trim_start, 2);
    reveal_with_fuel(crate::text::trim_end, 2);
    assert(crate::text::trim(a) == a);
    assert(crate::text::trim(b) == b);
    assert(lower_seq(a) =~= a);
    assert(lower_seq(b) =~= b);
}

/// The tray's toggle entry stops a running proxy and starts a stopped one.
pub proof fn law_tray_toggle_flips(running: bool)
    ensures
        tray_action_of("toggle"@, running) == (if running {
            TrayAction::StopProxy
        } else {
            TrayAction::StartProxy
        }),
{
    reveal_strlit("show");
    reveal_strlit("toggle");
    assert("toggle"@[0] != "show"@[0]);
    assert("toggle"@ != "show"@);
}

/// The recent-log buffer after pushing `lines` one by one onto `buffer`,
/// each push keeping only the newest `RECENT_LOG_LIMIT` lines, as
/// `RecentLogs::push` does.
pub open spec fn push_each(buffer: Seq<Seq<char>>, lines: Seq<Seq<char>>) -> Seq<Seq<char>>
    decreases lines.len(),
{
    if lines.len() == 0 {
        buffer
    } else {
        push_each(keep_last(buffer.push(lines[0]), RECENT_LOG_LIMIT as nat), lines.drop_first())
    }
}

proof fn lemma_keep_last_push(s: Seq<Seq<char>>, x: Seq<char>, n: nat)
    ensures
        keep_last(keep_last(s, n).push(x), n) == keep_last(s.push(x), n),
{
    if s.len() > n {
        let t = s.skip(s.len() - n);
        assert(keep_last(t.push(x), n) =~= keep_last(s.push(x), n));
    }
}

proof fn lemma_push_each(s: Seq<Seq<char>>, lines: Seq<Seq<char>>)
    ensures
        push_each(keep_last(s, RECENT_LOG_LIMIT as nat), lines) == keep_last(s + lines, RECENT_LOG_LIMIT as nat),
    decreases lines.len(),
{
    let n = RECENT_LOG_LIMIT as nat;
    if lines.len() == 0 {
        assert(s + lines =~= s);
        if s.len() > n {
            assert(keep_last(keep_last(s, n), n) =~= keep_last(s, n));
        }
    } else {
        lemma_keep_last_push(s, lines[0], n);
        lemma_push_each(s.push(lines[0]), lines.drop_first());
        assert(s.push(lines[0]) + lines.drop_first() =~= s + lines);
    }
}

/// Whatever lines are logged, in whatever number, the buffer that starts
/// empty holds after every write exactly the newest `RECENT_LOG_LIMIT` of
/// them in the order they were written, never more, the latest last.
pub proof fn law_recent_logs_keep_newest(lines: Seq<Seq<char>>)
    ensures
        push_each(Seq::empty(), lines) == keep_last(lines, RECENT_LOG_LIMIT as nat),
        push_each(Seq::empty(), lines).len() <= RECENT_LOG_LIMIT,
        lines.len() > 0 ==> push_each(Seq::empty(), lines).last() == lines.last(),
{
    let e = Seq::<Seq<char>>::empty();
    assert(keep_last(e, RECENT_LOG_LIMIT as nat) == e);
    lemma_push_each(e, lines);
    assert(e + lines =~= lines);
}

} // verus!
