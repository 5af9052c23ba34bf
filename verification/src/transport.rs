use vstd::prelude::*;

use crate::config::AppConfig;
use crate::error::ProxyError;
use crate::text::{
    before_char, before_char_chars, chars_eq, chars_of, lower_chars, lower_seq, starts_with_chars,
    string_of, trim, trim_chars,
};

verus! {

/// The path of a request target: what comes before the first `?`.
pub open spec fn request_path(path_and_query: Seq<char>) -> Seq<char> {
    before_char(path_and_query, '?')
}

/// Paths of the legacy SSE transport: `/sse` and everything under `/message`.
pub open spec fn is_sse_path(path: Seq<char>) -> bool {
    path == "/sse"@ || "/message"@.is_prefix_of(path)
}

/// The path of the Streamable HTTP transport.
pub open spec fn is_stream_path(path: Seq<char>) -> bool {
    path == "/stream"@
}

/// The outcome of checking a request target against the enabled transports.
pub open spec fn transport_check(c: AppConfig, path_and_query: Seq<char>) -> Result<(), ProxyError> {
    let path = request_path(path_and_query);
    if is_sse_path(path) && !c.enable_sse {
        Err(ProxyError::SseDisabled)
    } else if is_stream_path(path) && !c.enable_streamable_http {
        Err(ProxyError::StreamableHttpDisabled)
    } else {
        Ok(())
    }
}

/// Refuses a request whose path belongs to a transport that is switched off.
pub fn ensure_transport_enabled(config: &AppConfig, path_and_query: &str) -> (r: Result<(), ProxyError>)
    ensures
        r == transport_check(*config, path_and_query@),
{
    let pq = chars_of(path_and_query);
    let path = before_char_chars(&pq, '?');
    let sse = chars_of("/sse");
    let message = chars_of("/message");
    let stream = chars_of("/stream");
    let sse_path = chars_eq(&path, &sse) || starts_with_chars(&path, &message);
    if sse_path && !config.enable_sse {
        return Err(ProxyError::SseDisabled);
    }
    if chars_eq(&path, &stream) && !config.enable_streamable_http {
        return Err(ProxyError::StreamableHttpDisabled);
    }
    Ok(())
}

/// A transport name after trimming white space and lower-casing ASCII letters.
pub open spec fn transport_key(value: Seq<char>) -> Seq<char> {
    lower_seq(trim(value))
}

/// The spellings that name the Streamable HTTP transport.
pub open spec fn is_stream_alias(key: Seq<char>) -> bool {
    key == "stream"@ || key == "streamable"@ || key == "streamable-http"@ || key == "streamable_http"@
}

/// The canonical name of a transport, or the error for an unknown one.
pub open spec fn normalized_transport(value: Seq<char>) -> Result<Seq<char>, Seq<char>> {
    let key = transport_key(value);
    if key == "sse"@ {
        Ok("sse"@)
    } else if is_stream_alias(key) {
        Ok("streamable-http"@)
    } else {
        Err(key)
    }
}

/// The canonical name of a transport: `sse` or `streamable-http`.
pub fn normalize_transport(value: &str) -> (r: Result<String, ProxyError>)
    ensures
        r is Ok <==> normalized_transport(value@) is Ok,
        r matches Ok(name) ==> normalized_transport(value@) == Ok::<Seq<char>, Seq<char>>(name@),
        r matches Err(e) ==> e matches ProxyError::UnsupportedTransport { value: key } && Err::<
            Seq<char>,
            Seq<char>,
        >(key@) == normalized_transport(value@),
{
    let v = chars_of(value);
    let trimmed = trim_chars(&v);
    let key = lower_chars(&trimmed);
    if chars_eq(&key, &chars_of("sse")) {
        return Ok("sse".to_owned());
    }
    if chars_eq(&key, &chars_of("stream")) || chars_eq(&key, &chars_of("streamable")) || chars_eq(
        &key,
        &chars_of("streamable-http"),
    ) || chars_eq(&key, &chars_of("streamable_http")) {
        return Ok("streamable-http".to_owned());
    }
    Err(ProxyError::UnsupportedTransport { value: string_of(&key) })
}

} // verus!
