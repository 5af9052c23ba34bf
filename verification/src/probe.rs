use vstd::prelude::*;
use vstd::string::*;

use crate::config::AppConfig;
use crate::error::ProxyError;
use crate::outside::{canonical_reason, status_reason};
use crate::text::{decimal, decimal_chars, str_eq, string_of};
use crate::transport::{normalize_transport, normalized_transport};
use crate::urls::{local_proxy_url, local_proxy_url_of, upstream_url, upstream_url_of};

verus! {

/// The outcome of a connection test, as the window shows it.
#[derive(Debug)]
pub struct TestResult {
    pub ok: bool,
    pub status: Option<u16>,
    pub message: String,
}

/// A connection test to run: which transport, against which target, at
/// which URL, and whether to send an MCP `initialize` request by POST
/// (Streamable HTTP) rather than a plain GET (SSE).
#[derive(Debug)]
pub struct ConnectionTest {
    pub transport: String,
    pub target: String,
    pub url: String,
    pub post_initialize: bool,
}

/// The URL that a test of a transport (`sse` or `streamable-http`) against
/// a target probes: the upstream server for `upstream`, the local proxy
/// for anything else.
pub open spec fn test_url(c: AppConfig, transport: Seq<char>, target: Seq<char>) -> Seq<char> {
    let path = if transport == "sse"@ { "/sse"@ } else { "/stream"@ };
    if target == "upstream"@ {
        upstream_url_of(c, path)
    } else {
        local_proxy_url_of(c, path)
    }
}

/// Decides what a connection test probes, or refuses an unknown transport.
pub fn plan_connection_test(config: &AppConfig, transport: &str, target: &str) -> (r: Result<ConnectionTest, ProxyError>)
    ensures
        r is Ok <==> normalized_transport(transport@) is Ok,
        r matches Ok(t) ==> {
            &&& normalized_transport(transport@) == Ok::<Seq<char>, Seq<char>>(t.transport@)
            &&& t.target@ == target@
            &&& t.url@ == test_url(*config, t.transport@, target@)
            &&& t.post_initialize == (t.transport@ != "sse"@)
        },
        r matches Err(e) ==> e matches ProxyError::UnsupportedTransport { value: key } && Err::<
            Seq<char>,
            Seq<char>,
        >(key@) == normalized_transport(transport@),
{
    let name = match normalize_transport(transport) {
        Ok(name) => name,
        Err(e) => return Err(e),
    };
    let sse = str_eq(name.as_str(), "sse");
    let path = if sse { "/sse" } else { "/stream" };
    let url = if str_eq(target, "upstream") {
        upstream_url(config, path)
    } else {
        local_proxy_url(config, path)
    };
    Ok(ConnectionTest { transport: name, target: target.to_owned(), url, post_initialize: !sse })
}

/// Whether a status code is a success (200..=299), as `http` judges it.
pub open spec fn is_success_code(code: u16) -> bool {
    200 <= code && code < 300
}

/// How an HTTP status shows: `<code> <reason>`, or `<code> <unknown status code>`.
pub open spec fn status_text(code: u16, reason: Option<Seq<char>>) -> Seq<char> {
    decimal(code as nat) + " "@ + match reason {
        Some(t) => t,
        None => "<unknown status code>"@,
    }
}

/// The message of a test that got an answer.
pub open spec fn answered_message(test: ConnectionTest, code: u16, reason: Option<Seq<char>>) -> Seq<char> {
    if is_success_code(code) {
        test.transport@ + " "@ + test.target@ + " connection OK: "@ + test.url@
    } else {
        test.transport@ + " "@ + test.target@ + " returned HTTP "@ + status_text(code, reason) + ": "@
            + test.url@
    }
}

/// The result of a test answered with `code`, given the code's reason phrase.
pub fn test_result_from_reason(test: &ConnectionTest, code: u16, reason: Option<&str>) -> (r: TestResult)
    ensures
        r.ok == is_success_code(code),
        r.status == Some(code),
        r.message@ == answered_message(
            *test,
            code,
            match reason {
                Some(t) => Some(t@),
                None => None,
            },
        ),
{
    let ok = 200 <= code && code < 300;
    let mut m = test.transport.clone();
    m.append(" ");
    m.append(test.target.as_str());
    if ok {
        m.append(" connection OK: ");
    } else {
        m.append(" returned HTTP ");
        let digits = decimal_chars(code as u32);
        let code_text = string_of(&digits);
        m.append(code_text.as_str());
        m.append(" ");
        match reason {
            Some(t) => m.append(t),
            None => m.append("<unknown status code>"),
        }
        m.append(": ");
    }
    m.append(test.url.as_str());
    TestResult { ok, status: Some(code), message: m }
}

/// The result of a test answered with `code`.
pub fn test_result_for_status(test: &ConnectionTest, code: u16) -> (r: TestResult)
    ensures
        r.ok == is_success_code(code),
        r.status == Some(code),
        r.message@ == answered_message(*test, code, status_reason(code)),
{
    let reason = canonical_reason(code);
    test_result_from_reason(test, code, reason)
}

/// The result of a test whose request failed; `error` is the failure's text.
pub fn test_result_for_failure(test: &ConnectionTest, error: &str) -> (r: TestResult)
    ensures
        !r.ok,
        r.status is None,
        r.message@ == test.transport@ + " "@ + test.target@ + " failed: "@ + error@,
{
    let mut m = test.transport.clone();
    m.append(" ");
    m.append(test.target.as_str());
    m.append(" failed: ");
    m.append(error);
    TestResult { ok: false, status: None, message: m }
}

} // verus!
