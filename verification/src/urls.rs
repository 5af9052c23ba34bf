use vstd::prelude::*;
use vstd::string::*;

use crate::config::AppConfig;
use crate::text::{chars_of, decimal, decimal_chars, string_of, trim_end_char, trim_end_char_chars};

verus! {

/// `s` when it starts with `/`, else `s` with `/` put before it.
pub open spec fn with_leading_slash(s: Seq<char>) -> Seq<char> {
    if s.len() > 0 && s[0] == '/' {
        s
    } else {
        seq!['/'] + s
    }
}

/// The upstream base URL without its trailing slashes.
pub open spec fn upstream_base(c: AppConfig) -> Seq<char> {
    trim_end_char(c.upstream_base_url@, '/')
}

/// The upstream URL of a path (and query).
pub open spec fn upstream_url_of(c: AppConfig, path_and_query: Seq<char>) -> Seq<char> {
    upstream_base(c) + with_leading_slash(path_and_query)
}

/// `http://<public_host>:<public_port>`.
pub open spec fn public_base(c: AppConfig) -> Seq<char> {
    "http://"@ + c.public_host@ + ":"@ + decimal(c.public_port as nat)
}

/// The URL under which clients reach a path of the proxy.
pub open spec fn public_url_of(c: AppConfig, path: Seq<char>) -> Seq<char> {
    public_base(c) + with_leading_slash(path)
}

/// The URL of a path of the proxy on the loopback address.
pub open spec fn local_proxy_url_of(c: AppConfig, path: Seq<char>) -> Seq<char> {
    "http://127.0.0.1:"@ + decimal(c.listen_port as nat) + with_leading_slash(path)
}

/// `http://<listen_host>:<listen_port>`.
pub open spec fn bind_url_of(c: AppConfig) -> Seq<char> {
    "http://"@ + c.listen_host@ + ":"@ + decimal(c.listen_port as nat)
}

/// The decimal text of a port number.
pub fn port_text(port: u16) -> (r: String)
    ensures
        r@ == decimal(port as nat),
{
    let digits = decimal_chars(port as u32);
    string_of(&digits)
}

/// `value`, with a `/` put before it unless it starts with one.
pub fn ensure_leading_slash(value: &str) -> (r: String)
    ensures
        r@ == with_leading_slash(value@),
{
    let v = chars_of(value);
    if v.len() > 0 && v[0] == '/' {
        value.to_owned()
    } else {
        let mut s = "/".to_owned();
        proof {
            reveal_strlit("/");
        }
        s.append(value);
        s
    }
}

/// The upstream base URL without its trailing slashes.
pub fn upstream_base_url(config: &AppConfig) -> (r: String)
    ensures
        r@ == upstream_base(*config),
{
    let v = chars_of(config.upstream_base_url.as_str());
    let t = trim_end_char_chars(&v, '/');
    string_of(&t)
}

/// The upstream URL of a path (and query).
pub fn upstream_url(config: &AppConfig, path_and_query: &str) -> (r: String)
    ensures
        r@ == upstream_url_of(*config, path_and_query@),
{
    let mut s = upstream_base_url(config);
    let p = ensure_leading_slash(path_and_query);
    s.append(p.as_str());
    s
}

/// `http://<public_host>:<public_port>`.
pub fn public_base_url(config: &AppConfig) -> (r: String)
    ensures
        r@ == public_base(*config),
{
    let mut s = "http://".to_owned();
    s.append(config.public_host.as_str());
    s.append(":");
    let port = port_text(config.public_port);
    s.append(port.as_str());
    s
}

/// The URL under which clients reach a path of the proxy.
pub fn public_url(config: &AppConfig, path: &str) -> (r: String)
    ensures
        r@ == public_url_of(*config, path@),
{
    let mut s = public_base_url(config);
    let p = ensure_leading_slash(path);
    s.append(p.as_str());
    s
}

/// The URL of a path of the proxy on the loopback address.
pub fn local_proxy_url(config: &AppConfig, path: &str) -> (r: String)
    ensures
        r@ == local_proxy_url_of(*config, path@),
{
    let mut s = "http://127.0.0.1:".to_owned();
    let port = port_text(config.listen_port);
    s.append(port.as_str());
    let p = ensure_leading_slash(path);
    s.append(p.as_str());
    s
}

/// `http://<listen_host>:<listen_port>`.
pub fn bind_url(config: &AppConfig) -> (r: String)
    ensures
        r@ == bind_url_of(*config),
{
    let mut s = "http://".to_owned();
    s.append(config.listen_host.as_str());
    s.append(":");
    let port = port_text(config.listen_port);
    s.append(port.as_str());
    s
}

} // verus!
