use vstd::prelude::*;
use vstd::utf8::*;

verus! {

/// What `url::Url::parse` says of a text: `None` when it accepts it (the
/// WHATWG URL grammar), else the `Display` message of its `ParseError`.
pub uninterp spec fn url_parse_failure(text: Seq<char>) -> Option<Seq<char>>;

/// Whether `url::Url::parse` accepts the text.
pub open spec fn url_parses(text: Seq<char>) -> bool {
    url_parse_failure(text) is None
}

/// The messages that `url::ParseError`'s `Display` writes: a fixed table,
/// one per variant.
pub open spec fn url_error_message(m: Seq<char>) -> bool {
    ||| m == "empty host"@
    ||| m == "invalid international domain name"@
    ||| m == "invalid port number"@
    ||| m == "invalid IPv4 address"@
    ||| m == "invalid IPv6 address"@
    ||| m == "invalid domain character"@
    ||| m == "relative URL without a base"@
    ||| m == "relative URL with a cannot-be-a-base base"@
    ||| m == "a cannot-be-a-base URL doesn\u{2019}t have a host to set"@
    ||| m == "URLs more than 4 GB are not supported"@
}

/// Calls `url::Url::parse` (through `str::parse`) and gives `None` when it
/// succeeds, else the `Display` text of its error: exactly
/// `url_parse_failure` of the text, and one of the crate's fixed messages.
#[verifier::external_body]
pub(crate) fn url_parse_error(text: &str) -> (r: Option<String>)
    ensures
        match r {
            None => url_parse_failure(text@) is None,
            Some(m) => url_parse_failure(text@) == Some(m@) && url_error_message(m@),
        },
{
    match text.parse::<url::Url>() {
        Ok(_) => None,
        Err(e) => Some(format!("{}", e)),
    }
}

/// Appends one character to a string (`String::push`).
#[verifier::external_body]
pub(crate) fn push_char(s: &mut String, c: char)
    ensures
        final(s)@ == old(s)@.push(c),
{
    s.push(c)
}

/// `bytes::Bytes`, an immutable byte buffer of the `bytes` crate.
#[verifier::external_type_specification]
#[verifier::external_body]
pub struct ExBytes(bytes::Bytes);

/// The bytes that a `bytes::Bytes` holds, in order.
pub uninterp spec fn bytes_contents(b: bytes::Bytes) -> Seq<u8>;

/// Copies the contents of a `bytes::Bytes` out (`<[u8]>::to_vec` through
/// `Deref`): the vector holds exactly its bytes.
#[verifier::external_body]
pub(crate) fn bytes_to_vec(b: &bytes::Bytes) -> (r: Vec<u8>)
    ensures
        r@ == bytes_contents(*b),
{
    b.to_vec()
}

/// `bytes::Bytes::from(String)`: the buffer holds the UTF-8 encoding of the
/// string (the crate builds it from `String::into_bytes`).
#[verifier::external_body]
pub(crate) fn bytes_from_string(s: String) -> (r: bytes::Bytes)
    ensures
        bytes_contents(r) == encode_utf8(s@),
{
    bytes::Bytes::from(s)
}

/// What `String::from_utf8_lossy` makes of a byte sequence: its text, each
/// invalid UTF-8 sequence replaced by U+FFFD.
pub uninterp spec fn utf8_lossy(bytes: Seq<u8>) -> Seq<char>;

/// Calls `String::from_utf8_lossy`: the result is `utf8_lossy` of the
/// bytes, and for valid UTF-8 it is the decoded text itself, as the
/// standard library documents.
#[verifier::external_body]
pub(crate) fn decode_utf8_lossy(v: &[u8]) -> (r: String)
    ensures
        r@ == utf8_lossy(v@),
        valid_utf8(v@) ==> r@ == decode_utf8(v@),
{
    String::from_utf8_lossy(v).into_owned()
}

/// The canonical reason phrase that the `http` crate (through
/// `reqwest::StatusCode`) gives a status code, if any.
pub uninterp spec fn status_reason(code: u16) -> Option<Seq<char>>;

/// Calls `reqwest::StatusCode::from_u16` and `canonical_reason`: the result
/// is `status_reason` of the code (`None` also for codes outside 100..=999,
/// which `from_u16` refuses).
#[verifier::external_body]
pub(crate) fn canonical_reason(code: u16) -> (r: Option<&'static str>)
    ensures
        match r {
            Some(t) => status_reason(code) == Some(t@),
            None => status_reason(code) is None,
        },
{
    match reqwest::StatusCode::from_u16(code) {
        Ok(status) => status.canonical_reason(),
        Err(_) => None,
    }
}

/// `std::path::PathBuf`, carried through opaquely.
#[verifier::external_type_specification]
#[verifier::external_body]
pub struct ExPathBuf(std::path::PathBuf);

/// The text that a `std::path::PathBuf` holds.
pub uninterp spec fn path_text(p: std::path::PathBuf) -> Seq<char>;

/// A path text that has no leading separator and no drive prefix: it has
/// neither the root that makes a path absolute on Unix nor the prefix that
/// Windows needs as well, so it is relative on every platform.
pub open spec fn plainly_relative(t: Seq<char>) -> bool {
    t.len() == 0 || (t[0] != '/' && t[0] != '\\' && !(t.len() > 1 && t[1] == ':'))
}

/// A base path with a Windows verbatim prefix (`\\?\`, or written with `/`):
/// joining onto such a base normalizes the result.
pub open spec fn verbatim_like(base: Seq<char>) -> bool {
    base.len() >= 3 && (base[0] == '/' || base[0] == '\\') && (base[1] == '/' || base[1] == '\\')
        && base[2] == '?'
}

/// Whether the base ends in a character after which joining needs no
/// separator on some platform: `/`, `\` or the `:` of a drive.
pub open spec fn ends_open(base: Seq<char>) -> bool {
    base.len() > 0 && (base.last() == '/' || base.last() == '\\' || base.last() == ':')
}

/// `joined` is `base` with `name` appended, with or without one separator
/// between them (`/` or `\`, as the platform writes it); when `base` is not
/// empty and does not end in `/`, `\` or `:`, with exactly one separator,
/// and when `base` is empty, `name` alone.
pub open spec fn appended(base: Seq<char>, name: Seq<char>, joined: Seq<char>) -> bool {
    &&& (joined == base + name || joined == base + seq!['/'] + name || joined == base + seq!['\\']
        + name)
    &&& (base.len() > 0 && !ends_open(base)) ==> (joined == base + seq!['/'] + name || joined == base
        + seq!['\\'] + name)
    &&& base.len() == 0 ==> joined == name
}

/// A path text that begins with a Windows prefix: two separators (a UNC or
/// verbatim prefix) or a drive letter's colon in second place.
pub open spec fn windows_prefixed(t: Seq<char>) -> bool {
    (t.len() >= 2 && (t[0] == '/' || t[0] == '\\') && (t[1] == '/' || t[1] == '\\')) || (t.len() > 1
        && t[1] == ':')
}

/// `std::path::PathBuf::from(&str)`: the buffer holds the given text.
#[verifier::external_body]
pub(crate) fn path_from_str(path: &str) -> (r: std::path::PathBuf)
    ensures
        path_text(r) == path@,
{
    std::path::PathBuf::from(path)
}

/// `std::path::Path::is_absolute`. The answer depends on the platform; what
/// holds on every one is that a plainly relative text is not absolute.
#[verifier::external_body]
pub(crate) fn path_is_absolute(path: &std::path::PathBuf) -> (r: bool)
    ensures
        plainly_relative(path_text(*path)) ==> !r,
{
    path.is_absolute()
}

/// `std::path::Path::join`, which defers to `PathBuf::push`. How the
/// platform joins is left open; what holds on every one is that a relative
/// path is appended to the base, with a separator when the base needs one
/// (`PathBuf::push`: "if path is relative, appends path to self"). This is
/// stated for plainly relative, non-empty paths onto bases without a
/// verbatim prefix (onto those, `push` normalizes the whole result). A path
/// that begins with `/`, joined onto a base without a Windows prefix, comes
/// back as it is: on Unix it is absolute and replaces the base; on Windows
/// it has a root, and replaces all of the base but its prefix, which is
/// empty. Other joins are not stated.
#[verifier::external_body]
pub(crate) fn path_join(base: &std::path::PathBuf, path: &std::path::PathBuf) -> (r: std::path::PathBuf)
    ensures
        plainly_relative(path_text(*path)) && path_text(*path).len() > 0 && !verbatim_like(
            path_text(*base),
        ) ==> appended(path_text(*base), path_text(*path), path_text(r)),
        path_text(*path).len() > 0 && path_text(*path)[0] == '/' && !windows_prefixed(
            path_text(*base),
        ) ==> path_text(r) == path_text(*path),
{
    base.join(path)
}

} // verus!
