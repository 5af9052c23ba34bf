use vstd::prelude::*;
use vstd::string::*;

verus! {

/// Why the proxy refused a configuration, a request or a command.
#[derive(Debug)]
pub enum ProxyError {
    /// `upstream_base_url` is not a URL; `cause` is the URL parser's message.
    InvalidUpstreamUrl { cause: String },
    /// `listen_host` is not an IP address; `cause` is the address parser's message.
    InvalidListenHost { cause: String },
    /// `listen_port` or `public_port` is 0.
    ZeroPort,
    /// Both transports are switched off.
    NoTransportEnabled,
    /// A request for the SSE transport while it is switched off.
    SseDisabled,
    /// A request for the Streamable HTTP transport while it is switched off.
    StreamableHttpDisabled,
    /// A transport name that is none of the known spellings; `value` is the
    /// name after trimming and lower-casing.
    UnsupportedTransport { value: String },
}

/// The message of an error, its cause (if any) after a colon.
pub open spec fn error_text(e: ProxyError) -> Seq<char> {
    match e {
        ProxyError::InvalidUpstreamUrl { cause } => "upstream_base_url must be a valid URL: "@ + cause@,
        ProxyError::InvalidListenHost { cause } => "listen_host must be an IP address: "@ + cause@,
        ProxyError::ZeroPort => "ports must be greater than 0"@,
        ProxyError::NoTransportEnabled => "at least one transport must be enabled"@,
        ProxyError::SseDisabled => "SSE transport is disabled"@,
        ProxyError::StreamableHttpDisabled => "Streamable HTTP transport is disabled"@,
        ProxyError::UnsupportedTransport { value } => "unsupported transport: "@ + value@,
    }
}

impl ProxyError {
    /// The message of the error, its cause (if any) after a colon.
    pub fn message(&self) -> (r: String)
        ensures
            r@ == error_text(*self),
    {
        match self {
            ProxyError::InvalidUpstreamUrl { cause } => {
                let mut s = "upstream_base_url must be a valid URL: ".to_owned();
                s.append(cause.as_str());
                s
            },
            ProxyError::InvalidListenHost { cause } => {
                let mut s = "listen_host must be an IP address: ".to_owned();
                s.append(cause.as_str());
                s
            },
            ProxyError::ZeroPort => "ports must be greater than 0".to_owned(),
            ProxyError::NoTransportEnabled => "at least one transport must be enabled".to_owned(),
            ProxyError::SseDisabled => "SSE transport is disabled".to_owned(),
            ProxyError::StreamableHttpDisabled => "Streamable HTTP transport is disabled".to_owned(),
            ProxyError::UnsupportedTransport { value } => {
                let mut s = "unsupported transport: ".to_owned();
                s.append(value.as_str());
                s
            },
        }
    }
}

/// The text of an error as the user interface shows it.
pub fn stringify_error(error: ProxyError) -> (r: String)
    ensures
        r@ == error_text(error),
{
    error.message()
}

} // verus!
