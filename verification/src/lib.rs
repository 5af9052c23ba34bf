mod outside;

pub mod config;
pub mod control;
pub mod error;
pub mod headers;
pub mod laws;
pub mod logs;
pub mod paths;
pub mod probe;
pub mod proxy;
pub mod rewrite;
pub mod status;
pub mod text;
pub mod transport;
pub mod urls;

pub use outside::{
    appended, bytes_contents, ends_open, path_text, plainly_relative, status_reason, url_error_message,
    url_parse_failure, url_parses, utf8_lossy, verbatim_like, windows_prefixed,
};
