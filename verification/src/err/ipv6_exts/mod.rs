//! Errors of IPv6 extension headers.

pub mod header_error;

pub use crate::err::ipv6_exts::header_error::HeaderError;
