//! Errors of the IP authentication header.

pub mod header_error;

pub use crate::err::ip_auth::header_error::HeaderError;
