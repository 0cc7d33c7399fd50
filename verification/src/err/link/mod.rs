//! Errors of decoding the link layer.

pub mod link_error;

pub use crate::err::link::link_error::LinkError;
