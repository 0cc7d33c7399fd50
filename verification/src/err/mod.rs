//! The error taxonomy shared by all decoders.

pub mod ip_auth;
pub mod ip_exts;
pub mod ipv6_exts;
pub mod layer;
pub mod len_error;
pub mod link;
pub mod text;

pub use crate::err::layer::Layer;
pub use crate::err::len_error::LenError;
