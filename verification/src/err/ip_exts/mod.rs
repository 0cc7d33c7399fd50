//! Errors of decoding a chain of IP extension headers.

pub mod header_error;
pub mod headers_slice_error;

pub use crate::err::ip_exts::header_error::HeaderError;
pub use crate::err::ip_exts::headers_slice_error::HeadersSliceError;
