//! Decoding of chains of network-layer extension headers.

pub mod extension_header_slice;
pub mod header_chain;
pub mod ip_number;

pub use crate::net::extension_header_slice::{ExtensionHeaderSlice, HeaderModel};
pub use crate::net::header_chain::{ChainModel, HeaderChain};
