//! Strict, zero-copy decoding of link-layer framing and of chains of
//! network-layer extension headers.
//!
//! Every decoder reads through a [`ByteView`], a bounds-checked window into
//! the caller's buffer, and either returns typed views of the headers it
//! found or the error that says which layer lacked bytes or broke a rule.
//! Nothing is copied and nothing is guessed: the first error ends the
//! decoding.

pub mod byte_view;
pub mod err;
pub mod len_source;
pub mod link;
pub mod net;

pub use crate::byte_view::{ByteView, Span};
pub use crate::err::{Layer, LenError};
pub use crate::len_source::LenSource;
pub use crate::link::{LinkKind, LinkSlice, LinkType};
pub use crate::net::{ExtensionHeaderSlice, HeaderChain};
