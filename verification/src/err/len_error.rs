use vstd::prelude::*;
use vstd::string::StringExecFns;

use crate::err::text::{decimal, spec_decimal};
use crate::err::Layer;
use crate::len_source::LenSource;

verus! {

/// Not enough bytes were available to decode a layer.
///
/// `required_len` and `len` are counted from the first byte of the layer,
/// while `layer_start_offset` says where in the whole buffer that byte lies.
#[derive(Clone, Copy, Debug, PartialEq, Eq, Hash, Structural)]
pub struct LenError {
    /// Number of bytes that the layer needs.
    pub required_len: usize,
    /// Number of bytes that were available for the layer.
    pub len: usize,
    /// What limited `len`.
    pub len_source: LenSource,
    /// The layer that could not be decoded.
    pub layer: Layer,
    /// Offset of the first byte of the layer in the buffer that was decoded.
    pub layer_start_offset: usize,
}

impl LenError {
    /// An error describes a real shortfall when more bytes were required
    /// than were available. Every error that a decoder of this crate
    /// returns is a shortfall.
    pub open spec fn is_shortfall(&self) -> bool {
        self.required_len > self.len
    }

    /// The same error about a layer that starts `offset` bytes later.
    pub open spec fn spec_add_offset(self, offset: nat) -> LenError {
        LenError {
            required_len: self.required_len,
            len: self.len,
            len_source: self.len_source,
            layer: self.layer,
            layer_start_offset: (self.layer_start_offset + offset) as usize,
        }
    }

    /// Moves the error into a buffer in which the decoded bytes start
    /// `offset` bytes later. The lengths stay as they are.
    pub fn add_offset(self, offset: usize) -> (moved: LenError)
        requires
            self.layer_start_offset + offset <= usize::MAX,
        ensures
            moved == self.spec_add_offset(offset as nat),
            moved.is_shortfall() == self.is_shortfall(),
    {
        LenError {
            required_len: self.required_len,
            len: self.len,
            len_source: self.len_source,
            layer: self.layer,
            layer_start_offset: self.layer_start_offset + offset,
        }
    }

    /// The message of the error: one line that names the layer, the two
    /// lengths, what limited the bytes and where the layer starts.
    pub open spec fn spec_message(&self) -> Seq<char> {
        self.layer.spec_name() + ": not enough data, "@ + spec_decimal(self.required_len as nat)
            + " byte(s) are required but only "@ + spec_decimal(self.len as nat)
            + " byte(s) are available based on the "@ + self.len_source.spec_name()
            + " (the layer starts at byte "@ + spec_decimal(self.layer_start_offset as nat) + ")"@
    }

    /// The message of the error: one line that names the layer, the two
    /// lengths, what limited the bytes and where the layer starts.
    pub fn message(&self) -> (message: String)
        ensures
            message@ == self.spec_message(),
    {
        let mut message = String::from_str(self.layer.name());
        message.append(": not enough data, ");
        message.append(decimal(self.required_len).as_str());
        message.append(" byte(s) are required but only ");
        message.append(decimal(self.len).as_str());
        message.append(" byte(s) are available based on the ");
        message.append(self.len_source.name());
        message.append(" (the layer starts at byte ");
        message.append(decimal(self.layer_start_offset).as_str());
        message.append(")");
        message
    }
}

} // verus!
