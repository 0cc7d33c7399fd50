use vstd::prelude::*;

use crate::err::len_error::LenError;

verus! {

/// Error when decoding the link layer of a frame.
///
/// Every value of a header field is accepted once enough bytes are there,
/// so a lack of bytes is the only thing that can go wrong.
#[derive(Clone, Copy, Debug, PartialEq, Eq, Hash, Structural)]
pub enum LinkError {
    /// Not enough bytes for a header of the link layer.
    Len(LenError),
}

impl LinkError {
    /// The length error that this error holds.
    pub open spec fn spec_len_error(&self) -> LenError {
        match *self {
            LinkError::Len(err) => err,
        }
    }

    /// The message of the error, which is the message of the error that it
    /// holds.
    pub open spec fn spec_message(&self) -> Seq<char> {
        self.spec_len_error().spec_message()
    }

    /// The message of the error, in one line. It is the message of the
    /// error that it holds.
    pub fn message(&self) -> (message: String)
        ensures
            message@ == self.spec_message(),
    {
        match self {
            LinkError::Len(err) => err.message(),
        }
    }

    /// Returns the [`LenError`] that this error holds.
    pub fn len_error(&self) -> (found: &LenError)
        ensures
            *found == self.spec_len_error(),
    {
        match self {
            LinkError::Len(err) => err,
        }
    }
}

} // verus!
