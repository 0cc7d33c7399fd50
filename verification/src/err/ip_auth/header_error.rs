use vstd::prelude::*;
use vstd::string::StringExecFns;

verus! {

/// What can be wrong with the content of an IP authentication header.
#[derive(Clone, Copy, Debug, PartialEq, Eq, Hash, Structural)]
pub enum HeaderError {
    /// The payload length field is zero, which stands for a header that is
    /// shorter than the fixed part that every authentication header has.
    ZeroPayloadLen,
}

impl HeaderError {
    /// The message of the error, in one line.
    pub open spec fn spec_message(&self) -> Seq<char> {
        match *self {
            HeaderError::ZeroPayloadLen =>
                "IP authentication header: the payload length field is 0, but the header has at least 12 bytes"@,
        }
    }

    /// The message of the error, in one line.
    pub fn message(&self) -> (message: String)
        ensures
            message@ == self.spec_message(),
    {
        match self {
            HeaderError::ZeroPayloadLen => String::from_str(
                "IP authentication header: the payload length field is 0, but the header has at least 12 bytes",
            ),
        }
    }
}

} // verus!
