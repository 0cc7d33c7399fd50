use vstd::prelude::*;

use crate::err::ipv6_exts;

verus! {

/// A violation in the content or the order of extension headers, as opposed
/// to a lack of bytes. There is one variant for each family of headers.
#[derive(Clone, Copy, Debug, PartialEq, Eq, Hash, Structural)]
pub enum HeaderError {
    /// Error in the IPv6 extension headers.
    Ipv6Ext(ipv6_exts::HeaderError),
}

impl HeaderError {
    /// The message of the error, in one line.
    pub open spec fn spec_message(&self) -> Seq<char> {
        match *self {
            HeaderError::Ipv6Ext(err) => err.spec_message(),
        }
    }

    /// The message of the error, in one line.
    pub fn message(&self) -> (message: String)
        ensures
            message@ == self.spec_message(),
    {
        match self {
            HeaderError::Ipv6Ext(err) => err.message(),
        }
    }
}

} // verus!
