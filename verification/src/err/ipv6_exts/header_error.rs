use vstd::prelude::*;
use vstd::string::StringExecFns;

use crate::err::ip_auth;
use crate::err::text::{decimal, spec_decimal};

verus! {

/// What can be wrong with the content of a chain of IPv6 extension headers.
#[derive(Clone, Copy, Debug, PartialEq, Eq, Hash, Structural)]
pub enum HeaderError {
    /// A hop-by-hop options header was found behind another extension
    /// header. It is only allowed as the first header of a chain.
    HopByHopNotAtStart,
    /// The content of an authentication header is malformed.
    IpAuth(ip_auth::HeaderError),
    /// A header was to be decoded as an extension header, but the given
    /// header type number is not one of an extension header.
    UnsupportedHeaderType(u8),
}

impl HeaderError {
    /// The message of the error, in one line.
    pub open spec fn spec_message(&self) -> Seq<char> {
        match *self {
            HeaderError::HopByHopNotAtStart =>
                "IPv6 extension headers: a hop-by-hop options header is only allowed as the first extension header"@,
            HeaderError::IpAuth(err) => err.spec_message(),
            HeaderError::UnsupportedHeaderType(header_type) => "IPv6 extension headers: "@
                + spec_decimal(header_type as nat) + " is not the type of an extension header"@,
        }
    }

    /// The message of the error, in one line.
    pub fn message(&self) -> (message: String)
        ensures
            message@ == self.spec_message(),
    {
        match self {
            HeaderError::HopByHopNotAtStart => String::from_str(
                "IPv6 extension headers: a hop-by-hop options header is only allowed as the first extension header",
            ),
            HeaderError::IpAuth(err) => err.message(),
            HeaderError::UnsupportedHeaderType(header_type) => {
                let mut message = String::from_str("IPv6 extension headers: ");
                message.append(decimal(*header_type as usize).as_str());
                message.append(" is not the type of an extension header");
                message
            },
        }
    }
}

} // verus!
