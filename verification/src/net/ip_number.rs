use vstd::prelude::*;

use crate::err::Layer;

verus! {

/// IPv6 hop-by-hop options header.
pub const IPV6_HOP_BY_HOP: u8 = 0;

/// Transmission control protocol.
pub const TCP: u8 = 6;

/// User datagram protocol.
pub const UDP: u8 = 17;

/// IPv6 routing header.
pub const IPV6_ROUTE: u8 = 43;

/// IPv6 fragment header.
pub const IPV6_FRAG: u8 = 44;

/// IP authentication header.
pub const AUTH: u8 = 51;

/// ICMP for IPv6.
pub const IPV6_ICMP: u8 = 58;

/// No next header follows.
pub const IPV6_NO_NEXT_HEADER: u8 = 59;

/// IPv6 destination options header.
pub const IPV6_DEST_OPTIONS: u8 = 60;

/// Whether a header type number stands for an extension header that the
/// chain decoder walks over. Every other number ends a chain.
pub open spec fn spec_is_extension_header(header_type: u8) -> bool {
    header_type == IPV6_HOP_BY_HOP || header_type == IPV6_ROUTE || header_type == IPV6_FRAG
        || header_type == AUTH || header_type == IPV6_DEST_OPTIONS
}

/// Whether a header type number stands for an extension header that the
/// chain decoder walks over.
#[verifier::when_used_as_spec(spec_is_extension_header)]
pub fn is_extension_header(header_type: u8) -> (known: bool)
    ensures
        known == spec_is_extension_header(header_type),
{
    header_type == IPV6_HOP_BY_HOP || header_type == IPV6_ROUTE || header_type == IPV6_FRAG
        || header_type == AUTH || header_type == IPV6_DEST_OPTIONS
}

/// The layer that errors about a header of the given type name.
pub open spec fn spec_extension_layer(header_type: u8) -> Layer {
    if header_type == IPV6_HOP_BY_HOP {
        Layer::Ipv6HopByHopHeader
    } else if header_type == IPV6_ROUTE {
        Layer::Ipv6RouteHeader
    } else if header_type == IPV6_FRAG {
        Layer::Ipv6FragHeader
    } else if header_type == AUTH {
        Layer::IpAuthHeader
    } else if header_type == IPV6_DEST_OPTIONS {
        Layer::Ipv6DestOptionsHeader
    } else {
        Layer::Ipv6ExtHeader
    }
}

/// The layer that errors about a header of the given type name.
#[verifier::when_used_as_spec(spec_extension_layer)]
pub fn extension_layer(header_type: u8) -> (layer: Layer)
    ensures
        layer == spec_extension_layer(header_type),
{
    if header_type == IPV6_HOP_BY_HOP {
        Layer::Ipv6HopByHopHeader
    } else if header_type == IPV6_ROUTE {
        Layer::Ipv6RouteHeader
    } else if header_type == IPV6_FRAG {
        Layer::Ipv6FragHeader
    } else if header_type == AUTH {
        Layer::IpAuthHeader
    } else if header_type == IPV6_DEST_OPTIONS {
        Layer::Ipv6DestOptionsHeader
    } else {
        Layer::Ipv6ExtHeader
    }
}

} // verus!
