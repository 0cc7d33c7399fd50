use vstd::prelude::*;

use crate::byte_view::{u16_be_at, ByteView, Span};
use crate::link::ether_type::spec_is_vlan;

verus! {

/// Number of bytes of an Ethernet II header: two addresses of six bytes and
/// the ether type.
pub const ETHERNET2_HEADER_LEN: usize = 14;

/// The six bytes of a hardware address that start at index `at` of `bytes`.
pub open spec fn mac_at(bytes: Seq<u8>, at: int) -> Seq<u8> {
    bytes.subrange(at, at + 6)
}

/// Reads the hardware address whose first byte lies at index `at` of
/// `view`.
pub(crate) fn read_mac(view: &ByteView<'_>, at: usize) -> (mac: [u8; 6])
    requires
        at + 6 <= view@.len,
    ensures
        mac@ == mac_at(view@.bytes(), at as int),
{
    let mac = [
        view.byte(at),
        view.byte(at + 1),
        view.byte(at + 2),
        view.byte(at + 3),
        view.byte(at + 4),
        view.byte(at + 5),
    ];
    assert(mac@ =~= mac_at(view@.bytes(), at as int));
    mac
}

/// Whether `bytes` are a frame with an Ethernet II header that no VLAN
/// tagging header follows.
pub open spec fn is_ethernet2_frame(bytes: Seq<u8>) -> bool {
    &&& ETHERNET2_HEADER_LEN <= bytes.len() <= usize::MAX
    &&& !spec_is_vlan(u16_be_at(bytes, 12))
}

/// A frame with an Ethernet II header and no VLAN tagging header.
///
/// Its model is the sequence of all bytes of the frame.
#[derive(Clone, Copy, Debug, PartialEq, Eq)]
pub struct Ethernet2Slice<'a> {
    header: ByteView<'a>,
    payload: ByteView<'a>,
}

impl<'a> View for Ethernet2Slice<'a> {
    type V = Seq<u8>;

    closed spec fn view(&self) -> Seq<u8> {
        self.header@.buffer
    }
}

impl<'a> Ethernet2Slice<'a> {
    #[verifier::type_invariant]
    spec fn framed(self) -> bool {
        &&& self.header@ == Span::whole(self.header@.buffer).head(ETHERNET2_HEADER_LEN as nat)
        &&& self.payload@ == Span::whole(self.header@.buffer).tail(ETHERNET2_HEADER_LEN as nat)
        &&& is_ethernet2_frame(self.header@.buffer)
    }

    /// Makes the slice from the view of the header and the view of what
    /// follows it.
    pub(crate) fn new(header: ByteView<'a>, payload: ByteView<'a>) -> (slice: Ethernet2Slice<'a>)
        requires
            is_ethernet2_frame(header@.buffer),
            header@ == Span::whole(header@.buffer).head(ETHERNET2_HEADER_LEN as nat),
            payload@ == Span::whole(header@.buffer).tail(ETHERNET2_HEADER_LEN as nat),
        ensures
            slice@ == header@.buffer,
    {
        Ethernet2Slice { header, payload }
    }

    /// The bytes of the header.
    pub fn header(&self) -> (header: ByteView<'a>)
        ensures
            is_ethernet2_frame(self@),
            header@ == Span::whole(self@).head(ETHERNET2_HEADER_LEN as nat),
    {
        proof {
            use_type_invariant(self);
        }
        self.header
    }

    /// The bytes behind the header.
    pub fn payload(&self) -> (payload: ByteView<'a>)
        ensures
            is_ethernet2_frame(self@),
            payload@ == Span::whole(self@).tail(ETHERNET2_HEADER_LEN as nat),
    {
        proof {
            use_type_invariant(self);
        }
        self.payload
    }

    /// The hardware address of the receiver.
    pub fn destination(&self) -> (mac: [u8; 6])
        ensures
            is_ethernet2_frame(self@),
            mac@ == mac_at(self@, 0),
    {
        proof {
            use_type_invariant(self);
        }
        let mac = read_mac(&self.header, 0);
        assert(mac@ =~= mac_at(self@, 0));
        mac
    }

    /// The hardware address of the sender.
    pub fn source(&self) -> (mac: [u8; 6])
        ensures
            is_ethernet2_frame(self@),
            mac@ == mac_at(self@, 6),
    {
        proof {
            use_type_invariant(self);
        }
        let mac = read_mac(&self.header, 6);
        assert(mac@ =~= mac_at(self@, 6));
        mac
    }

    /// The ether type of the payload.
    pub fn ether_type(&self) -> (ether_type: u16)
        ensures
            is_ethernet2_frame(self@),
            ether_type == u16_be_at(self@, 12),
    {
        proof {
            use_type_invariant(self);
        }
        self.header.u16_be(12)
    }
}

} // verus!
