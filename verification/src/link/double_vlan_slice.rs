use vstd::prelude::*;

use crate::byte_view::{u16_be_at, ByteView, Span};
use crate::link::ether_type::spec_is_vlan;
use crate::link::ethernet2_slice::{mac_at, read_mac, ETHERNET2_HEADER_LEN};
use crate::link::vlan_header::{vlan_header_at, VlanHeader, VLAN_HEADER_LEN};

verus! {

/// Number of bytes of an Ethernet II header with two VLAN tagging headers.
pub const DOUBLE_VLAN_HEADERS_LEN: usize = 22;

/// Whether `bytes` are a frame with an Ethernet II header that two VLAN
/// tagging headers follow. What the second of them announces is not looked
/// at: it is the payload's business.
pub open spec fn is_double_vlan_frame(bytes: Seq<u8>) -> bool {
    &&& DOUBLE_VLAN_HEADERS_LEN <= bytes.len() <= usize::MAX
    &&& spec_is_vlan(u16_be_at(bytes, 12))
    &&& spec_is_vlan(u16_be_at(bytes, 16))
}

/// A frame with an Ethernet II header and two VLAN tagging headers.
///
/// Its model is the sequence of all bytes of the frame.
#[derive(Clone, Copy, Debug, PartialEq, Eq)]
pub struct DoubleVlanSlice<'a> {
    header: ByteView<'a>,
    payload: ByteView<'a>,
}

impl<'a> View for DoubleVlanSlice<'a> {
    type V = Seq<u8>;

    closed spec fn view(&self) -> Seq<u8> {
        self.header@.buffer
    }
}

impl<'a> DoubleVlanSlice<'a> {
    #[verifier::type_invariant]
    spec fn framed(self) -> bool {
        &&& self.header@ == Span::whole(self.header@.buffer).head(DOUBLE_VLAN_HEADERS_LEN as nat)
        &&& self.payload@ == Span::whole(self.header@.buffer).tail(DOUBLE_VLAN_HEADERS_LEN as nat)
        &&& is_double_vlan_frame(self.header@.buffer)
    }

    /// Makes the slice from the view of the headers and the view of what
    /// follows them.
    pub(crate) fn new(header: ByteView<'a>, payload: ByteView<'a>) -> (slice: DoubleVlanSlice<
        'a,
    >)
        requires
            is_double_vlan_frame(header@.buffer),
            header@ == Span::whole(header@.buffer).head(DOUBLE_VLAN_HEADERS_LEN as nat),
            payload@ == Span::whole(header@.buffer).tail(DOUBLE_VLAN_HEADERS_LEN as nat),
        ensures
            slice@ == header@.buffer,
    {
        DoubleVlanSlice { header, payload }
    }

    /// The bytes of the Ethernet II header and of both VLAN tagging
    /// headers.
    pub fn header(&self) -> (header: ByteView<'a>)
        ensures
            is_double_vlan_frame(self@),
            header@ == Span::whole(self@).head(DOUBLE_VLAN_HEADERS_LEN as nat),
    {
        proof {
            use_type_invariant(self);
        }
        self.header
    }

    /// The bytes behind the headers.
    pub fn payload(&self) -> (payload: ByteView<'a>)
        ensures
            is_double_vlan_frame(self@),
            payload@ == Span::whole(self@).tail(DOUBLE_VLAN_HEADERS_LEN as nat),
    {
        proof {
            use_type_invariant(self);
        }
        self.payload
    }

    /// The hardware address of the receiver.
    pub fn destination(&self) -> (mac: [u8; 6])
        ensures
            is_double_vlan_frame(self@),
            mac@ == mac_at(self@, 0),
    {
        proof {
            use_type_invariant(self);
        }
        let mac = read_mac(&self.header, 0);
        assert(mac@ =~= mac_at(self@, 0));
        mac
    }

    /// The hardware address of the sender.
    pub fn source(&self) -> (mac: [u8; 6])
        ensures
            is_double_vlan_frame(self@),
            mac@ == mac_at(self@, 6),
    {
        proof {
            use_type_invariant(self);
        }
        let mac = read_mac(&self.header, 6);
        assert(mac@ =~= mac_at(self@, 6));
        mac
    }

    /// The ether type in the Ethernet II header, which announces the outer
    /// VLAN tagging header.
    pub fn tag_protocol(&self) -> (ether_type: u16)
        ensures
            is_double_vlan_frame(self@),
            ether_type == u16_be_at(self@, 12),
            spec_is_vlan(ether_type),
    {
        proof {
            use_type_invariant(self);
        }
        self.header.u16_be(12)
    }

    /// The fields of the outer VLAN tagging header, which comes first.
    pub fn outer(&self) -> (vlan: VlanHeader)
        ensures
            is_double_vlan_frame(self@),
            vlan == vlan_header_at(self@, ETHERNET2_HEADER_LEN as int),
            vlan.wf(),
            spec_is_vlan(vlan.ether_type),
    {
        proof {
            use_type_invariant(self);
        }
        VlanHeader::read(&self.header, ETHERNET2_HEADER_LEN)
    }

    /// The fields of the inner VLAN tagging header, which comes second.
    pub fn inner(&self) -> (vlan: VlanHeader)
        ensures
            is_double_vlan_frame(self@),
            vlan == vlan_header_at(self@, (ETHERNET2_HEADER_LEN + VLAN_HEADER_LEN) as int),
            vlan.wf(),
    {
        proof {
            use_type_invariant(self);
        }
        VlanHeader::read(&self.header, ETHERNET2_HEADER_LEN + VLAN_HEADER_LEN)
    }

    /// The ether type of the payload, which the inner VLAN tagging header
    /// holds.
    pub fn ether_type(&self) -> (ether_type: u16)
        ensures
            is_double_vlan_frame(self@),
            ether_type == u16_be_at(self@, (DOUBLE_VLAN_HEADERS_LEN - 2) as int),
    {
        proof {
            use_type_invariant(self);
        }
        self.header.u16_be(DOUBLE_VLAN_HEADERS_LEN - 2)
    }
}

} // verus!
