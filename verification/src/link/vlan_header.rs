use vstd::prelude::*;

use crate::byte_view::{u16_be_at, ByteView};

verus! {

/// Number of bytes of one VLAN tagging header.
pub const VLAN_HEADER_LEN: usize = 4;

/// The fields of one IEEE 802.1Q VLAN tagging header.
#[derive(Clone, Copy, Debug, PartialEq, Eq, Hash, Structural)]
pub struct VlanHeader {
    /// Priority code point, the class of service of the frame (3 bits).
    pub pcp: u8,
    /// Whether the frame may be dropped when there is congestion.
    pub drop_eligible_indicator: bool,
    /// The VLAN that the frame belongs to (12 bits).
    pub vlan_id: u16,
    /// The ether type of what follows the header.
    pub ether_type: u16,
}

/// The VLAN tagging header that the four bytes from index `at` of `bytes`
/// encode: three bits of priority, one bit of drop eligibility and twelve
/// bits of VLAN identifier, then the ether type in network byte order.
pub open spec fn vlan_header_at(bytes: Seq<u8>, at: int) -> VlanHeader {
    VlanHeader {
        pcp: bytes[at] / 32,
        drop_eligible_indicator: (bytes[at] / 16) % 2 == 1,
        vlan_id: ((bytes[at] % 16) * 256 + bytes[at + 1]) as u16,
        ether_type: u16_be_at(bytes, at + 2),
    }
}

impl VlanHeader {
    /// The fields are inside the number of bits that the header has for
    /// them.
    pub open spec fn wf(self) -> bool {
        self.pcp < 8 && self.vlan_id < 4096
    }

    /// Reads the VLAN tagging header whose first byte lies at index `at`
    /// of `view`.
    pub(crate) fn read(view: &ByteView<'_>, at: usize) -> (header: VlanHeader)
        requires
            at + VLAN_HEADER_LEN <= view@.len,
        ensures
            header == vlan_header_at(view@.bytes(), at as int),
            header.wf(),
    {
        let first = view.byte(at);
        let second = view.byte(at + 1);
        VlanHeader {
            pcp: first / 32,
            drop_eligible_indicator: (first / 16) % 2 == 1,
            vlan_id: ((first % 16) as u16) * 256 + (second as u16),
            ether_type: view.u16_be(at + 2),
        }
    }
}

} // verus!
