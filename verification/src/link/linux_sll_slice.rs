use vstd::prelude::*;

use crate::byte_view::{u16_be_at, ByteView, Span};

verus! {

/// Number of bytes of a Linux cooked-capture header.
pub const LINUX_SLL_HEADER_LEN: usize = 16;

/// Whether `bytes` are long enough for a frame with a Linux cooked-capture
/// header.
pub open spec fn is_linux_sll_frame(bytes: Seq<u8>) -> bool {
    LINUX_SLL_HEADER_LEN <= bytes.len() <= usize::MAX
}

/// The eight bytes of the sender address field of a Linux cooked-capture
/// header, of which the first `sender_address_valid_length` count.
pub open spec fn sll_sender_address(bytes: Seq<u8>) -> Seq<u8> {
    bytes.subrange(6, 14)
}

/// A frame with a Linux cooked-capture (SLL) header.
///
/// Its model is the sequence of all bytes of the frame.
#[derive(Clone, Copy, Debug, PartialEq, Eq)]
pub struct LinuxSllSlice<'a> {
    header: ByteView<'a>,
    payload: ByteView<'a>,
}

impl<'a> View for LinuxSllSlice<'a> {
    type V = Seq<u8>;

    closed spec fn view(&self) -> Seq<u8> {
        self.header@.buffer
    }
}

impl<'a> LinuxSllSlice<'a> {
    #[verifier::type_invariant]
    spec fn framed(self) -> bool {
        &&& self.header@ == Span::whole(self.header@.buffer).head(LINUX_SLL_HEADER_LEN as nat)
        &&& self.payload@ == Span::whole(self.header@.buffer).tail(LINUX_SLL_HEADER_LEN as nat)
        &&& is_linux_sll_frame(self.header@.buffer)
    }

    /// Makes the slice from the view of the header and the view of what
    /// follows it.
    pub(crate) fn new(header: ByteView<'a>, payload: ByteView<'a>) -> (slice: LinuxSllSlice<'a>)
        requires
            is_linux_sll_frame(header@.buffer),
            header@ == Span::whole(header@.buffer).head(LINUX_SLL_HEADER_LEN as nat),
            payload@ == Span::whole(header@.buffer).tail(LINUX_SLL_HEADER_LEN as nat),
        ensures
            slice@ == header@.buffer,
    {
        LinuxSllSlice { header, payload }
    }

    /// The bytes of the header.
    pub fn header(&self) -> (header: ByteView<'a>)
        ensures
            is_linux_sll_frame(self@),
            header@ == Span::whole(self@).head(LINUX_SLL_HEADER_LEN as nat),
    {
        proof {
            use_type_invariant(self);
        }
        self.header
    }

    /// The bytes behind the header.
    pub fn payload(&self) -> (payload: ByteView<'a>)
        ensures
            is_linux_sll_frame(self@),
            payload@ == Span::whole(self@).tail(LINUX_SLL_HEADER_LEN as nat),
    {
        proof {
            use_type_invariant(self);
        }
        self.payload
    }

    /// How the frame reached the capturing host: sent to it, broadcast,
    /// multicast, sent to somebody else or sent by it.
    pub fn packet_type(&self) -> (packet_type: u16)
        ensures
            is_linux_sll_frame(self@),
            packet_type == u16_be_at(self@, 0),
    {
        proof {
            use_type_invariant(self);
        }
        self.header.u16_be(0)
    }

    /// The ARP hardware type of the device that the frame was captured on.
    pub fn arp_hardware_type(&self) -> (arp_hardware_type: u16)
        ensures
            is_linux_sll_frame(self@),
            arp_hardware_type == u16_be_at(self@, 2),
    {
        proof {
            use_type_invariant(self);
        }
        self.header.u16_be(2)
    }

    /// Number of bytes of the sender address field that hold the address.
    pub fn sender_address_valid_length(&self) -> (valid_length: u16)
        ensures
            is_linux_sll_frame(self@),
            valid_length == u16_be_at(self@, 4),
    {
        proof {
            use_type_invariant(self);
        }
        self.header.u16_be(4)
    }

    /// The eight bytes of the sender address field.
    pub fn sender_address(&self) -> (address: [u8; 8])
        ensures
            is_linux_sll_frame(self@),
            address@ == sll_sender_address(self@),
    {
        proof {
            use_type_invariant(self);
        }
        let address = [
            self.header.byte(6),
            self.header.byte(7),
            self.header.byte(8),
            self.header.byte(9),
            self.header.byte(10),
            self.header.byte(11),
            self.header.byte(12),
            self.header.byte(13),
        ];
        assert(address@ =~= sll_sender_address(self@));
        address
    }

    /// The protocol of the payload.
    pub fn protocol_type(&self) -> (protocol_type: u16)
        ensures
            is_linux_sll_frame(self@),
            protocol_type == u16_be_at(self@, 14),
    {
        proof {
            use_type_invariant(self);
        }
        self.header.u16_be(14)
    }
}

} // verus!
