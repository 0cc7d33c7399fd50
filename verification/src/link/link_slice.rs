use vstd::prelude::*;

use crate::byte_view::{shortfall, u16_be_at, ByteView, Span};
use crate::err::link::LinkError;
use crate::err::Layer;
use crate::len_source::LenSource;
use crate::link::double_vlan_slice::{
    is_double_vlan_frame, DoubleVlanSlice, DOUBLE_VLAN_HEADERS_LEN,
};
use crate::link::ether_type::{is_vlan, spec_is_vlan};
use crate::link::ethernet2_slice::{is_ethernet2_frame, Ethernet2Slice, ETHERNET2_HEADER_LEN};
use crate::link::linux_sll_slice::{is_linux_sll_frame, LinuxSllSlice, LINUX_SLL_HEADER_LEN};
use crate::link::single_vlan_slice::{
    is_single_vlan_frame, SingleVlanSlice, SINGLE_VLAN_HEADERS_LEN,
};
use crate::link::vlan_header::VLAN_HEADER_LEN;

verus! {

/// The framing that the caller knows a buffer to have. It comes from the
/// capture, not from the bytes.
#[derive(Clone, Copy, Debug, PartialEq, Eq, Hash, Structural)]
pub enum LinkType {
    /// Ethernet II, with or without VLAN tagging headers.
    Ethernet2,
    /// Linux cooked-capture (SLL).
    LinuxSll,
}

/// The framing that a decoded frame was found to have.
#[derive(Clone, Copy, Debug, PartialEq, Eq, Hash, Structural)]
pub enum LinkKind {
    /// Ethernet II header without a VLAN tagging header.
    Ethernet2,
    /// Ethernet II header with one VLAN tagging header.
    SingleVlan,
    /// Ethernet II header with two VLAN tagging headers.
    DoubleVlan,
    /// Linux cooked-capture (SLL) header.
    LinuxSll,
}

impl LinkKind {
    /// Number of bytes of all headers of the framing.
    pub open spec fn spec_header_len(self) -> nat {
        match self {
            LinkKind::Ethernet2 => 14,
            LinkKind::SingleVlan => 18,
            LinkKind::DoubleVlan => 22,
            LinkKind::LinuxSll => 16,
        }
    }

    /// Number of bytes of all headers of the framing.
    pub fn header_len(self) -> (len: usize)
        ensures
            len == self.spec_header_len(),
    {
        match self {
            LinkKind::Ethernet2 => ETHERNET2_HEADER_LEN,
            LinkKind::SingleVlan => SINGLE_VLAN_HEADERS_LEN,
            LinkKind::DoubleVlan => DOUBLE_VLAN_HEADERS_LEN,
            LinkKind::LinuxSll => LINUX_SLL_HEADER_LEN,
        }
    }
}

/// The mathematical model of a [`LinkSlice`]: the framing and all bytes of
/// the frame.
pub struct LinkModel {
    /// The framing of the frame.
    pub kind: LinkKind,
    /// All bytes of the frame, headers and payload.
    pub bytes: Seq<u8>,
}

impl LinkModel {
    /// The bytes are a frame of the kind.
    pub open spec fn wf(self) -> bool {
        match self.kind {
            LinkKind::Ethernet2 => is_ethernet2_frame(self.bytes),
            LinkKind::SingleVlan => is_single_vlan_frame(self.bytes),
            LinkKind::DoubleVlan => is_double_vlan_frame(self.bytes),
            LinkKind::LinuxSll => is_linux_sll_frame(self.bytes),
        }
    }

    /// The window over all headers of the frame.
    pub open spec fn header(self) -> Span {
        Span::whole(self.bytes).head(self.kind.spec_header_len())
    }

    /// The window over what follows the headers of the frame.
    pub open spec fn payload(self) -> Span {
        Span::whole(self.bytes).tail(self.kind.spec_header_len())
    }

    /// The protocol of the payload, which is the last two bytes of the
    /// headers in network byte order.
    pub open spec fn next_protocol(self) -> u16 {
        u16_be_at(self.bytes, self.kind.spec_header_len() - 2)
    }
}

/// Decoding of a frame with Ethernet II framing.
///
/// The Ethernet II header needs 14 bytes. Where its ether type announces a
/// VLAN tagging header, 4 more bytes are needed; and where the ether type of
/// that header announces a VLAN tagging header again, the two of them need 8
/// bytes. A lack of bytes is reported for the layer that lacks them, with
/// the lengths counted from where that layer starts.
pub open spec fn decode_ethernet(bytes: Seq<u8>) -> Result<LinkModel, LinkError> {
    let frame = Span::whole(bytes);
    let tagged = frame.tail(ETHERNET2_HEADER_LEN as nat);
    if frame.len < ETHERNET2_HEADER_LEN {
        Err(
            LinkError::Len(
                shortfall(
                    frame,
                    ETHERNET2_HEADER_LEN as nat,
                    Layer::Ethernet2Header,
                    LenSource::Slice,
                ),
            ),
        )
    } else if !spec_is_vlan(u16_be_at(bytes, 12)) {
        Ok(LinkModel { kind: LinkKind::Ethernet2, bytes })
    } else if tagged.len < VLAN_HEADER_LEN {
        Err(
            LinkError::Len(
                shortfall(
                    tagged,
                    VLAN_HEADER_LEN as nat,
                    Layer::SingleVlanHeader,
                    LenSource::Slice,
                ),
            ),
        )
    } else if !spec_is_vlan(u16_be_at(bytes, 16)) {
        Ok(LinkModel { kind: LinkKind::SingleVlan, bytes })
    } else if tagged.len < 2 * VLAN_HEADER_LEN {
        Err(
            LinkError::Len(
                shortfall(
                    tagged,
                    (2 * VLAN_HEADER_LEN) as nat,
                    Layer::DoubleVlanHeader,
                    LenSource::Slice,
                ),
            ),
        )
    } else {
        Ok(LinkModel { kind: LinkKind::DoubleVlan, bytes })
    }
}

/// Decoding of a frame with Linux cooked-capture framing, whose header
/// needs 16 bytes.
pub open spec fn decode_linux_sll(bytes: Seq<u8>) -> Result<LinkModel, LinkError> {
    let frame = Span::whole(bytes);
    if frame.len < LINUX_SLL_HEADER_LEN {
        Err(
            LinkError::Len(
                shortfall(
                    frame,
                    LINUX_SLL_HEADER_LEN as nat,
                    Layer::LinuxSllHeader,
                    LenSource::Slice,
                ),
            ),
        )
    } else {
        Ok(LinkModel { kind: LinkKind::LinuxSll, bytes })
    }
}

/// Decoding of a frame with the framing that `link_type` names.
pub open spec fn decode_link(link_type: LinkType, bytes: Seq<u8>) -> Result<LinkModel, LinkError> {
    match link_type {
        LinkType::Ethernet2 => decode_ethernet(bytes),
        LinkType::LinuxSll => decode_linux_sll(bytes),
    }
}

/// A decoded frame: one of the framings, with its header fields and the
/// view of its payload.
#[derive(Clone, Copy, Debug, PartialEq, Eq)]
pub enum LinkSlice<'a> {
    /// Ethernet II header without a VLAN tagging header.
    Ethernet2(Ethernet2Slice<'a>),
    /// Ethernet II header with one VLAN tagging header.
    SingleVlan(SingleVlanSlice<'a>),
    /// Ethernet II header with two VLAN tagging headers.
    DoubleVlan(DoubleVlanSlice<'a>),
    /// Linux cooked-capture (SLL) header.
    LinuxSll(LinuxSllSlice<'a>),
}

impl<'a> View for LinkSlice<'a> {
    type V = LinkModel;

    open spec fn view(&self) -> LinkModel {
        match *self {
            LinkSlice::Ethernet2(slice) => LinkModel { kind: LinkKind::Ethernet2, bytes: slice@ },
            LinkSlice::SingleVlan(slice) => LinkModel {
                kind: LinkKind::SingleVlan,
                bytes: slice@,
            },
            LinkSlice::DoubleVlan(slice) => LinkModel {
                kind: LinkKind::DoubleVlan,
                bytes: slice@,
            },
            LinkSlice::LinuxSll(slice) => LinkModel { kind: LinkKind::LinuxSll, bytes: slice@ },
        }
    }
}

impl<'a> LinkSlice<'a> {
    /// Decodes the framing `link_type` of the frame in `buffer`.
    ///
    /// Returns the decoded frame and the protocol of its payload.
    pub fn from_slice(link_type: LinkType, buffer: &'a [u8]) -> (decoded: Result<
        (LinkSlice<'a>, u16),
        LinkError,
    >)
        ensures
            match decoded {
                Ok((slice, next_protocol)) => {
                    &&& decode_link(link_type, buffer@) == Ok::<LinkModel, LinkError>(slice@)
                    &&& slice@.wf()
                    &&& next_protocol == slice@.next_protocol()
                    &&& slice@.header().len + slice@.payload().len == buffer@.len()
                },
                Err(err) => decode_link(link_type, buffer@) == Err::<LinkModel, LinkError>(err)
                    && err.spec_len_error().is_shortfall(),
            },
    {
        match link_type {
            LinkType::Ethernet2 => LinkSlice::from_ethernet_slice(buffer),
            LinkType::LinuxSll => LinkSlice::from_linux_sll_slice(buffer),
        }
    }

    /// Decodes a frame with Ethernet II framing: the Ethernet II header and
    /// the VLAN tagging headers that it announces, up to two.
    ///
    /// Returns the decoded frame and the protocol of its payload.
    pub fn from_ethernet_slice(buffer: &'a [u8]) -> (decoded: Result<
        (LinkSlice<'a>, u16),
        LinkError,
    >)
        ensures
            match decoded {
                Ok((slice, next_protocol)) => {
                    &&& decode_ethernet(buffer@) == Ok::<LinkModel, LinkError>(slice@)
                    &&& slice@.wf()
                    &&& next_protocol == slice@.next_protocol()
                    &&& slice@.header().len + slice@.payload().len == buffer@.len()
                },
                Err(err) => decode_ethernet(buffer@) == Err::<LinkModel, LinkError>(err)
                    && err.spec_len_error().is_shortfall(),
            },
    {
        let frame = ByteView::whole(buffer);
        let (ethernet, tagged) = match frame.split(
            ETHERNET2_HEADER_LEN,
            Layer::Ethernet2Header,
            LenSource::Slice,
        ) {
            Err(err) => {
                return Err(LinkError::Len(err));
            },
            Ok(cut) => cut,
        };
        let ether_type = ethernet.u16_be(12);
        assert(ether_type == u16_be_at(buffer@, 12));
        if !is_vlan(ether_type) {
            return Ok((LinkSlice::Ethernet2(Ethernet2Slice::new(ethernet, tagged)), ether_type));
        }
        let outer = match tagged.split(VLAN_HEADER_LEN, Layer::SingleVlanHeader, LenSource::Slice) {
            Err(err) => {
                return Err(LinkError::Len(err));
            },
            Ok((outer, _)) => outer,
        };
        let outer_type = outer.u16_be(2);
        assert(outer_type == u16_be_at(buffer@, 16));
        if !is_vlan(outer_type) {
            let slice = SingleVlanSlice::new(
                frame.head(SINGLE_VLAN_HEADERS_LEN),
                frame.tail(SINGLE_VLAN_HEADERS_LEN),
            );
            return Ok((LinkSlice::SingleVlan(slice), outer_type));
        }
        let both = match tagged.split(
            2 * VLAN_HEADER_LEN,
            Layer::DoubleVlanHeader,
            LenSource::Slice,
        ) {
            Err(err) => {
                return Err(LinkError::Len(err));
            },
            Ok((both, _)) => both,
        };
        let inner_type = both.u16_be(6);
        assert(inner_type == u16_be_at(buffer@, 20));
        let slice = DoubleVlanSlice::new(
            frame.head(DOUBLE_VLAN_HEADERS_LEN),
            frame.tail(DOUBLE_VLAN_HEADERS_LEN),
        );
        Ok((LinkSlice::DoubleVlan(slice), inner_type))
    }

    /// Decodes a frame with Linux cooked-capture framing.
    ///
    /// Returns the decoded frame and the protocol of its payload.
    pub fn from_linux_sll_slice(buffer: &'a [u8]) -> (decoded: Result<
        (LinkSlice<'a>, u16),
        LinkError,
    >)
        ensures
            match decoded {
                Ok((slice, next_protocol)) => {
                    &&& decode_linux_sll(buffer@) == Ok::<LinkModel, LinkError>(slice@)
                    &&& slice@.wf()
                    &&& next_protocol == slice@.next_protocol()
                    &&& slice@.header().len + slice@.payload().len == buffer@.len()
                },
                Err(err) => decode_linux_sll(buffer@) == Err::<LinkModel, LinkError>(err)
                    && err.spec_len_error().is_shortfall(),
            },
    {
        let frame = ByteView::whole(buffer);
        match frame.split(LINUX_SLL_HEADER_LEN, Layer::LinuxSllHeader, LenSource::Slice) {
            Err(err) => Err(LinkError::Len(err)),
            Ok((header, payload)) => {
                let protocol_type = header.u16_be(14);
                assert(protocol_type == u16_be_at(buffer@, 14));
                Ok((LinkSlice::LinuxSll(LinuxSllSlice::new(header, payload)), protocol_type))
            },
        }
    }

    /// The framing that the frame was found to have.
    pub fn kind(&self) -> (kind: LinkKind)
        ensures
            kind == self@.kind,
    {
        match self {
            LinkSlice::Ethernet2(_) => LinkKind::Ethernet2,
            LinkSlice::SingleVlan(_) => LinkKind::SingleVlan,
            LinkSlice::DoubleVlan(_) => LinkKind::DoubleVlan,
            LinkSlice::LinuxSll(_) => LinkKind::LinuxSll,
        }
    }

    /// The bytes of all headers of the frame.
    pub fn header(&self) -> (header: ByteView<'a>)
        ensures
            self@.wf(),
            header@ == self@.header(),
            header@.wf(),
    {
        match self {
            LinkSlice::Ethernet2(slice) => slice.header(),
            LinkSlice::SingleVlan(slice) => slice.header(),
            LinkSlice::DoubleVlan(slice) => slice.header(),
            LinkSlice::LinuxSll(slice) => slice.header(),
        }
    }

    /// The bytes behind the headers of the frame.
    pub fn payload(&self) -> (payload: ByteView<'a>)
        ensures
            self@.wf(),
            payload@ == self@.payload(),
            payload@.wf(),
            self@.header().len + payload@.len == self@.bytes.len(),
    {
        match self {
            LinkSlice::Ethernet2(slice) => slice.payload(),
            LinkSlice::SingleVlan(slice) => slice.payload(),
            LinkSlice::DoubleVlan(slice) => slice.payload(),
            LinkSlice::LinuxSll(slice) => slice.payload(),
        }
    }

    /// The protocol of the payload: an ether type, or for cooked-capture
    /// framing the value of its protocol field.
    pub fn next_protocol(&self) -> (next_protocol: u16)
        ensures
            self@.wf(),
            next_protocol == self@.next_protocol(),
    {
        match self {
            LinkSlice::Ethernet2(slice) => slice.ether_type(),
            LinkSlice::SingleVlan(slice) => slice.ether_type(),
            LinkSlice::DoubleVlan(slice) => slice.ether_type(),
            LinkSlice::LinuxSll(slice) => slice.protocol_type(),
        }
    }
}

/// The headers and the payload of a decoded frame cover the buffer: their
/// lengths add up to the length of the buffer, and the payload starts where
/// the headers end.
pub proof fn lemma_link_covers_buffer(link_type: LinkType, bytes: Seq<u8>)
    requires
        bytes.len() <= usize::MAX,
    ensures
        decode_link(link_type, bytes) matches Ok(frame) ==> {
            &&& frame.wf()
            &&& frame.bytes == bytes
            &&& frame.header().len + frame.payload().len == bytes.len()
            &&& frame.header().offset == 0
            &&& frame.payload().offset == frame.header().end()
            &&& frame.header().wf()
            &&& frame.payload().wf()
        },
{
}

/// Every length error that the link decoder returns describes a real
/// shortfall: more bytes were required than were available. What limited
/// the bytes is the buffer, and the available bytes are those from the start
/// of the layer to the end of the buffer.
pub proof fn lemma_link_errors_are_shortfalls(link_type: LinkType, bytes: Seq<u8>)
    requires
        bytes.len() <= usize::MAX,
    ensures
        decode_link(link_type, bytes) matches Err(err) ==> {
            &&& err.spec_len_error().is_shortfall()
            &&& err.spec_len_error().len_source == LenSource::Slice
            &&& err.spec_len_error().layer_start_offset + err.spec_len_error().len == bytes.len()
        },
{
}

/// Each decoder finds a framing exactly in the frames of that framing: it
/// owes success to every buffer that is long enough for the headers that are
/// announced, and to no other.
pub proof fn lemma_link_decodes_its_frames(kind: LinkKind, bytes: Seq<u8>)
    requires
        bytes.len() <= usize::MAX,
    ensures
        decode_ethernet(bytes) == Ok::<LinkModel, LinkError>(LinkModel { kind, bytes }) <==> kind
            != LinkKind::LinuxSll && (LinkModel { kind, bytes }).wf(),
        decode_linux_sll(bytes) == Ok::<LinkModel, LinkError>(LinkModel { kind, bytes }) <==> kind
            == LinkKind::LinuxSll && (LinkModel { kind, bytes }).wf(),
{
}

/// Decoding the bytes of the headers of a decoded frame on their own finds
/// the same framing and the same values in every header field, with nothing
/// left as payload.
pub proof fn lemma_link_header_redecodes(link_type: LinkType, bytes: Seq<u8>)
    requires
        bytes.len() <= usize::MAX,
        decode_link(link_type, bytes) is Ok,
    ensures
        ({
            let frame = decode_link(link_type, bytes)->Ok_0;
            let alone = frame.header().bytes();
            &&& alone == bytes.take(frame.kind.spec_header_len() as int)
            &&& decode_link(link_type, alone) == Ok::<LinkModel, LinkError>(
                LinkModel { kind: frame.kind, bytes: alone },
            )
            &&& (LinkModel { kind: frame.kind, bytes: alone }).next_protocol()
                == frame.next_protocol()
            &&& (LinkModel { kind: frame.kind, bytes: alone }).payload().len == 0
            &&& forall|i: int| 0 <= i < alone.len() ==> alone[i] == bytes[i]
        }),
{
    let frame = decode_link(link_type, bytes)->Ok_0;
    let alone = frame.header().bytes();
    assert(alone =~= bytes.take(frame.kind.spec_header_len() as int));
}

} // verus!
