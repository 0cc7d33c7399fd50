use vstd::prelude::*;

use crate::byte_view::{shortfall, ByteView, Span};
use crate::err::ip_auth;
use crate::err::ip_exts::{HeaderError, HeadersSliceError};
use crate::err::ipv6_exts;
use crate::len_source::LenSource;
use crate::net::ip_number::{
    extension_layer, is_extension_header, spec_extension_layer, spec_is_extension_header, AUTH,
    IPV6_FRAG,
};

verus! {

/// Length of the shortest extension header there is. Every extension header
/// starts with the type of the header behind it and, but for the fragment
/// header, a field that encodes its own length.
pub const MIN_EXTENSION_HEADER_LEN: usize = 8;

/// Length of the fixed part of an authentication header.
pub const MIN_AUTH_HEADER_LEN: usize = 12;

/// Number of bytes that must be present before anything of a header of the
/// given type is read.
pub open spec fn spec_min_header_len(header_type: u8) -> nat {
    if header_type == AUTH {
        12
    } else {
        8
    }
}

/// Number of bytes that must be present before anything of a header of the
/// given type is read.
pub fn min_header_len(header_type: u8) -> (len: usize)
    ensures
        len == spec_min_header_len(header_type),
{
    if header_type == AUTH {
        MIN_AUTH_HEADER_LEN
    } else {
        MIN_EXTENSION_HEADER_LEN
    }
}

/// The total length in bytes that a header of the given type declares with
/// the value of its length field.
///
/// The fragment header has a fixed length of 8 bytes. The authentication
/// header counts in units of 4 bytes and leaves out the first two units.
/// The other headers count in units of 8 bytes and leave out the first unit.
pub open spec fn spec_declared_header_len(header_type: u8, len_field: u8) -> nat {
    if header_type == IPV6_FRAG {
        8
    } else if header_type == AUTH {
        ((len_field + 2) * 4) as nat
    } else {
        ((len_field + 1) * 8) as nat
    }
}

/// The total length in bytes that a header of the given type declares with
/// the value of its length field.
pub fn declared_header_len(header_type: u8, len_field: u8) -> (len: usize)
    ensures
        len == spec_declared_header_len(header_type, len_field),
{
    let units: usize = len_field as usize;
    if header_type == IPV6_FRAG {
        MIN_EXTENSION_HEADER_LEN
    } else if header_type == AUTH {
        (units + 2) * 4
    } else {
        (units + 1) * 8
    }
}

/// The mathematical model of an [`ExtensionHeaderSlice`].
pub struct HeaderModel {
    /// The type number under which the header was announced.
    pub header_type: u8,
    /// The bytes of the header.
    pub span: Span,
    /// The type number of what follows the header.
    pub next_header_type: u8,
}

impl HeaderModel {
    /// The fields agree with the bytes of the header, and the header is as
    /// long as it declares itself to be.
    pub open spec fn wf(self) -> bool {
        &&& self.span.wf()
        &&& spec_is_extension_header(self.header_type)
        &&& self.span.len >= spec_min_header_len(self.header_type)
        &&& self.span.len >= MIN_EXTENSION_HEADER_LEN
        &&& self.span.len == spec_declared_header_len(self.header_type, self.span.bytes()[1])
        &&& self.next_header_type == self.span.bytes()[0]
    }
}

/// The content error of a header type that is no extension header.
pub open spec fn unsupported(header_type: u8) -> HeadersSliceError {
    HeadersSliceError::Content(
        HeaderError::Ipv6Ext(ipv6_exts::HeaderError::UnsupportedHeaderType(header_type)),
    )
}

/// The content error of an authentication header that declares a length
/// below its fixed part.
pub open spec fn zero_payload_len() -> HeadersSliceError {
    HeadersSliceError::Content(
        HeaderError::Ipv6Ext(ipv6_exts::HeaderError::IpAuth(ip_auth::HeaderError::ZeroPayloadLen)),
    )
}

/// Decoding of the one extension header of type `header_type` that starts
/// at the first byte of `rest`.
///
/// In this order: the type must be one of an extension header; the bytes up
/// to the minimal length of the type must be there; an authentication header
/// must not declare a length below its fixed part; and the bytes up to the
/// declared length must be there.
pub open spec fn parse_header(header_type: u8, rest: Span) -> Result<
    HeaderModel,
    HeadersSliceError,
> {
    let layer = spec_extension_layer(header_type);
    let min_len = spec_min_header_len(header_type);
    let declared = spec_declared_header_len(header_type, rest.bytes()[1]);
    if !spec_is_extension_header(header_type) {
        Err(unsupported(header_type))
    } else if rest.len < min_len {
        Err(HeadersSliceError::Len(shortfall(rest, min_len, layer, LenSource::Slice)))
    } else if header_type == AUTH && rest.bytes()[1] == 0 {
        Err(zero_payload_len())
    } else if rest.len < declared {
        Err(HeadersSliceError::Len(shortfall(rest, declared, layer, LenSource::Specified)))
    } else {
        Ok(
            HeaderModel {
                header_type,
                span: rest.head(declared),
                next_header_type: rest.bytes()[0],
            },
        )
    }
}

/// One decoded extension header: the bytes it covers, the type number it
/// was announced with and the type number of what follows it.
#[derive(Clone, Copy, Debug, PartialEq, Eq)]
pub struct ExtensionHeaderSlice<'a> {
    header_type: u8,
    view: ByteView<'a>,
    next_header_type: u8,
}

impl<'a> View for ExtensionHeaderSlice<'a> {
    type V = HeaderModel;

    closed spec fn view(&self) -> HeaderModel {
        HeaderModel {
            header_type: self.header_type,
            span: self.view@,
            next_header_type: self.next_header_type,
        }
    }
}

impl<'a> ExtensionHeaderSlice<'a> {
    #[verifier::type_invariant]
    spec fn decoded(self) -> bool {
        self@.wf()
    }

    /// Decodes the extension header of type `header_type` at the start of
    /// `rest` and returns it with the view of what follows it.
    pub fn from_view(header_type: u8, rest: ByteView<'a>) -> (parsed: Result<
        (ExtensionHeaderSlice<'a>, ByteView<'a>),
        HeadersSliceError,
    >)
        ensures
            rest@.wf(),
            match parsed {
                Ok((header, tail)) => parse_header(header_type, rest@) == Ok::<
                    HeaderModel,
                    HeadersSliceError,
                >(header@) && header@.wf() && tail@ == rest@.tail(header@.span.len) && tail@.wf(),
                Err(err) => parse_header(header_type, rest@) == Err::<
                    HeaderModel,
                    HeadersSliceError,
                >(err) && err.is_sound(),
            },
    {
        let _available: usize = rest.len();
        if !is_extension_header(header_type) {
            return Err(
                HeadersSliceError::Content(
                    HeaderError::Ipv6Ext(
                        ipv6_exts::HeaderError::UnsupportedHeaderType(header_type),
                    ),
                ),
            );
        }
        let layer = extension_layer(header_type);
        if let Err(err) = rest.split(min_header_len(header_type), layer, LenSource::Slice) {
            return Err(HeadersSliceError::Len(err));
        }
        let next_header_type = rest.byte(0);
        let len_field = rest.byte(1);
        if header_type == AUTH && len_field == 0 {
            return Err(
                HeadersSliceError::Content(
                    HeaderError::Ipv6Ext(
                        ipv6_exts::HeaderError::IpAuth(ip_auth::HeaderError::ZeroPayloadLen),
                    ),
                ),
            );
        }
        match rest.split(declared_header_len(header_type, len_field), layer, LenSource::Specified) {
            Err(err) => Err(HeadersSliceError::Len(err)),
            Ok((head, tail)) => {
                proof {
                    lemma_head_bytes(rest@, head@.len);
                }
                Ok((ExtensionHeaderSlice { header_type, view: head, next_header_type }, tail))
            },
        }
    }

    /// Decodes the extension header of type `header_type` at the start of
    /// `slice` and returns it with the view of what follows it.
    pub fn from_slice(header_type: u8, slice: &'a [u8]) -> (parsed: Result<
        (ExtensionHeaderSlice<'a>, ByteView<'a>),
        HeadersSliceError,
    >)
        ensures
            match parsed {
                Ok((header, tail)) => parse_header(header_type, Span::whole(slice@)) == Ok::<
                    HeaderModel,
                    HeadersSliceError,
                >(header@) && header@.wf() && tail@ == Span::whole(slice@).tail(header@.span.len)
                    && tail@.wf(),
                Err(err) => parse_header(header_type, Span::whole(slice@)) == Err::<
                    HeaderModel,
                    HeadersSliceError,
                >(err) && err.is_sound(),
            },
    {
        ExtensionHeaderSlice::from_view(header_type, ByteView::whole(slice))
    }

    /// The type number under which the header was announced.
    pub fn header_type(&self) -> (header_type: u8)
        ensures
            header_type == self@.header_type,
            self@.wf(),
    {
        proof {
            use_type_invariant(self);
        }
        self.header_type
    }

    /// The type number of what follows the header.
    pub fn next_header_type(&self) -> (next: u8)
        ensures
            next == self@.next_header_type,
            self@.wf(),
    {
        proof {
            use_type_invariant(self);
        }
        self.next_header_type
    }

    /// The bytes of the header.
    pub fn byte_view(&self) -> (view: ByteView<'a>)
        ensures
            view@ == self@.span,
            self@.wf(),
    {
        proof {
            use_type_invariant(self);
        }
        self.view
    }

    /// Number of bytes of the header.
    pub fn len(&self) -> (len: usize)
        ensures
            len == self@.span.len,
            self@.wf(),
    {
        proof {
            use_type_invariant(self);
        }
        self.view.len()
    }

    /// The value of the length field of the header, which is its second
    /// byte. In a fragment header that byte is reserved.
    pub fn len_field(&self) -> (len_field: u8)
        ensures
            len_field == self@.span.bytes()[1],
            self@.wf(),
    {
        proof {
            use_type_invariant(self);
        }
        self.view.byte(1)
    }

    /// Whether this is a hop-by-hop options header.
    pub fn is_hop_by_hop(&self) -> (hop_by_hop: bool)
        ensures
            hop_by_hop <==> self@.header_type == crate::net::ip_number::IPV6_HOP_BY_HOP,
            self@.wf(),
    {
        proof {
            use_type_invariant(self);
        }
        self.header_type == crate::net::ip_number::IPV6_HOP_BY_HOP
    }
}

/// Decoding the bytes of a decoded header on their own finds the same
/// header: the same type, the same length and the same type of what
/// follows.
pub proof fn lemma_header_redecodes(header: HeaderModel)
    requires
        header.wf(),
    ensures
        parse_header(header.header_type, Span::whole(header.span.bytes())) == Ok::<
            HeaderModel,
            HeadersSliceError,
        >(
            HeaderModel {
                header_type: header.header_type,
                span: Span::whole(header.span.bytes()),
                next_header_type: header.next_header_type,
            },
        ),
{
    let alone = Span::whole(header.span.bytes());
    assert(alone.bytes() =~= header.span.bytes());
    assert(alone.head(alone.len) == alone);
}

/// Two decoded headers hold the same values, and lie `delta` bytes apart
/// in their buffers.
pub open spec fn same_header(one: HeaderModel, other: HeaderModel, delta: int) -> bool {
    &&& one.header_type == other.header_type
    &&& one.next_header_type == other.next_header_type
    &&& one.span.len == other.span.len
    &&& one.span.offset - other.span.offset == delta
    &&& one.span.bytes() == other.span.bytes()
}

/// Two errors say the same, about layers that lie `delta` bytes apart in
/// their buffers.
pub open spec fn same_error(one: HeadersSliceError, other: HeadersSliceError, delta: int) -> bool {
    match one {
        HeadersSliceError::Len(len) => other matches HeadersSliceError::Len(other_len) && {
            &&& len.required_len == other_len.required_len
            &&& len.len == other_len.len
            &&& len.len_source == other_len.len_source
            &&& len.layer == other_len.layer
            &&& len.layer_start_offset - other_len.layer_start_offset == delta
        },
        HeadersSliceError::Content(content) => other == HeadersSliceError::Content(content),
    }
}

/// What is decoded depends on the bytes of the window alone, not on where
/// the window lies: two windows with the same bytes give the same header,
/// or the same error.
pub proof fn lemma_header_depends_on_bytes(header_type: u8, one: Span, other: Span)
    requires
        one.wf(),
        other.wf(),
        one.bytes() == other.bytes(),
    ensures
        match parse_header(header_type, one) {
            Ok(header) => parse_header(header_type, other) matches Ok(other_header)
                && same_header(header, other_header, one.offset - other.offset),
            Err(err) => parse_header(header_type, other) matches Err(other_err) && same_error(
                err,
                other_err,
                one.offset - other.offset,
            ),
        },
{
    assert(one.len == other.len) by {
        assert(one.bytes().len() == one.len);
        assert(other.bytes().len() == other.len);
    }
    if let Ok(header) = parse_header(header_type, one) {
        let other_header = parse_header(header_type, other)->Ok_0;
        lemma_head_bytes(one, header.span.len);
        lemma_head_bytes(other, header.span.len);
    }
}

/// The first bytes of a window are the first bytes of each of its heads.
pub proof fn lemma_head_bytes(span: Span, n: nat)
    requires
        span.wf(),
        n <= span.len,
    ensures
        span.head(n).wf(),
        span.head(n).bytes() == span.bytes().take(n as int),
        forall|i: int| 0 <= i < n ==> span.head(n).bytes()[i] == span.bytes()[i],
{
    assert(span.head(n).bytes() =~= span.bytes().take(n as int));
}

/// The bytes of a window behind its first `n` bytes are the bytes of its
/// tail.
pub proof fn lemma_tail_bytes(span: Span, n: nat)
    requires
        span.wf(),
        n <= span.len,
    ensures
        span.tail(n).wf(),
        span.tail(n).bytes() == span.bytes().skip(n as int),
{
    assert(span.tail(n).bytes() =~= span.bytes().skip(n as int));
}

} // verus!
