use vstd::prelude::*;

use crate::byte_view::{ByteView, Span};
use crate::err::ip_exts::{HeaderError, HeadersSliceError};
use crate::err::ipv6_exts;
use crate::net::extension_header_slice::{
    lemma_header_depends_on_bytes, lemma_tail_bytes, parse_header, same_error, same_header,
    ExtensionHeaderSlice, HeaderModel, MIN_EXTENSION_HEADER_LEN,
};
use crate::net::ip_number::{is_extension_header, spec_is_extension_header, IPV6_HOP_BY_HOP};

verus! {

/// The mathematical model of a decoded chain: what
/// [`HeaderChain::from_view`] returns.
pub struct ChainModel {
    /// The headers of the chain in the order of their bytes.
    pub headers: Seq<HeaderModel>,
    /// The type number that the last header announces, or the start type
    /// where the chain is empty. It never is one of an extension header.
    pub next_protocol: u8,
    /// The bytes behind the last header.
    pub payload: Span,
}

/// The content error of a hop-by-hop options header that is not the first
/// header of its chain.
pub open spec fn hop_by_hop_not_at_start() -> HeadersSliceError {
    HeadersSliceError::Content(HeaderError::Ipv6Ext(ipv6_exts::HeaderError::HopByHopNotAtStart))
}

/// One step of the chain decoder: decodes the header of type `header_type`
/// at the start of `rest`, and then refuses a hop-by-hop options header
/// unless it is the first header of the chain.
pub open spec fn chain_step(header_type: u8, rest: Span, first: bool) -> Result<
    HeaderModel,
    HeadersSliceError,
> {
    match parse_header(header_type, rest) {
        Err(err) => Err(err),
        Ok(header) => if header_type == IPV6_HOP_BY_HOP && !first {
            Err(hop_by_hop_not_at_start())
        } else {
            Ok(header)
        },
    }
}

/// Puts `header` in front of the chain of an outcome, and leaves an error
/// as it is.
pub open spec fn prepend(
    header: HeaderModel,
    outcome: Result<ChainModel, HeadersSliceError>,
) -> Result<ChainModel, HeadersSliceError> {
    match outcome {
        Err(err) => Err(err),
        Ok(chain) => Ok(
            ChainModel {
                headers: seq![header] + chain.headers,
                next_protocol: chain.next_protocol,
                payload: chain.payload,
            },
        ),
    }
}

/// Decoding of the chain of extension headers that starts at the first byte
/// of `rest` with a header of type `header_type`. `first` says whether no
/// header of the chain was decoded before.
///
/// A type number that is not one of an extension header ends the chain:
/// the bytes that are left are the payload. Otherwise one header is decoded
/// by [`chain_step`], and the chain goes on behind it with the type number
/// that the header announces. The first error ends the decoding; the
/// headers that were decoded before it are not part of the outcome.
pub open spec fn decode_chain(header_type: u8, rest: Span, first: bool) -> Result<
    ChainModel,
    HeadersSliceError,
>
    decreases rest.len,
{
    if !spec_is_extension_header(header_type) {
        Ok(ChainModel { headers: Seq::empty(), next_protocol: header_type, payload: rest })
    } else {
        match chain_step(header_type, rest, first) {
            Err(err) => Err(err),
            Ok(header) => prepend(
                header,
                decode_chain(header.next_header_type, rest.tail(header.span.len), false),
            ),
        }
    }
}

/// Puts the headers `decoded` in front of the chain of an outcome, and
/// leaves an error as it is.
pub open spec fn extend(
    decoded: Seq<HeaderModel>,
    outcome: Result<ChainModel, HeadersSliceError>,
) -> Result<ChainModel, HeadersSliceError> {
    match outcome {
        Err(err) => Err(err),
        Ok(chain) => Ok(
            ChainModel {
                headers: decoded + chain.headers,
                next_protocol: chain.next_protocol,
                payload: chain.payload,
            },
        ),
    }
}

/// The header at index `i` of a chain starts where the header before it
/// ends, and the first header starts where the decoded bytes start.
pub open spec fn starts_at(headers: Seq<HeaderModel>, i: int, rest: Span) -> nat {
    if i == 0 {
        rest.offset
    } else {
        headers[i - 1].span.end()
    }
}

/// The header at index `i` of a chain has the type that the header before
/// it announces, and the first header has the start type.
pub open spec fn announced_as(headers: Seq<HeaderModel>, i: int, start_type: u8) -> u8 {
    if i == 0 {
        start_type
    } else {
        headers[i - 1].next_header_type
    }
}

/// How a chain that was decoded from `rest` with the start type
/// `start_type` lies in its buffer: the headers and the payload cover the
/// bytes of `rest` without a gap, in their order, each header is announced by
/// the one before it, and what the last header announces is no extension
/// header.
pub open spec fn well_linked(chain: ChainModel, start_type: u8, rest: Span) -> bool {
    let n = chain.headers.len() as int;
    &&& forall|i: int|
        0 <= i < n ==> {
            &&& (#[trigger] chain.headers[i]).wf()
            &&& chain.headers[i].span.buffer == rest.buffer
            &&& chain.headers[i].span.offset == starts_at(chain.headers, i, rest)
            &&& chain.headers[i].header_type == announced_as(chain.headers, i, start_type)
        }
    &&& chain.payload.wf()
    &&& chain.payload.buffer == rest.buffer
    &&& chain.payload.offset == starts_at(chain.headers, n, rest)
    &&& chain.payload.end() == rest.end()
    &&& chain.next_protocol == announced_as(chain.headers, n, start_type)
    &&& !spec_is_extension_header(chain.next_protocol)
}

/// Every chain that is decoded lies in its buffer as [`well_linked`] says.
pub proof fn lemma_chain_is_well_linked(header_type: u8, rest: Span, first: bool)
    requires
        rest.wf(),
    ensures
        decode_chain(header_type, rest, first) matches Ok(chain) ==> well_linked(
            chain,
            header_type,
            rest,
        ),
    decreases rest.len,
{
    if spec_is_extension_header(header_type) {
        if let Ok(header) = chain_step(header_type, rest, first) {
            let tail = rest.tail(header.span.len);
            lemma_chain_is_well_linked(header.next_header_type, tail, false);
            if let Ok(behind) = decode_chain(header.next_header_type, tail, false) {
                let chain = decode_chain(header_type, rest, first)->Ok_0;
                let n = chain.headers.len() as int;
                assert(chain.headers == seq![header] + behind.headers);
                assert(chain.headers[0] == header);
                assert(header.span.bytes() =~= rest.bytes().take(header.span.len as int));
                assert(header.wf());
                assert forall|i: int| 0 <= i < n implies {
                    &&& (#[trigger] chain.headers[i]).wf()
                    &&& chain.headers[i].span.buffer == rest.buffer
                    &&& chain.headers[i].span.offset == starts_at(chain.headers, i, rest)
                    &&& chain.headers[i].header_type == announced_as(
                        chain.headers,
                        i,
                        header_type,
                    )
                } by {
                    if i > 0 {
                        assert(chain.headers[i] == behind.headers[i - 1]);
                        if i > 1 {
                            assert(chain.headers[i - 1] == behind.headers[i - 2]);
                        }
                    }
                }
                if n > 1 {
                    assert(chain.headers[n - 1] == behind.headers[n - 2]);
                }
            }
        }
    }
}

/// Whether a length error is about a layer inside of `rest` and counts the
/// bytes from the start of that layer to the end of `rest` as available.
pub open spec fn counts_to_end_of(err: HeadersSliceError, rest: Span) -> bool {
    err matches HeadersSliceError::Len(len) ==> rest.offset <= len.layer_start_offset
        && len.layer_start_offset + len.len == rest.end()
}

/// Every length error that the chain decoder returns describes a real
/// shortfall: more bytes were required than were available. The layer that
/// it names starts inside the decoded bytes, and the available bytes are
/// those from there to the end of the decoded bytes.
pub proof fn lemma_chain_errors_are_sound(header_type: u8, rest: Span, first: bool)
    requires
        rest.wf(),
    ensures
        decode_chain(header_type, rest, first) matches Err(err) ==> err.is_sound()
            && counts_to_end_of(err, rest),
    decreases rest.len,
{
    if spec_is_extension_header(header_type) {
        if let Ok(header) = chain_step(header_type, rest, first) {
            lemma_chain_errors_are_sound(
                header.next_header_type,
                rest.tail(header.span.len),
                false,
            );
        }
    }
}

/// In a chain that was decoded, no header but the first is a hop-by-hop
/// options header.
pub proof fn lemma_hop_by_hop_only_first(header_type: u8, rest: Span, first: bool)
    requires
        rest.wf(),
    ensures
        decode_chain(header_type, rest, first) matches Ok(chain) ==> forall|i: int|
            0 <= i < chain.headers.len() && (i > 0 || !first) ==> (
            #[trigger] chain.headers[i]).header_type != IPV6_HOP_BY_HOP,
    decreases rest.len,
{
    if spec_is_extension_header(header_type) {
        if let Ok(header) = chain_step(header_type, rest, first) {
            let tail = rest.tail(header.span.len);
            lemma_hop_by_hop_only_first(header.next_header_type, tail, false);
            if let Ok(behind) = decode_chain(header.next_header_type, tail, false) {
                let chain = decode_chain(header_type, rest, first)->Ok_0;
                assert(chain.headers == seq![header] + behind.headers);
                assert forall|i: int|
                    0 <= i < chain.headers.len() && (i > 0 || !first) implies (
                #[trigger] chain.headers[i]).header_type != IPV6_HOP_BY_HOP by {
                    if i > 0 {
                        assert(chain.headers[i] == behind.headers[i - 1]);
                    }
                }
            }
        }
    }
}

/// Whether the decoder, when it starts with a header of type `header_type`
/// at the start of `rest`, decodes `steps` headers without an error and then
/// stands before a header of type `at_type` at the start of `at_rest`.
pub open spec fn arrives_at(
    header_type: u8,
    rest: Span,
    first: bool,
    steps: nat,
    at_type: u8,
    at_rest: Span,
) -> bool
    decreases steps,
{
    if steps == 0 {
        header_type == at_type && rest == at_rest
    } else {
        &&& spec_is_extension_header(header_type)
        &&& chain_step(header_type, rest, first) matches Ok(header)
        &&& arrives_at(
            header.next_header_type,
            rest.tail(header.span.len),
            false,
            (steps - 1) as nat,
            at_type,
            at_rest,
        )
    }
}

/// The first error ends the decoding: where the decoder arrives at a header
/// that cannot be decoded, the error of that header is the outcome of the
/// whole chain, and none of the headers before it is returned.
pub proof fn lemma_first_error_ends_decoding(
    header_type: u8,
    rest: Span,
    first: bool,
    steps: nat,
    at_type: u8,
    at_rest: Span,
)
    requires
        arrives_at(header_type, rest, first, steps, at_type, at_rest),
        spec_is_extension_header(at_type),
        chain_step(at_type, at_rest, first && steps == 0) is Err,
    ensures
        decode_chain(header_type, rest, first) == Err::<ChainModel, HeadersSliceError>(
            chain_step(at_type, at_rest, first && steps == 0)->Err_0,
        ),
    decreases steps,
{
    if steps > 0 {
        let header = chain_step(header_type, rest, first)->Ok_0;
        lemma_first_error_ends_decoding(
            header.next_header_type,
            rest.tail(header.span.len),
            false,
            (steps - 1) as nat,
            at_type,
            at_rest,
        );
    }
}

/// A hop-by-hop options header that is complete but not the first header of
/// its chain makes the decoding fail with `HopByHopNotAtStart`, wherever in
/// the chain the decoder arrives at it.
pub proof fn lemma_late_hop_by_hop_is_refused(
    header_type: u8,
    rest: Span,
    first: bool,
    steps: nat,
    at_rest: Span,
)
    requires
        arrives_at(header_type, rest, first, steps, IPV6_HOP_BY_HOP, at_rest),
        steps > 0 || !first,
        parse_header(IPV6_HOP_BY_HOP, at_rest) is Ok,
    ensures
        decode_chain(header_type, rest, first) == Err::<ChainModel, HeadersSliceError>(
            hop_by_hop_not_at_start(),
        ),
{
    lemma_first_error_ends_decoding(header_type, rest, first, steps, IPV6_HOP_BY_HOP, at_rest);
}

/// Each header of a chain takes at least [`MIN_EXTENSION_HEADER_LEN`] bytes,
/// so the number of steps that the decoder takes is bounded by the number of
/// bytes it was given, divided by that length.
pub proof fn lemma_chain_len_is_bounded(header_type: u8, rest: Span, first: bool)
    requires
        rest.wf(),
    ensures
        decode_chain(header_type, rest, first) matches Ok(chain) ==> {
            &&& MIN_EXTENSION_HEADER_LEN * chain.headers.len() + chain.payload.len <= rest.len
            &&& chain.headers.len() <= rest.len / (MIN_EXTENSION_HEADER_LEN as nat)
        },
    decreases rest.len,
{
    if spec_is_extension_header(header_type) {
        if let Ok(header) = chain_step(header_type, rest, first) {
            let tail = rest.tail(header.span.len);
            lemma_chain_len_is_bounded(header.next_header_type, tail, false);
            if let Ok(behind) = decode_chain(header.next_header_type, tail, false) {
                let chain = decode_chain(header_type, rest, first)->Ok_0;
                assert(chain.headers.len() == behind.headers.len() + 1);
            }
        }
    }
}

/// Two outcomes of decoding a chain say the same, about bytes that lie
/// `delta` bytes apart in their buffers.
pub open spec fn same_outcome(
    one: Result<ChainModel, HeadersSliceError>,
    other: Result<ChainModel, HeadersSliceError>,
    delta: int,
) -> bool {
    match one {
        Ok(chain) => other matches Ok(other_chain) && {
            &&& chain.headers.len() == other_chain.headers.len()
            &&& forall|i: int|
                0 <= i < chain.headers.len() ==> same_header(
                    #[trigger] chain.headers[i],
                    other_chain.headers[i],
                    delta,
                )
            &&& chain.next_protocol == other_chain.next_protocol
            &&& chain.payload.len == other_chain.payload.len
            &&& chain.payload.offset - other_chain.payload.offset == delta
            &&& chain.payload.bytes() == other_chain.payload.bytes()
        },
        Err(err) => other matches Err(other_err) && same_error(err, other_err, delta),
    }
}

/// What is decoded depends on the bytes of the window alone, not on where
/// the window lies: two windows with the same bytes give chains with the
/// same values in every header, or the same error. So decoding the bytes of
/// a returned view on their own, as a buffer of their own, finds what was
/// found in the larger buffer.
pub proof fn lemma_chain_depends_on_bytes(header_type: u8, one: Span, other: Span, first: bool)
    requires
        one.wf(),
        other.wf(),
        one.bytes() == other.bytes(),
    ensures
        same_outcome(
            decode_chain(header_type, one, first),
            decode_chain(header_type, other, first),
            one.offset - other.offset,
        ),
    decreases one.len,
{
    let delta = one.offset - other.offset;
    assert(one.len == other.len) by {
        assert(one.bytes().len() == one.len);
        assert(other.bytes().len() == other.len);
    }
    if spec_is_extension_header(header_type) {
        lemma_header_depends_on_bytes(header_type, one, other);
        if let Ok(header) = chain_step(header_type, one, first) {
            let other_header = chain_step(header_type, other, first)->Ok_0;
            let n = header.span.len;
            lemma_tail_bytes(one, n);
            lemma_tail_bytes(other, n);
            lemma_chain_depends_on_bytes(
                header.next_header_type,
                one.tail(n),
                other.tail(n),
                false,
            );
            let behind = decode_chain(header.next_header_type, one.tail(n), false);
            let other_behind = decode_chain(header.next_header_type, other.tail(n), false);
            if let Ok(chain) = behind {
                let all = decode_chain(header_type, one, first)->Ok_0;
                let other_all = decode_chain(header_type, other, first)->Ok_0;
                assert(all.headers == seq![header] + chain.headers);
                assert(other_all.headers == seq![other_header] + other_behind->Ok_0.headers);
                assert forall|i: int| 0 <= i < all.headers.len() implies same_header(
                    #[trigger] all.headers[i],
                    other_all.headers[i],
                    delta,
                ) by {
                    if i > 0 {
                        assert(all.headers[i] == chain.headers[i - 1]);
                        assert(other_all.headers[i] == other_behind->Ok_0.headers[i - 1]);
                    }
                }
            }
        }
    }
}

/// The models of the headers in `headers`, in their order.
pub open spec fn models(headers: Seq<ExtensionHeaderSlice<'_>>) -> Seq<HeaderModel> {
    Seq::new(headers.len(), |i: int| headers[i]@)
}

/// The ordered headers of a decoded chain of extension headers.
///
/// The order of the headers is the order of their bytes. A chain cannot be
/// changed after it was decoded.
#[derive(Clone, Debug, PartialEq, Eq)]
pub struct HeaderChain<'a> {
    headers: Vec<ExtensionHeaderSlice<'a>>,
}

impl<'a> View for HeaderChain<'a> {
    type V = Seq<HeaderModel>;

    closed spec fn view(&self) -> Seq<HeaderModel> {
        models(self.headers@)
    }
}

impl<'a> HeaderChain<'a> {
    /// Decodes the chain of extension headers at the start of `remaining`,
    /// whose first header has the type `start_type`.
    ///
    /// Returns the chain, the type number of what follows the chain and the
    /// view of the bytes behind the chain. The offsets in the views and in
    /// the errors count from the start of the buffer of `remaining`.
    pub fn from_view(start_type: u8, remaining: ByteView<'a>) -> (decoded: Result<
        (HeaderChain<'a>, u8, ByteView<'a>),
        HeadersSliceError,
    >)
        ensures
            match decoded {
                Ok((chain, next_protocol, payload)) => {
                    let model = ChainModel { headers: chain@, next_protocol, payload: payload@ };
                    &&& decode_chain(start_type, remaining@, true) == Ok::<
                        ChainModel,
                        HeadersSliceError,
                    >(model)
                    &&& well_linked(model, start_type, remaining@)
                    &&& forall|i: int|
                        0 < i < chain@.len() ==> (#[trigger] chain@[i]).header_type
                            != IPV6_HOP_BY_HOP
                    &&& MIN_EXTENSION_HEADER_LEN * chain@.len() + payload@.len <= remaining@.len
                },
                Err(err) => decode_chain(start_type, remaining@, true) == Err::<
                    ChainModel,
                    HeadersSliceError,
                >(err) && err.is_sound() && counts_to_end_of(err, remaining@),
            },
    {
        let _available: usize = remaining.len();
        let mut headers: Vec<ExtensionHeaderSlice<'a>> = Vec::new();
        let mut header_type = start_type;
        let mut rest = remaining;
        proof {
            lemma_chain_is_well_linked(start_type, remaining@, true);
            lemma_chain_errors_are_sound(start_type, remaining@, true);
            lemma_hop_by_hop_only_first(start_type, remaining@, true);
            lemma_chain_len_is_bounded(start_type, remaining@, true);
            assert(models(headers@) =~= Seq::<HeaderModel>::empty());
            lemma_extend_by_nothing(decode_chain(start_type, remaining@, true));
        }
        while is_extension_header(header_type)
            invariant
                rest@.wf(),
                decode_chain(start_type, remaining@, true) == extend(
                    models(headers@),
                    decode_chain(header_type, rest@, headers@.len() == 0),
                ),
                decode_chain(start_type, remaining@, true) matches Err(err) ==> err.is_sound()
                    && counts_to_end_of(err, remaining@),
                // Each header takes at least 8 bytes of the bytes that are left, so
                // the number of steps cannot pass the eighth part of the bytes.
                MIN_EXTENSION_HEADER_LEN * headers@.len() + rest@.len <= remaining@.len,
            decreases rest@.len,
        {
            let first = headers.len() == 0;
            match ExtensionHeaderSlice::from_view(header_type, rest) {
                Err(err) => {
                    return Err(err);
                },
                Ok((header, tail)) => {
                    if header_type == IPV6_HOP_BY_HOP && !first {
                        return Err(
                            HeadersSliceError::Content(
                                HeaderError::Ipv6Ext(ipv6_exts::HeaderError::HopByHopNotAtStart),
                            ),
                        );
                    }
                    proof {
                        lemma_extend_by_one(
                            models(headers@),
                            header@,
                            decode_chain(header@.next_header_type, tail@, false),
                        );
                        assert(models(headers@.push(header)) =~= models(headers@).push(header@));
                    }
                    headers.push(header);
                    header_type = header.next_header_type();
                    rest = tail;
                },
            }
        }
        proof {
            assert(models(headers@) + Seq::<HeaderModel>::empty() =~= models(headers@));
        }
        Ok((HeaderChain { headers }, header_type, rest))
    }

    /// Decodes the chain of extension headers at the start of `slice`,
    /// whose first header has the type `start_type`.
    pub fn from_slice(start_type: u8, slice: &'a [u8]) -> (decoded: Result<
        (HeaderChain<'a>, u8, ByteView<'a>),
        HeadersSliceError,
    >)
        ensures
            match decoded {
                Ok((chain, next_protocol, payload)) => {
                    let model = ChainModel { headers: chain@, next_protocol, payload: payload@ };
                    &&& decode_chain(start_type, Span::whole(slice@), true) == Ok::<
                        ChainModel,
                        HeadersSliceError,
                    >(model)
                    &&& well_linked(model, start_type, Span::whole(slice@))
                    &&& forall|i: int|
                        0 < i < chain@.len() ==> (#[trigger] chain@[i]).header_type
                            != IPV6_HOP_BY_HOP
                    &&& MIN_EXTENSION_HEADER_LEN * chain@.len() + payload@.len <= slice@.len()
                },
                Err(err) => decode_chain(start_type, Span::whole(slice@), true) == Err::<
                    ChainModel,
                    HeadersSliceError,
                >(err) && err.is_sound() && counts_to_end_of(err, Span::whole(slice@)),
            },
    {
        HeaderChain::from_view(start_type, ByteView::whole(slice))
    }

    /// Decodes the chain of extension headers at the start of `slice`,
    /// whose first header has the type `start_type`, where `slice` holds the
    /// bytes that are left of a larger buffer from `start_offset` on.
    ///
    /// The views that are returned look into `slice`. An error names the
    /// place of its layer in the larger buffer.
    pub fn from_slice_at_offset(start_type: u8, slice: &'a [u8], start_offset: usize) -> (decoded:
        Result<(HeaderChain<'a>, u8, ByteView<'a>), HeadersSliceError>)
        requires
            start_offset + slice@.len() <= usize::MAX,
        ensures
            match decoded {
                Ok((chain, next_protocol, payload)) => {
                    let model = ChainModel { headers: chain@, next_protocol, payload: payload@ };
                    &&& decode_chain(start_type, Span::whole(slice@), true) == Ok::<
                        ChainModel,
                        HeadersSliceError,
                    >(model)
                    &&& well_linked(model, start_type, Span::whole(slice@))
                    &&& forall|i: int|
                        0 < i < chain@.len() ==> (#[trigger] chain@[i]).header_type
                            != IPV6_HOP_BY_HOP
                    &&& MIN_EXTENSION_HEADER_LEN * chain@.len() + payload@.len <= slice@.len()
                },
                Err(err) => decode_chain(start_type, Span::whole(slice@), true) matches Err(
                    inner,
                ) && err == inner.spec_add_offset(start_offset as nat) && err.is_sound(),
            },
    {
        match HeaderChain::from_slice(start_type, slice) {
            Ok(decoded) => Ok(decoded),
            Err(err) => Err(err.add_offset(start_offset)),
        }
    }

    /// Number of headers in the chain.
    pub fn len(&self) -> (len: usize)
        ensures
            len == self@.len(),
    {
        self.headers.len()
    }

    /// Whether the chain holds no header.
    pub fn is_empty(&self) -> (empty: bool)
        ensures
            empty <==> self@.len() == 0,
    {
        self.headers.len() == 0
    }

    /// The header at index `index` of the chain, if the chain is that long.
    pub fn get(&self, index: usize) -> (header: Option<ExtensionHeaderSlice<'a>>)
        ensures
            match header {
                Some(header) => index < self@.len() && header@ == self@[index as int]
                    && header@.wf(),
                None => index >= self@.len(),
            },
    {
        if index < self.headers.len() {
            let header = self.headers[index];
            let _len: usize = header.len();
            Some(header)
        } else {
            None
        }
    }
}

/// Putting no header in front of an outcome leaves it as it is.
proof fn lemma_extend_by_nothing(outcome: Result<ChainModel, HeadersSliceError>)
    ensures
        extend(Seq::empty(), outcome) == outcome,
{
    if let Ok(chain) = outcome {
        assert(Seq::<HeaderModel>::empty() + chain.headers =~= chain.headers);
    }
}

/// Putting `decoded` in front of an outcome that starts with `header` is
/// putting `decoded` and `header` in front of the rest of that outcome.
proof fn lemma_extend_by_one(
    decoded: Seq<HeaderModel>,
    header: HeaderModel,
    outcome: Result<ChainModel, HeadersSliceError>,
)
    ensures
        extend(decoded, prepend(header, outcome)) == extend(decoded.push(header), outcome),
{
    if let Ok(chain) = outcome {
        assert(decoded + (seq![header] + chain.headers) =~= decoded.push(header) + chain.headers);
    }
}

} // verus!
