use etherparse::err::ip_exts::{HeaderError, HeadersSliceError};
use etherparse::err::ipv6_exts::HeaderError::{HopByHopNotAtStart, IpAuth, UnsupportedHeaderType};
use etherparse::err::{ip_auth, Layer, LenError};
use etherparse::link::LinkSlice;
use etherparse::net::ip_number::{
    extension_layer, is_extension_header, AUTH, IPV6_DEST_OPTIONS, IPV6_FRAG, IPV6_HOP_BY_HOP,
    IPV6_ICMP, IPV6_NO_NEXT_HEADER, IPV6_ROUTE, TCP, UDP,
};
use etherparse::net::extension_header_slice::{declared_header_len, min_header_len};
use etherparse::net::{ExtensionHeaderSlice, HeaderChain};
use etherparse::{ByteView, LenSource};

/// An extension header with the given bytes in front and zeros up to `len`.
fn header(next: u8, len_field: u8, len: usize) -> Vec<u8> {
    let mut bytes = vec![next, len_field];
    bytes.resize(len, 0);
    bytes
}

#[test]
fn hop_by_hop_behind_routing_is_refused() {
    let mut bytes = header(IPV6_HOP_BY_HOP, 0, 8);
    bytes.extend(header(IPV6_NO_NEXT_HEADER, 0, 8));
    assert_eq!(
        HeaderChain::from_slice(IPV6_ROUTE, &bytes),
        Err(HeadersSliceError::Content(HeaderError::Ipv6Ext(
            HopByHopNotAtStart
        )))
    );
}

#[test]
fn terminal_start_type_gives_the_empty_chain() {
    let bytes = [1u8, 2, 3, 4, 5];
    for start in [TCP, UDP, IPV6_ICMP, IPV6_NO_NEXT_HEADER, 255, 1, 50, 135] {
        let (chain, next, payload) = HeaderChain::from_slice(start, &bytes).unwrap();
        assert!(chain.is_empty());
        assert_eq!(chain.len(), 0);
        assert_eq!(chain.get(0), None);
        assert_eq!(next, start);
        assert_eq!((payload.offset(), payload.len()), (0, 5));
        assert_eq!(payload.as_slice(), &bytes[..]);
    }
    let (chain, next, payload) = HeaderChain::from_slice(TCP, &[]).unwrap();
    assert!(chain.is_empty());
    assert_eq!(next, TCP);
    assert!(payload.is_empty());
}

#[test]
fn declared_length_behind_the_buffer() {
    // declares (1 + 1) * 8 = 16 bytes, 10 are there
    let bytes = header(TCP, 1, 10);
    assert_eq!(
        HeaderChain::from_slice(IPV6_ROUTE, &bytes),
        Err(HeadersSliceError::Len(LenError {
            required_len: 16,
            len: 10,
            len_source: LenSource::Specified,
            layer: Layer::Ipv6RouteHeader,
            layer_start_offset: 0,
        }))
    );
    // the same behind another header
    let mut bytes = header(IPV6_DEST_OPTIONS, 0, 8);
    bytes.extend(header(TCP, 1, 10));
    assert_eq!(
        HeaderChain::from_slice(IPV6_HOP_BY_HOP, &bytes),
        Err(HeadersSliceError::Len(LenError {
            required_len: 16,
            len: 10,
            len_source: LenSource::Specified,
            layer: Layer::Ipv6DestOptionsHeader,
            layer_start_offset: 8,
        }))
    );
}

#[test]
fn truncated_header_is_a_slice_error() {
    for len in 0..8usize {
        let bytes = header(TCP, 1, 8);
        assert_eq!(
            HeaderChain::from_slice(IPV6_ROUTE, &bytes[..len]),
            Err(HeadersSliceError::Len(LenError {
                required_len: 8,
                len,
                len_source: LenSource::Slice,
                layer: Layer::Ipv6RouteHeader,
                layer_start_offset: 0,
            }))
        );
    }
    for len in 0..12usize {
        let bytes = header(TCP, 1, 12);
        assert_eq!(
            HeaderChain::from_slice(AUTH, &bytes[..len]),
            Err(HeadersSliceError::Len(LenError {
                required_len: 12,
                len,
                len_source: LenSource::Slice,
                layer: Layer::IpAuthHeader,
                layer_start_offset: 0,
            }))
        );
    }
}

#[test]
fn a_full_chain() {
    let mut bytes = header(IPV6_DEST_OPTIONS, 0, 8); // hop by hop, 8 bytes
    bytes.extend(header(IPV6_ROUTE, 1, 16)); // destination options, 16 bytes
    bytes.extend(header(IPV6_FRAG, 2, 24)); // routing, 24 bytes
    bytes.extend(header(AUTH, 77, 8)); // fragment, always 8 bytes
    bytes.extend(header(UDP, 4, 24)); // authentication, (4 + 2) * 4 bytes
    bytes.extend([0xde, 0xad, 0xbe, 0xef]);
    let (chain, next, payload) = HeaderChain::from_slice(IPV6_HOP_BY_HOP, &bytes).unwrap();
    assert_eq!(next, UDP);
    assert_eq!((payload.offset(), payload.len()), (80, 4));
    assert_eq!(payload.as_slice(), &[0xdeu8, 0xad, 0xbe, 0xef][..]);
    assert_eq!(chain.len(), 5);
    assert!(!chain.is_empty());
    let expected = [
        (IPV6_HOP_BY_HOP, 0usize, 8usize, IPV6_DEST_OPTIONS),
        (IPV6_DEST_OPTIONS, 8, 16, IPV6_ROUTE),
        (IPV6_ROUTE, 24, 24, IPV6_FRAG),
        (IPV6_FRAG, 48, 8, AUTH),
        (AUTH, 56, 24, UDP),
    ];
    for (i, (header_type, offset, len, next)) in expected.into_iter().enumerate() {
        let header = chain.get(i).unwrap();
        assert_eq!(header.header_type(), header_type);
        assert_eq!(header.byte_view().offset(), offset);
        assert_eq!(header.byte_view().len(), len);
        assert_eq!(header.len(), len);
        assert_eq!(header.next_header_type(), next);
        assert_eq!(header.byte_view().as_slice(), &bytes[offset..offset + len]);
        assert_eq!(header.is_hop_by_hop(), i == 0);
    }
    assert_eq!(chain.get(5), None);
    assert_eq!(chain.get(0).unwrap().len_field(), 0);
    assert_eq!(chain.get(3).unwrap().len_field(), 77);
    assert_eq!(chain.get(4).unwrap().len_field(), 4);
}

#[test]
fn offsets_count_from_the_start_of_the_buffer() {
    let mut buffer = vec![0xffu8; 40];
    buffer.extend(header(IPV6_FRAG, 0, 8));
    buffer.extend(header(TCP, 0, 8));
    buffer.extend([1, 2, 3]);
    let remaining = ByteView::new(&buffer, 40, 19, Layer::Ipv6ExtHeader).unwrap();
    let (chain, next, payload) = HeaderChain::from_view(IPV6_ROUTE, remaining).unwrap();
    assert_eq!(next, TCP);
    assert_eq!(chain.len(), 2);
    assert_eq!(chain.get(0).unwrap().byte_view().offset(), 40);
    assert_eq!(chain.get(1).unwrap().byte_view().offset(), 48);
    assert_eq!((payload.offset(), payload.len()), (56, 3));
    // the view ends the bytes, not the buffer
    let remaining = ByteView::new(&buffer, 40, 12, Layer::Ipv6ExtHeader).unwrap();
    assert_eq!(
        HeaderChain::from_view(IPV6_ROUTE, remaining),
        Err(HeadersSliceError::Len(LenError {
            required_len: 8,
            len: 4,
            len_source: LenSource::Slice,
            layer: Layer::Ipv6FragHeader,
            layer_start_offset: 48,
        }))
    );
}

#[test]
fn length_is_checked_before_the_order() {
    // the late hop-by-hop header is not complete: the lack of bytes is
    // what is reported
    let mut bytes = header(IPV6_HOP_BY_HOP, 0, 8);
    bytes.extend(header(TCP, 0, 7));
    assert_eq!(
        HeaderChain::from_slice(IPV6_ROUTE, &bytes),
        Err(HeadersSliceError::Len(LenError {
            required_len: 8,
            len: 7,
            len_source: LenSource::Slice,
            layer: Layer::Ipv6HopByHopHeader,
            layer_start_offset: 8,
        }))
    );
    let mut bytes = header(IPV6_HOP_BY_HOP, 0, 8);
    bytes.extend(header(TCP, 3, 31));
    assert_eq!(
        HeaderChain::from_slice(IPV6_ROUTE, &bytes),
        Err(HeadersSliceError::Len(LenError {
            required_len: 32,
            len: 31,
            len_source: LenSource::Specified,
            layer: Layer::Ipv6HopByHopHeader,
            layer_start_offset: 8,
        }))
    );
}

#[test]
fn hop_by_hop_twice_is_refused() {
    let mut bytes = header(IPV6_HOP_BY_HOP, 0, 8);
    bytes.extend(header(TCP, 0, 8));
    assert_eq!(
        HeaderChain::from_slice(IPV6_HOP_BY_HOP, &bytes),
        Err(HeadersSliceError::Content(HeaderError::Ipv6Ext(
            HopByHopNotAtStart
        )))
    );
}

#[test]
fn hop_by_hop_first_is_accepted() {
    let mut bytes = header(IPV6_ROUTE, 0, 8);
    bytes.extend(header(TCP, 0, 8));
    let (chain, next, payload) = HeaderChain::from_slice(IPV6_HOP_BY_HOP, &bytes).unwrap();
    assert_eq!(chain.len(), 2);
    assert!(chain.get(0).unwrap().is_hop_by_hop());
    assert!(!chain.get(1).unwrap().is_hop_by_hop());
    assert_eq!(next, TCP);
    assert!(payload.is_empty());
}

#[test]
fn only_the_first_header_may_be_hop_by_hop() {
    let kinds = [IPV6_HOP_BY_HOP, IPV6_ROUTE, IPV6_FRAG, IPV6_DEST_OPTIONS, TCP];
    for first in kinds {
        for second in kinds {
            for third in kinds {
                let mut bytes = header(second, 0, 8);
                bytes.extend(header(third, 0, 8));
                bytes.extend(header(TCP, 0, 8));
                let late = (first != TCP && second == IPV6_HOP_BY_HOP)
                    || (first != TCP && second != TCP && third == IPV6_HOP_BY_HOP);
                match HeaderChain::from_slice(first, &bytes) {
                    Ok((chain, _, _)) => {
                        assert!(!late);
                        for i in 1..chain.len() {
                            assert!(!chain.get(i).unwrap().is_hop_by_hop());
                        }
                    }
                    Err(err) => {
                        assert!(late);
                        assert_eq!(
                            err,
                            HeadersSliceError::Content(HeaderError::Ipv6Ext(HopByHopNotAtStart))
                        );
                    }
                }
            }
        }
    }
}

#[test]
fn authentication_header_with_zero_payload_length() {
    let bytes = header(TCP, 0, 12);
    assert_eq!(
        HeaderChain::from_slice(AUTH, &bytes),
        Err(HeadersSliceError::Content(HeaderError::Ipv6Ext(IpAuth(
            ip_auth::HeaderError::ZeroPayloadLen
        ))))
    );
    // the shortest authentication header there is
    let bytes = header(TCP, 1, 12);
    let (chain, next, payload) = HeaderChain::from_slice(AUTH, &bytes).unwrap();
    assert_eq!(chain.len(), 1);
    assert_eq!(chain.get(0).unwrap().len(), 12);
    assert_eq!(next, TCP);
    assert!(payload.is_empty());
    // the declared length goes beyond the bytes
    let bytes = header(TCP, 2, 12);
    assert_eq!(
        HeaderChain::from_slice(AUTH, &bytes),
        Err(HeadersSliceError::Len(LenError {
            required_len: 16,
            len: 12,
            len_source: LenSource::Specified,
            layer: Layer::IpAuthHeader,
            layer_start_offset: 0,
        }))
    );
}

#[test]
fn header_lengths_follow_the_length_field() {
    assert_eq!(min_header_len(IPV6_HOP_BY_HOP), 8);
    assert_eq!(min_header_len(IPV6_ROUTE), 8);
    assert_eq!(min_header_len(IPV6_FRAG), 8);
    assert_eq!(min_header_len(IPV6_DEST_OPTIONS), 8);
    assert_eq!(min_header_len(AUTH), 12);
    assert_eq!(declared_header_len(IPV6_HOP_BY_HOP, 0), 8);
    assert_eq!(declared_header_len(IPV6_ROUTE, 1), 16);
    assert_eq!(declared_header_len(IPV6_DEST_OPTIONS, 255), 2048);
    assert_eq!(declared_header_len(IPV6_FRAG, 0), 8);
    assert_eq!(declared_header_len(IPV6_FRAG, 255), 8);
    assert_eq!(declared_header_len(AUTH, 1), 12);
    assert_eq!(declared_header_len(AUTH, 255), 1028);
    let bytes = header(TCP, 255, 2048);
    let (chain, _, payload) = HeaderChain::from_slice(IPV6_DEST_OPTIONS, &bytes).unwrap();
    assert_eq!(chain.get(0).unwrap().len(), 2048);
    assert!(payload.is_empty());
    let bytes = header(TCP, 255, 1030);
    let (chain, _, payload) = HeaderChain::from_slice(AUTH, &bytes).unwrap();
    assert_eq!(chain.get(0).unwrap().len(), 1028);
    assert_eq!(payload.len(), 2);
}

#[test]
fn extension_header_types() {
    for header_type in 0..=255u8 {
        let known = [0u8, 43, 44, 51, 60].contains(&header_type);
        assert_eq!(is_extension_header(header_type), known);
    }
    assert_eq!(extension_layer(IPV6_HOP_BY_HOP), Layer::Ipv6HopByHopHeader);
    assert_eq!(extension_layer(IPV6_ROUTE), Layer::Ipv6RouteHeader);
    assert_eq!(extension_layer(IPV6_FRAG), Layer::Ipv6FragHeader);
    assert_eq!(extension_layer(AUTH), Layer::IpAuthHeader);
    assert_eq!(extension_layer(IPV6_DEST_OPTIONS), Layer::Ipv6DestOptionsHeader);
    assert_eq!(extension_layer(TCP), Layer::Ipv6ExtHeader);
}

#[test]
fn single_header_of_a_terminal_type_is_unsupported() {
    let bytes = header(TCP, 0, 8);
    assert_eq!(
        ExtensionHeaderSlice::from_slice(TCP, &bytes),
        Err(HeadersSliceError::Content(HeaderError::Ipv6Ext(
            UnsupportedHeaderType(TCP)
        )))
    );
}

#[test]
fn single_header_does_not_look_at_the_order() {
    let mut bytes = header(IPV6_HOP_BY_HOP, 1, 16);
    bytes.extend([7, 7, 7]);
    let (first, tail) = ExtensionHeaderSlice::from_slice(IPV6_HOP_BY_HOP, &bytes).unwrap();
    assert_eq!(first.header_type(), IPV6_HOP_BY_HOP);
    assert_eq!(first.next_header_type(), IPV6_HOP_BY_HOP);
    assert_eq!(first.len(), 16);
    assert_eq!((tail.offset(), tail.len()), (16, 3));
}

#[test]
fn decoding_the_bytes_of_a_header_alone_finds_the_same_header() {
    let mut buffer = vec![0x33u8; 14];
    buffer.extend(header(IPV6_ROUTE, 1, 16));
    buffer.extend(header(AUTH, 0, 8));
    buffer.extend(header(IPV6_FRAG, 3, 20));
    buffer.extend(header(IPV6_ICMP, 9, 8));
    buffer.extend([0x80, 0x00]);
    let remaining = ByteView::new(&buffer, 14, buffer.len() - 14, Layer::Ipv6ExtHeader).unwrap();
    let (chain, next, payload) = HeaderChain::from_view(IPV6_HOP_BY_HOP, remaining).unwrap();
    assert_eq!(chain.len(), 4);
    for i in 0..chain.len() {
        let header = chain.get(i).unwrap();
        let alone = header.byte_view().as_slice().to_vec();
        let (again, tail) = ExtensionHeaderSlice::from_slice(header.header_type(), &alone).unwrap();
        assert_eq!(again.header_type(), header.header_type());
        assert_eq!(again.next_header_type(), header.next_header_type());
        assert_eq!(again.len(), header.len());
        assert_eq!(again.len_field(), header.len_field());
        assert_eq!(again.byte_view().offset(), 0);
        assert!(tail.is_empty());
    }
    // the bytes of the whole chain, as a buffer of their own
    let alone = remaining.as_slice().to_vec();
    let (chain_again, next_again, payload_again) =
        HeaderChain::from_slice(IPV6_HOP_BY_HOP, &alone).unwrap();
    assert_eq!(chain_again.len(), chain.len());
    assert_eq!(next_again, next);
    assert_eq!(payload_again.as_slice(), payload.as_slice());
    assert_eq!(payload_again.offset() + 14, payload.offset());
    for i in 0..chain.len() {
        let one = chain.get(i).unwrap();
        let other = chain_again.get(i).unwrap();
        assert_eq!(one.header_type(), other.header_type());
        assert_eq!(one.next_header_type(), other.next_header_type());
        assert_eq!(one.len(), other.len());
        assert_eq!(one.byte_view().offset(), other.byte_view().offset() + 14);
    }
}

#[test]
fn the_chain_is_no_longer_than_the_bytes_allow() {
    // headers that announce their own kind for as long as there are bytes
    for len in 0..100usize {
        let mut bytes = Vec::new();
        while bytes.len() < len {
            bytes.extend(header(IPV6_ROUTE, 0, 8));
        }
        bytes.truncate(len);
        match HeaderChain::from_slice(IPV6_ROUTE, &bytes) {
            Ok(_) => panic!("the chain never ends"),
            Err(err) => assert_eq!(
                err,
                HeadersSliceError::Len(LenError {
                    required_len: 8,
                    len: len % 8,
                    len_source: LenSource::Slice,
                    layer: Layer::Ipv6RouteHeader,
                    layer_start_offset: len - len % 8,
                })
            ),
        }
        // the same with an end behind the last complete header
        if len >= 8 {
            let last = (len / 8 - 1) * 8;
            bytes[last] = TCP;
            let (chain, next, payload) = HeaderChain::from_slice(IPV6_ROUTE, &bytes).unwrap();
            assert_eq!(chain.len(), len / 8);
            assert!(chain.len() * 8 <= bytes.len());
            assert_eq!(next, TCP);
            assert_eq!(payload.len(), len % 8);
        }
    }
}

#[test]
fn headers_and_payload_tile_the_bytes() {
    let mut bytes = header(IPV6_ROUTE, 2, 24);
    bytes.extend(header(AUTH, 1, 16));
    bytes.extend(header(IPV6_DEST_OPTIONS, 3, 20));
    bytes.extend(header(UDP, 0, 8));
    bytes.extend([1, 2, 3, 4, 5, 6]);
    let (chain, next, payload) = HeaderChain::from_slice(IPV6_HOP_BY_HOP, &bytes).unwrap();
    let mut at = 0;
    let mut announced = IPV6_HOP_BY_HOP;
    for i in 0..chain.len() {
        let header = chain.get(i).unwrap();
        assert_eq!(header.byte_view().offset(), at);
        assert_eq!(header.header_type(), announced);
        at = header.byte_view().end();
        announced = header.next_header_type();
    }
    assert_eq!(payload.offset(), at);
    assert_eq!(payload.end(), bytes.len());
    assert_eq!(next, announced);
    assert!(!is_extension_header(next));
}

#[test]
fn every_length_error_is_a_shortfall() {
    let kinds = [IPV6_HOP_BY_HOP, IPV6_ROUTE, IPV6_FRAG, AUTH, IPV6_DEST_OPTIONS];
    for kind in kinds {
        for len_field in [0u8, 1, 2, 5] {
            for len in 0..60usize {
                let mut bytes = header(kind, len_field, 8);
                bytes.extend(header(TCP, len_field, 52));
                bytes.truncate(len);
                if let Err(HeadersSliceError::Len(err)) = HeaderChain::from_slice(kind, &bytes) {
                    assert!(err.required_len > err.len);
                    assert_eq!(err.layer_start_offset + err.len, bytes.len());
                    assert_eq!(err.layer_start_offset % 4, 0);
                }
            }
        }
    }
}

#[test]
fn payload_of_the_link_layer_goes_into_the_chain_decoder() {
    let mut frame = vec![0u8; 12];
    frame.extend([0x86, 0xdd]);
    frame.extend(header(TCP, 0, 8));
    frame.extend([0xab]);
    let (link, _) = LinkSlice::from_ethernet_slice(&frame).unwrap();
    let (chain, next, payload) = HeaderChain::from_view(IPV6_DEST_OPTIONS, link.payload()).unwrap();
    assert_eq!(chain.len(), 1);
    assert_eq!(chain.get(0).unwrap().byte_view().offset(), 14);
    assert_eq!(next, TCP);
    assert_eq!((payload.offset(), payload.len()), (22, 1));
    let short = &frame[..20];
    let (link, _) = LinkSlice::from_ethernet_slice(short).unwrap();
    assert_eq!(
        HeaderChain::from_view(IPV6_DEST_OPTIONS, link.payload()),
        Err(HeadersSliceError::Len(LenError {
            required_len: 8,
            len: 6,
            len_source: LenSource::Slice,
            layer: Layer::Ipv6DestOptionsHeader,
            layer_start_offset: 14,
        }))
    );
}

#[test]
fn errors_are_attributed_to_the_larger_buffer() {
    let mut bytes = header(IPV6_DEST_OPTIONS, 0, 8);
    bytes.extend(header(TCP, 1, 10));
    assert_eq!(
        HeaderChain::from_slice_at_offset(IPV6_HOP_BY_HOP, &bytes, 54),
        Err(HeadersSliceError::Len(LenError {
            required_len: 16,
            len: 10,
            len_source: LenSource::Specified,
            layer: Layer::Ipv6DestOptionsHeader,
            layer_start_offset: 62,
        }))
    );
    assert_eq!(
        HeaderChain::from_slice_at_offset(IPV6_HOP_BY_HOP, &bytes[..3], 54),
        Err(HeadersSliceError::Len(LenError {
            required_len: 8,
            len: 3,
            len_source: LenSource::Slice,
            layer: Layer::Ipv6HopByHopHeader,
            layer_start_offset: 54,
        }))
    );
    // a content error names no place
    let mut bytes = header(IPV6_HOP_BY_HOP, 0, 8);
    bytes.extend(header(TCP, 0, 8));
    assert_eq!(
        HeaderChain::from_slice_at_offset(IPV6_ROUTE, &bytes, 54),
        Err(HeadersSliceError::Content(HeaderError::Ipv6Ext(
            HopByHopNotAtStart
        )))
    );
    // what is decoded is what is decoded without the offset
    let mut bytes = header(IPV6_FRAG, 0, 8);
    bytes.extend(header(TCP, 0, 8));
    bytes.extend([1, 2]);
    assert_eq!(
        HeaderChain::from_slice_at_offset(IPV6_ROUTE, &bytes, 54),
        HeaderChain::from_slice(IPV6_ROUTE, &bytes)
    );
    let (chain, next, payload) = HeaderChain::from_slice_at_offset(IPV6_ROUTE, &bytes, 54).unwrap();
    assert_eq!(chain.len(), 2);
    assert_eq!(next, TCP);
    assert_eq!((payload.offset(), payload.len()), (16, 2));
}
