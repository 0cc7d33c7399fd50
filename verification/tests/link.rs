use etherparse::err::link::LinkError;
use etherparse::err::{Layer, LenError};
use etherparse::link::{LinkKind, LinkSlice, LinkType, VlanHeader};
use etherparse::LenSource;

fn ethernet(ether_type: u16) -> Vec<u8> {
    let mut frame = vec![
        0x01, 0x02, 0x03, 0x04, 0x05, 0x06, // destination
        0x11, 0x12, 0x13, 0x14, 0x15, 0x16, // source
    ];
    frame.extend_from_slice(&ether_type.to_be_bytes());
    frame
}

fn len_error(err: LinkError) -> LenError {
    *err.len_error()
}

#[test]
fn ethernet_one_byte_short() {
    let frame = [0u8; 13];
    let err = LinkSlice::from_ethernet_slice(&frame).unwrap_err();
    assert_eq!(
        err,
        LinkError::Len(LenError {
            required_len: 14,
            len: 13,
            len_source: LenSource::Slice,
            layer: Layer::Ethernet2Header,
            layer_start_offset: 0,
        })
    );
    assert_eq!(LinkSlice::from_slice(LinkType::Ethernet2, &frame), Err(err));
}

#[test]
fn ethernet_every_short_length_fails() {
    for len in 0..14usize {
        let frame = vec![0u8; len];
        assert_eq!(
            len_error(LinkSlice::from_ethernet_slice(&frame).unwrap_err()),
            LenError {
                required_len: 14,
                len,
                len_source: LenSource::Slice,
                layer: Layer::Ethernet2Header,
                layer_start_offset: 0,
            }
        );
    }
}

#[test]
fn single_vlan_with_empty_payload() {
    let mut frame = ethernet(0x8100);
    frame.extend_from_slice(&[0x00, 0x2a, 0x08, 0x00]);
    assert_eq!(frame.len(), 18);
    let (slice, next) = LinkSlice::from_ethernet_slice(&frame).unwrap();
    assert_eq!(next, 0x0800);
    assert_eq!(slice.kind(), LinkKind::SingleVlan);
    assert_eq!(slice.next_protocol(), 0x0800);
    assert_eq!((slice.payload().offset(), slice.payload().len()), (18, 0));
    assert!(slice.payload().is_empty());
    assert_eq!((slice.header().offset(), slice.header().len()), (0, 18));
    match slice {
        LinkSlice::SingleVlan(single) => {
            assert_eq!(single.destination(), [1, 2, 3, 4, 5, 6]);
            assert_eq!(single.source(), [0x11, 0x12, 0x13, 0x14, 0x15, 0x16]);
            assert_eq!(single.tag_protocol(), 0x8100);
            assert_eq!(
                single.vlan(),
                VlanHeader {
                    pcp: 0,
                    drop_eligible_indicator: false,
                    vlan_id: 42,
                    ether_type: 0x0800,
                }
            );
            assert_eq!(single.ether_type(), 0x0800);
            assert_eq!(single.header().as_slice(), &frame[..]);
        }
        _ => panic!("not a single VLAN frame"),
    }
}

#[test]
fn plain_ethernet_passes_the_ether_type_through() {
    for ether_type in [0x0800u16, 0x86dd, 0x0806, 0x0000, 0xffff, 0x8101, 0x88a7] {
        let mut frame = ethernet(ether_type);
        frame.extend_from_slice(&[0xaa, 0xbb, 0xcc]);
        let (slice, next) = LinkSlice::from_ethernet_slice(&frame).unwrap();
        assert_eq!(next, ether_type);
        assert_eq!(slice.kind(), LinkKind::Ethernet2);
        assert_eq!(slice.header().len() + slice.payload().len(), frame.len());
        assert_eq!(slice.payload().offset(), 14);
        assert_eq!(slice.payload().as_slice(), &[0xaau8, 0xbb, 0xcc][..]);
        match slice {
            LinkSlice::Ethernet2(plain) => {
                assert_eq!(plain.destination(), [1, 2, 3, 4, 5, 6]);
                assert_eq!(plain.source(), [0x11, 0x12, 0x13, 0x14, 0x15, 0x16]);
                assert_eq!(plain.ether_type(), ether_type);
                assert_eq!(plain.header().as_slice(), &frame[..14]);
                assert_eq!(plain.payload().as_slice(), &frame[14..]);
            }
            _ => panic!("not a plain Ethernet frame"),
        }
    }
}

#[test]
fn every_vlan_ether_type_announces_a_tag() {
    for tag in [0x8100u16, 0x88a8, 0x9100] {
        let mut frame = ethernet(tag);
        frame.extend_from_slice(&[0xe0, 0x01, 0x86, 0xdd, 0x60]);
        let (slice, next) = LinkSlice::from_ethernet_slice(&frame).unwrap();
        assert_eq!(slice.kind(), LinkKind::SingleVlan);
        assert_eq!(next, 0x86dd);
        assert_eq!((slice.payload().offset(), slice.payload().len()), (18, 1));
    }
}

#[test]
fn vlan_fields_are_taken_from_their_bits() {
    let mut frame = ethernet(0x8100);
    // pcp 5, drop eligible, vlan id 0xabc
    frame.extend_from_slice(&[0xba, 0xbc, 0x08, 0x06]);
    let (slice, _) = LinkSlice::from_ethernet_slice(&frame).unwrap();
    match slice {
        LinkSlice::SingleVlan(single) => assert_eq!(
            single.vlan(),
            VlanHeader {
                pcp: 5,
                drop_eligible_indicator: true,
                vlan_id: 0xabc,
                ether_type: 0x0806,
            }
        ),
        _ => panic!("not a single VLAN frame"),
    }
    let mut frame = ethernet(0x8100);
    frame.extend_from_slice(&[0xef, 0xff, 0x08, 0x06]);
    let (slice, _) = LinkSlice::from_ethernet_slice(&frame).unwrap();
    match slice {
        LinkSlice::SingleVlan(single) => assert_eq!(
            single.vlan(),
            VlanHeader {
                pcp: 7,
                drop_eligible_indicator: false,
                vlan_id: 0xfff,
                ether_type: 0x0806,
            }
        ),
        _ => panic!("not a single VLAN frame"),
    }
}

#[test]
fn single_vlan_tag_missing() {
    for extra in 0..4usize {
        let mut frame = ethernet(0x8100);
        frame.extend_from_slice(&vec![0u8; extra]);
        assert_eq!(
            len_error(LinkSlice::from_ethernet_slice(&frame).unwrap_err()),
            LenError {
                required_len: 4,
                len: extra,
                len_source: LenSource::Slice,
                layer: Layer::SingleVlanHeader,
                layer_start_offset: 14,
            }
        );
    }
}

#[test]
fn double_vlan() {
    let mut frame = ethernet(0x88a8);
    frame.extend_from_slice(&[0x20, 0x64, 0x81, 0x00]);
    frame.extend_from_slice(&[0x90, 0xc8, 0x86, 0xdd]);
    frame.extend_from_slice(&[1, 2, 3, 4, 5]);
    let (slice, next) = LinkSlice::from_ethernet_slice(&frame).unwrap();
    assert_eq!(next, 0x86dd);
    assert_eq!(slice.kind(), LinkKind::DoubleVlan);
    assert_eq!((slice.header().offset(), slice.header().len()), (0, 22));
    assert_eq!((slice.payload().offset(), slice.payload().len()), (22, 5));
    assert_eq!(slice.header().len() + slice.payload().len(), frame.len());
    match slice {
        LinkSlice::DoubleVlan(double) => {
            assert_eq!(double.destination(), [1, 2, 3, 4, 5, 6]);
            assert_eq!(double.source(), [0x11, 0x12, 0x13, 0x14, 0x15, 0x16]);
            assert_eq!(double.tag_protocol(), 0x88a8);
            assert_eq!(
                double.outer(),
                VlanHeader {
                    pcp: 1,
                    drop_eligible_indicator: false,
                    vlan_id: 100,
                    ether_type: 0x8100,
                }
            );
            assert_eq!(
                double.inner(),
                VlanHeader {
                    pcp: 4,
                    drop_eligible_indicator: true,
                    vlan_id: 200,
                    ether_type: 0x86dd,
                }
            );
            assert_eq!(double.ether_type(), 0x86dd);
            assert_eq!(double.payload().as_slice(), &[1u8, 2, 3, 4, 5][..]);
        }
        _ => panic!("not a double VLAN frame"),
    }
}

#[test]
fn double_vlan_second_tag_missing() {
    for extra in 0..4usize {
        let mut frame = ethernet(0x8100);
        frame.extend_from_slice(&[0x00, 0x01, 0x81, 0x00]);
        frame.extend_from_slice(&vec![0u8; extra]);
        assert_eq!(
            len_error(LinkSlice::from_ethernet_slice(&frame).unwrap_err()),
            LenError {
                required_len: 8,
                len: 4 + extra,
                len_source: LenSource::Slice,
                layer: Layer::DoubleVlanHeader,
                layer_start_offset: 14,
            }
        );
    }
}

#[test]
fn a_third_tag_is_left_to_the_payload() {
    let mut frame = ethernet(0x8100);
    frame.extend_from_slice(&[0x00, 0x01, 0x81, 0x00]);
    frame.extend_from_slice(&[0x00, 0x02, 0x81, 0x00]);
    let (slice, next) = LinkSlice::from_ethernet_slice(&frame).unwrap();
    assert_eq!(slice.kind(), LinkKind::DoubleVlan);
    assert_eq!(next, 0x8100);
    assert_eq!((slice.payload().offset(), slice.payload().len()), (22, 0));
}

#[test]
fn linux_sll() {
    let frame = [
        0x00, 0x04, // packet type
        0x00, 0x01, // ARP hardware type
        0x00, 0x06, // sender address valid length
        0xa1, 0xa2, 0xa3, 0xa4, 0xa5, 0xa6, 0x00, 0x00, // sender address
        0x08, 0x00, // protocol type
        0x45, 0x00,
    ];
    let (slice, next) = LinkSlice::from_linux_sll_slice(&frame).unwrap();
    assert_eq!(next, 0x0800);
    assert_eq!(slice.kind(), LinkKind::LinuxSll);
    assert_eq!((slice.header().offset(), slice.header().len()), (0, 16));
    assert_eq!((slice.payload().offset(), slice.payload().len()), (16, 2));
    assert_eq!(
        LinkSlice::from_slice(LinkType::LinuxSll, &frame),
        Ok((slice, 0x0800))
    );
    match slice {
        LinkSlice::LinuxSll(sll) => {
            assert_eq!(sll.packet_type(), 4);
            assert_eq!(sll.arp_hardware_type(), 1);
            assert_eq!(sll.sender_address_valid_length(), 6);
            assert_eq!(
                sll.sender_address(),
                [0xa1, 0xa2, 0xa3, 0xa4, 0xa5, 0xa6, 0x00, 0x00]
            );
            assert_eq!(sll.protocol_type(), 0x0800);
            assert_eq!(sll.payload().as_slice(), &[0x45u8, 0x00][..]);
        }
        _ => panic!("not a cooked-capture frame"),
    }
}

#[test]
fn linux_sll_too_short() {
    for len in 0..16usize {
        let frame = vec![0u8; len];
        assert_eq!(
            len_error(LinkSlice::from_linux_sll_slice(&frame).unwrap_err()),
            LenError {
                required_len: 16,
                len,
                len_source: LenSource::Slice,
                layer: Layer::LinuxSllHeader,
                layer_start_offset: 0,
            }
        );
    }
}

#[test]
fn linux_sll_does_not_look_for_vlan_tags() {
    let mut frame = vec![0u8; 14];
    frame.extend_from_slice(&[0x81, 0x00]);
    let (slice, next) = LinkSlice::from_linux_sll_slice(&frame).unwrap();
    assert_eq!(slice.kind(), LinkKind::LinuxSll);
    assert_eq!(next, 0x8100);
    assert!(slice.payload().is_empty());
}

#[test]
fn link_type_selects_the_framing() {
    let mut frame = ethernet(0x0800);
    frame.extend_from_slice(&[0x86, 0xdd, 0x00]);
    let (as_ethernet, next_ethernet) = LinkSlice::from_slice(LinkType::Ethernet2, &frame).unwrap();
    let (as_sll, next_sll) = LinkSlice::from_slice(LinkType::LinuxSll, &frame).unwrap();
    assert_eq!(as_ethernet.kind(), LinkKind::Ethernet2);
    assert_eq!(next_ethernet, 0x0800);
    assert_eq!(as_sll.kind(), LinkKind::LinuxSll);
    assert_eq!(next_sll, 0x86dd);
}

#[test]
fn headers_and_payload_cover_the_buffer() {
    let tags = [0x0800u16, 0x8100, 0x88a8, 0x9100];
    for first in tags {
        for second in tags {
            for len in 0..40usize {
                let mut frame = ethernet(first);
                frame.extend_from_slice(&[0x00, 0x01]);
                frame.extend_from_slice(&second.to_be_bytes());
                frame.extend_from_slice(&[0x00, 0x02, 0x08, 0x00]);
                frame.resize(len, 0x5a);
                for link_type in [LinkType::Ethernet2, LinkType::LinuxSll] {
                    match LinkSlice::from_slice(link_type, &frame) {
                        Ok((slice, next)) => {
                            let header = slice.header();
                            let payload = slice.payload();
                            assert_eq!(header.offset(), 0);
                            assert_eq!(header.len(), slice.kind().header_len());
                            assert_eq!(payload.offset(), header.end());
                            assert_eq!(header.len() + payload.len(), frame.len());
                            assert_eq!(next, slice.next_protocol());
                        }
                        Err(err) => {
                            let err = len_error(err);
                            assert!(err.required_len > err.len);
                            assert_eq!(err.len_source, LenSource::Slice);
                            assert_eq!(err.layer_start_offset + err.len, frame.len());
                        }
                    }
                }
            }
        }
    }
}

#[test]
fn decoding_the_header_bytes_alone_finds_the_same_fields() {
    let mut frame = ethernet(0x88a8);
    frame.extend_from_slice(&[0x20, 0x64, 0x81, 0x00]);
    frame.extend_from_slice(&[0x90, 0xc8, 0x86, 0xdd]);
    frame.extend_from_slice(&[1, 2, 3, 4, 5]);
    let (slice, next) = LinkSlice::from_ethernet_slice(&frame).unwrap();
    let alone = slice.header().as_slice().to_vec();
    let (again, next_again) = LinkSlice::from_ethernet_slice(&alone).unwrap();
    assert_eq!(next, next_again);
    assert_eq!(slice.kind(), again.kind());
    assert!(again.payload().is_empty());
    match (slice, again) {
        (LinkSlice::DoubleVlan(one), LinkSlice::DoubleVlan(other)) => {
            assert_eq!(one.destination(), other.destination());
            assert_eq!(one.source(), other.source());
            assert_eq!(one.tag_protocol(), other.tag_protocol());
            assert_eq!(one.outer(), other.outer());
            assert_eq!(one.inner(), other.inner());
            assert_eq!(one.ether_type(), other.ether_type());
        }
        _ => panic!("not a double VLAN frame"),
    }
}
