use vstd::prelude::*;

verus! {

/// The protocol layer that an error belongs to.
///
/// A layer is carried for diagnostics only; no decoder branches on it.
#[derive(Clone, Copy, Debug, PartialEq, Eq, Hash, Structural)]
pub enum Layer {
    /// Linux cooked-capture (SLL) header.
    LinuxSllHeader,
    /// Ethernet II header.
    Ethernet2Header,
    /// Payload that is identified by an ether type number.
    EtherPayload,
    /// A single IEEE 802.1Q VLAN tagging header.
    SingleVlanHeader,
    /// Two stacked IEEE 802.1Q VLAN tagging headers.
    DoubleVlanHeader,
    /// IPv4 or IPv6 header, where the version is not known yet.
    IpHeader,
    /// IPv4 header.
    Ipv4Header,
    /// IPv4 packet (header and payload).
    Ipv4Packet,
    /// IP authentication header.
    IpAuthHeader,
    /// IPv6 header.
    Ipv6Header,
    /// IPv6 packet (header and payload).
    Ipv6Packet,
    /// An IPv6 extension header whose kind is not known.
    Ipv6ExtHeader,
    /// IPv6 hop-by-hop options header.
    Ipv6HopByHopHeader,
    /// IPv6 destination options header.
    Ipv6DestOptionsHeader,
    /// IPv6 routing header.
    Ipv6RouteHeader,
    /// IPv6 fragment header.
    Ipv6FragHeader,
    /// UDP header.
    UdpHeader,
    /// UDP payload.
    UdpPayload,
    /// TCP header.
    TcpHeader,
    /// ICMPv4 message.
    Icmpv4,
    /// ICMPv4 timestamp message.
    Icmpv4Timestamp,
    /// ICMPv4 timestamp reply message.
    Icmpv4TimestampReply,
    /// ICMPv6 message.
    Icmpv6,
}

impl Layer {
    /// The name of the layer as it stands in messages.
    pub open spec fn spec_name(self) -> Seq<char> {
        match self {
            Layer::LinuxSllHeader => "Linux cooked-capture header"@,
            Layer::Ethernet2Header => "Ethernet 2 header"@,
            Layer::EtherPayload => "payload identified by an ether type"@,
            Layer::SingleVlanHeader => "single VLAN header"@,
            Layer::DoubleVlanHeader => "double VLAN header"@,
            Layer::IpHeader => "IP header"@,
            Layer::Ipv4Header => "IPv4 header"@,
            Layer::Ipv4Packet => "IPv4 packet"@,
            Layer::IpAuthHeader => "IP authentication header"@,
            Layer::Ipv6Header => "IPv6 header"@,
            Layer::Ipv6Packet => "IPv6 packet"@,
            Layer::Ipv6ExtHeader => "IPv6 extension header"@,
            Layer::Ipv6HopByHopHeader => "IPv6 hop-by-hop options header"@,
            Layer::Ipv6DestOptionsHeader => "IPv6 destination options header"@,
            Layer::Ipv6RouteHeader => "IPv6 routing header"@,
            Layer::Ipv6FragHeader => "IPv6 fragment header"@,
            Layer::UdpHeader => "UDP header"@,
            Layer::UdpPayload => "UDP payload"@,
            Layer::TcpHeader => "TCP header"@,
            Layer::Icmpv4 => "ICMP packet"@,
            Layer::Icmpv4Timestamp => "ICMP timestamp message"@,
            Layer::Icmpv4TimestampReply => "ICMP timestamp reply message"@,
            Layer::Icmpv6 => "ICMPv6 packet"@,
        }
    }

    /// The name of the layer as it stands in messages.
    pub fn name(self) -> (name: &'static str)
        ensures
            name@ == self.spec_name(),
    {
        match self {
            Layer::LinuxSllHeader => "Linux cooked-capture header",
            Layer::Ethernet2Header => "Ethernet 2 header",
            Layer::EtherPayload => "payload identified by an ether type",
            Layer::SingleVlanHeader => "single VLAN header",
            Layer::DoubleVlanHeader => "double VLAN header",
            Layer::IpHeader => "IP header",
            Layer::Ipv4Header => "IPv4 header",
            Layer::Ipv4Packet => "IPv4 packet",
            Layer::IpAuthHeader => "IP authentication header",
            Layer::Ipv6Header => "IPv6 header",
            Layer::Ipv6Packet => "IPv6 packet",
            Layer::Ipv6ExtHeader => "IPv6 extension header",
            Layer::Ipv6HopByHopHeader => "IPv6 hop-by-hop options header",
            Layer::Ipv6DestOptionsHeader => "IPv6 destination options header",
            Layer::Ipv6RouteHeader => "IPv6 routing header",
            Layer::Ipv6FragHeader => "IPv6 fragment header",
            Layer::UdpHeader => "UDP header",
            Layer::UdpPayload => "UDP payload",
            Layer::TcpHeader => "TCP header",
            Layer::Icmpv4 => "ICMP packet",
            Layer::Icmpv4Timestamp => "ICMP timestamp message",
            Layer::Icmpv4TimestampReply => "ICMP timestamp reply message",
            Layer::Icmpv6 => "ICMPv6 packet",
        }
    }
}

} // verus!
