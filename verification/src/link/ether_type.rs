use vstd::prelude::*;

verus! {

/// Internet protocol version 4.
pub const IPV4: u16 = 0x0800;

/// Address resolution protocol.
pub const ARP: u16 = 0x0806;

/// IEEE 802.1Q VLAN tagged frame.
pub const VLAN_TAGGED_FRAME: u16 = 0x8100;

/// Internet protocol version 6.
pub const IPV6: u16 = 0x86dd;

/// IEEE 802.1ad provider bridging, the tag of a service provider.
pub const PROVIDER_BRIDGING: u16 = 0x88a8;

/// The tag that was in use for double tagging before IEEE 802.1ad.
pub const VLAN_DOUBLE_TAGGED_FRAME: u16 = 0x9100;

/// Whether an ether type says that a VLAN tagging header follows.
pub open spec fn spec_is_vlan(ether_type: u16) -> bool {
    ether_type == VLAN_TAGGED_FRAME || ether_type == PROVIDER_BRIDGING || ether_type
        == VLAN_DOUBLE_TAGGED_FRAME
}

/// Whether an ether type says that a VLAN tagging header follows.
#[verifier::when_used_as_spec(spec_is_vlan)]
pub fn is_vlan(ether_type: u16) -> (tagged: bool)
    ensures
        tagged == spec_is_vlan(ether_type),
{
    ether_type == VLAN_TAGGED_FRAME || ether_type == PROVIDER_BRIDGING || ether_type
        == VLAN_DOUBLE_TAGGED_FRAME
}

} // verus!
