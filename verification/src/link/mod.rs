//! Decoding of the outermost framing of a frame.

pub mod double_vlan_slice;
pub mod ether_type;
pub mod ethernet2_slice;
pub mod link_slice;
pub mod linux_sll_slice;
pub mod single_vlan_slice;
pub mod vlan_header;

pub use crate::link::double_vlan_slice::DoubleVlanSlice;
pub use crate::link::ethernet2_slice::Ethernet2Slice;
pub use crate::link::link_slice::{LinkKind, LinkModel, LinkSlice, LinkType};
pub use crate::link::linux_sll_slice::LinuxSllSlice;
pub use crate::link::single_vlan_slice::SingleVlanSlice;
pub use crate::link::vlan_header::VlanHeader;
