//! The device nodes the adapter publishes in `/dev`.

use vstd::prelude::*;

verus! {

/// Major number of DRM card devices.
pub const DRM_MAJOR: u32 = 0xe2;
/// Major number of the `/dev/rknpu` node.
pub const RKNPU_MAJOR: u32 = 251;

/// The device word that the VFS builds from a major and a minor number.
pub open spec fn device_number(major: u32, minor: u32) -> u64 {
    ((major as u64 & 0xffff_f000u64) << 32u64) | ((major as u64 & 0x0000_0fffu64) << 8u64)
        | ((minor as u64 & 0xffff_ff00u64) << 12u64) | (minor as u64 & 0x0000_00ffu64)
}

/// Builds a device word with `axfs_ng_vfs::DeviceId::new`, which packs the
/// major and minor numbers as `device_number` states, and returns the word.
#[verifier::external_body]
fn device_id(major: u32, minor: u32) -> (id: u64)
    ensures
        id == device_number(major, minor),
{
    axfs_ng_vfs::DeviceId::new(major, minor).0
}

/// Where a node stands in `/dev`.
#[derive(Debug, Clone, Copy, PartialEq, Eq, Structural)]
pub enum NodePath {
    /// `/dev/rknpu`
    Rknpu,
    /// `/dev/dri/card0`
    DriCard0,
    /// `/dev/dri/card1`
    DriCard1,
}

/// Name of the directory a node stands in, below `/dev`, if any.
pub open spec fn spec_node_dir(p: NodePath) -> Option<Seq<char>> {
    match p {
        NodePath::Rknpu => None,
        _ => Some("dri"@),
    }
}

/// File name of a node.
pub open spec fn spec_node_name(p: NodePath) -> Seq<char> {
    match p {
        NodePath::Rknpu => "rknpu"@,
        NodePath::DriCard0 => "card0"@,
        NodePath::DriCard1 => "card1"@,
    }
}

impl NodePath {
    /// Name of the directory the node stands in, below `/dev`, if any.
    pub fn dir(&self) -> (r: Option<&'static str>)
        ensures
            r is Some == spec_node_dir(*self) is Some,
            r matches Some(d) ==> d@ == spec_node_dir(*self).unwrap(),
    {
        match self {
            NodePath::Rknpu => None,
            _ => Some("dri"),
        }
    }

    /// File name of the node.
    pub fn name(&self) -> (r: &'static str)
        ensures
            r@ == spec_node_name(*self),
    {
        match self {
            NodePath::Rknpu => "rknpu",
            NodePath::DriCard0 => "card0",
            NodePath::DriCard1 => "card1",
        }
    }
}

/// The device that answers on a node.
#[derive(Debug, Clone, Copy, PartialEq, Eq, Structural)]
pub enum NodeOps {
    /// The display card device.
    Card0,
    /// The NPU card device.
    Card1,
}

/// A character device node to publish.
#[derive(Debug, Clone, Copy, PartialEq, Eq, Structural)]
pub struct DevNode {
    pub path: NodePath,
    pub device_id: u64,
    pub ops: NodeOps,
}

/// The nodes published, in the order they are registered.
pub open spec fn spec_rknpu_nodes() -> Seq<DevNode> {
    seq![
        DevNode { path: NodePath::Rknpu, device_id: device_number(RKNPU_MAJOR, 0), ops: NodeOps::Card1 },
        DevNode { path: NodePath::DriCard0, device_id: device_number(DRM_MAJOR, 0), ops: NodeOps::Card0 },
        DevNode { path: NodePath::DriCard1, device_id: device_number(DRM_MAJOR, 1), ops: NodeOps::Card1 },
    ]
}

/// Device word of `/dev/rknpu`.
pub fn rknpu_device_id() -> (id: u64)
    ensures
        id == device_number(RKNPU_MAJOR, 0),
{
    device_id(RKNPU_MAJOR, 0)
}

/// Device word of `/dev/dri/card0`.
pub fn card0_system_device_id() -> (id: u64)
    ensures
        id == device_number(DRM_MAJOR, 0),
{
    device_id(DRM_MAJOR, 0)
}

/// Device word of `/dev/dri/card1`.
pub fn card1_system_device_id() -> (id: u64)
    ensures
        id == device_number(DRM_MAJOR, 1),
{
    device_id(DRM_MAJOR, 1)
}

/// Lists the NPU's device nodes: `/dev/rknpu` and `/dev/dri/card1` served
/// by the NPU card, `/dev/dri/card0` by the display card.
pub fn rknpu_device_nodes() -> (nodes: Vec<DevNode>)
    ensures
        nodes@ == spec_rknpu_nodes(),
{
    let mut nodes: Vec<DevNode> = Vec::new();
    nodes.push(DevNode { path: NodePath::Rknpu, device_id: rknpu_device_id(), ops: NodeOps::Card1 });
    nodes.push(DevNode { path: NodePath::DriCard0, device_id: card0_system_device_id(), ops: NodeOps::Card0 });
    nodes.push(DevNode { path: NodePath::DriCard1, device_id: card1_system_device_id(), ops: NodeOps::Card1 });
    proof {
        assert(nodes@ =~= spec_rknpu_nodes());
    }
    nodes
}

/// The published nodes stand at distinct paths and carry distinct device
/// words.
pub proof fn lemma_nodes_distinct()
    ensures
        forall|i: int, j: int|
            0 <= i < j < spec_rknpu_nodes().len() ==> spec_rknpu_nodes()[i].path != spec_rknpu_nodes()[j].path
                && spec_rknpu_nodes()[i].device_id != spec_rknpu_nodes()[j].device_id,
{
    assert(device_number(251, 0) == 0xfb00u64) by (bit_vector);
    assert(device_number(0xe2, 0) == 0xe200u64) by (bit_vector);
    assert(device_number(0xe2, 1) == 0xe201u64) by (bit_vector);
}

} // verus!
