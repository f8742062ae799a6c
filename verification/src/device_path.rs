//! Device paths: chains of nodes, each with a header of four bytes that
//! gives its type, its sub-type and its length, ended by an end node.

use crate::bytes::{le_bytes, push_le};
use r_efi::protocols::device_path;
use vstd::prelude::*;

verus! {

/// The size in bytes of the header of a node.
pub const NODE_HEADER_SIZE: usize = 4;

/// The header of one node of a device path.
#[derive(Clone, Copy, Debug)]
pub struct DevicePathProtocol {
    pub node_type: u8,
    pub sub_type: u8,
    /// The length of the node in bytes, header included, low byte first.
    pub length: [u8; 2],
}

/// The kinds of node that the firmware makes or looks for.
#[derive(Clone, Copy, Debug, PartialEq, Eq, Structural)]
pub enum NodeKind {
    /// A PCI function: a hardware node.
    Pci,
    /// A range of memory: a hardware node.
    MemoryMapped,
    /// A partition of a hard drive: a media node.
    HardDrive,
    /// The end of the entire path.
    EndEntire,
}

/// The type and the sub-type of a node of each kind.
pub open spec fn node_kind(kind: NodeKind) -> (u8, u8) {
    match kind {
        NodeKind::Pci => (0x01, 0x01),
        NodeKind::MemoryMapped => (0x01, 0x03),
        NodeKind::HardDrive => (0x04, 0x01),
        NodeKind::EndEntire => (0x7f, 0xff),
    }
}

/// The type and the sub-type of a node of kind `kind`, as the constants of
/// `r_efi::protocols::device_path` give them: `TYPE_HARDWARE` (1) with
/// `Hardware::SUBTYPE_PCI` (1) or `Hardware::SUBTYPE_MMAP` (3),
/// `TYPE_MEDIA` (4) with `Media::SUBTYPE_HARDDRIVE` (1), and `TYPE_END`
/// (0x7f) with `End::SUBTYPE_ENTIRE` (0xff).
#[verifier::external_body]
fn efi_node_kind(kind: NodeKind) -> (r: (u8, u8))
    ensures
        r == node_kind(kind),
{
    match kind {
        NodeKind::Pci => (device_path::TYPE_HARDWARE, device_path::Hardware::SUBTYPE_PCI),
        NodeKind::MemoryMapped => (device_path::TYPE_HARDWARE, device_path::Hardware::SUBTYPE_MMAP),
        NodeKind::HardDrive => (device_path::TYPE_MEDIA, device_path::Media::SUBTYPE_HARDDRIVE),
        NodeKind::EndEntire => (device_path::TYPE_END, device_path::End::SUBTYPE_ENTIRE),
    }
}

impl DevicePathProtocol {
    /// The length of the node in bytes.
    pub open spec fn spec_size(self) -> int {
        self.length[0] + 256 * self.length[1]
    }

    /// Whether the node ends the entire path.
    pub open spec fn is_end(self) -> bool {
        (self.node_type, self.sub_type) == node_kind(NodeKind::EndEntire)
    }
}

/// The header of the node at `offset` of `bytes`, if four bytes lie there.
pub open spec fn spec_node_at(bytes: Seq<u8>, offset: int) -> Option<DevicePathProtocol> {
    if 0 <= offset && offset + NODE_HEADER_SIZE <= bytes.len() {
        Some(
            DevicePathProtocol {
                node_type: bytes[offset],
                sub_type: bytes[offset + 1],
                length: [bytes[offset + 2], bytes[offset + 3]],
            },
        )
    } else {
        None
    }
}

/// Whether a node lies whole at `offset` of `bytes`: its header, and as
/// many bytes as its length says, which are no fewer than the header.
pub open spec fn node_fits(bytes: Seq<u8>, offset: int) -> bool {
    spec_node_at(bytes, offset) matches Some(node) && NODE_HEADER_SIZE <= node.spec_size()
        && offset + node.spec_size() <= bytes.len()
}

/// The offset behind the last node of the path that starts at `offset` of
/// `bytes`; `None` where a node does not lie whole in `bytes` before the
/// end node is reached.
pub open spec fn path_end(bytes: Seq<u8>, offset: int) -> Option<int>
    decreases bytes.len() - offset,
{
    if !node_fits(bytes, offset) {
        None
    } else if spec_node_at(bytes, offset)->0.is_end() {
        Some(offset + spec_node_at(bytes, offset)->0.spec_size())
    } else {
        path_end(bytes, offset + spec_node_at(bytes, offset)->0.spec_size())
    }
}

/// The length in bytes of a node.
pub fn get_device_path_node_size(device_path: &DevicePathProtocol) -> (size: usize)
    ensures
        size == device_path.spec_size(),
{
    let low = device_path.length[0];
    let high = device_path.length[1];
    assert((low as usize) | ((high as usize) << 8) == low + 256 * high) by (bit_vector);
    (low as usize) | ((high as usize) << 8)
}

/// The type of a node.
pub fn get_device_path_node_type(device_path: &DevicePathProtocol) -> (node_type: u8)
    ensures
        node_type == device_path.node_type,
{
    device_path.node_type
}

/// The sub-type of a node.
pub fn get_device_path_node_sub_type(device_path: &DevicePathProtocol) -> (sub_type: u8)
    ensures
        sub_type == device_path.sub_type,
{
    device_path.sub_type
}

/// The header of the node at `offset` of `path`.
pub fn get_device_path_node(path: &[u8], offset: usize) -> (node: Option<DevicePathProtocol>)
    ensures
        node == spec_node_at(path@, offset as int),
{
    if offset > path.len() || path.len() - offset < NODE_HEADER_SIZE {
        return None;
    }
    Some(
        DevicePathProtocol {
            node_type: path[offset],
            sub_type: path[offset + 1],
            length: [path[offset + 2], path[offset + 3]],
        },
    )
}

/// The offset of the node that follows the one at `offset` of `path`;
/// `None` where no node lies whole at `offset`.
pub fn get_next_device_path_node(path: &[u8], offset: usize) -> (next: Option<usize>)
    ensures
        next == if node_fits(path@, offset as int) {
            Some((offset + spec_node_at(path@, offset as int)->0.spec_size()) as usize)
        } else {
            None
        },
{
    match get_device_path_node(path, offset) {
        None => None,
        Some(node) => {
            let size = get_device_path_node_size(&node);
            if size < NODE_HEADER_SIZE || path.len() - offset < size {
                None
            } else {
                Some(offset + size)
            }
        },
    }
}

/// The size in bytes of the device path at the front of `device_path`,
/// its end node included; `None` where `device_path` does not hold a
/// whole path.
pub fn get_device_path_size(device_path: &[u8]) -> (size: Option<usize>)
    ensures
        match size {
            Some(n) => path_end(device_path@, 0) == Some(n as int) && n <= device_path@.len(),
            None => path_end(device_path@, 0) is None,
        },
{
    let kind = efi_node_kind(NodeKind::EndEntire);
    let mut offset: usize = 0;
    while offset < device_path.len()
        invariant
            offset <= device_path@.len(),
            kind == node_kind(NodeKind::EndEntire),
            path_end(device_path@, 0) == path_end(device_path@, offset as int),
        decreases device_path.len() - offset,
    {
        let node = match get_device_path_node(device_path, offset) {
            None => {
                return None;
            },
            Some(node) => node,
        };
        let next = match get_next_device_path_node(device_path, offset) {
            None => {
                return None;
            },
            Some(next) => next,
        };
        if get_device_path_node_type(&node) == kind.0 && get_device_path_node_sub_type(&node)
            == kind.1 {
            return Some(next);
        }
        offset = next;
    }
    None
}

/// The bytes of a header: type, sub-type and length.
pub open spec fn node_header(kind: (u8, u8), length: nat) -> Seq<u8> {
    seq![kind.0, kind.1] + le_bytes(length, 2)
}

/// The node that ends the entire path.
pub open spec fn end_node() -> Seq<u8> {
    node_header(node_kind(NodeKind::EndEntire), 4)
}

/// The node of a PCI function.
pub open spec fn pci_node(function: u8, device: u8) -> Seq<u8> {
    node_header(node_kind(NodeKind::Pci), 6) + seq![function, device]
}

/// The node of the controller with number `controller`.
pub open spec fn controller_node(controller: u32) -> Seq<u8> {
    node_header((1, 5), 8) + le_bytes(controller as nat, 4)
}

/// The node of a range of memory.
pub open spec fn memory_mapped_node(memory_type: u32, start_address: u64, end_address: u64) -> Seq<
    u8,
> {
    node_header(node_kind(NodeKind::MemoryMapped), 24) + le_bytes(memory_type as nat, 4) + le_bytes(
        start_address as nat,
        8,
    ) + le_bytes(end_address as nat, 8)
}

/// The node of a partition of a hard drive with a partition table of
/// GUIDs: number, first block, number of blocks, the partition's
/// signature, and the marks of the table's format and of the kind of
/// signature.
pub open spec fn hard_drive_node(
    partition_number: u32,
    partition_start: u64,
    partition_size: u64,
    partition_signature: Seq<u8>,
) -> Seq<u8> {
    node_header(node_kind(NodeKind::HardDrive), 42) + le_bytes(partition_number as nat, 4)
        + le_bytes(partition_start as nat, 8) + le_bytes(partition_size as nat, 8)
        + partition_signature + seq![2u8, 2u8]
}

/// Appends a header.
fn push_header(bytes: &mut Vec<u8>, kind: (u8, u8), length: u16)
    ensures
        final(bytes)@ == old(bytes)@ + node_header(kind, length as nat),
{
    let ghost before = bytes@;
    bytes.push(kind.0);
    bytes.push(kind.1);
    push_le(bytes, length as u64, 2);
    proof {
        assert(bytes@ =~= before + node_header(kind, length as nat));
    }
}

/// Appends the node that ends the entire path.
pub fn push_end_node(bytes: &mut Vec<u8>)
    ensures
        final(bytes)@ == old(bytes)@ + end_node(),
{
    push_header(bytes, efi_node_kind(NodeKind::EndEntire), 4);
}

/// Appends the node of a PCI function.
pub fn push_pci_node(bytes: &mut Vec<u8>, function: u8, device: u8)
    ensures
        final(bytes)@ == old(bytes)@ + pci_node(function, device),
{
    let ghost before = bytes@;
    push_header(bytes, efi_node_kind(NodeKind::Pci), 6);
    bytes.push(function);
    bytes.push(device);
    proof {
        assert(bytes@ =~= before + pci_node(function, device));
    }
}

/// Appends the node of a controller.
pub fn push_controller_node(bytes: &mut Vec<u8>, controller: u32)
    ensures
        final(bytes)@ == old(bytes)@ + controller_node(controller),
{
    let ghost before = bytes@;
    push_header(bytes, (1, 5), 8);
    push_le(bytes, controller as u64, 4);
    proof {
        assert(bytes@ =~= before + controller_node(controller));
    }
}

/// Appends the node of a range of memory.
pub fn push_memory_mapped_node(
    bytes: &mut Vec<u8>,
    memory_type: u32,
    start_address: u64,
    end_address: u64,
)
    ensures
        final(bytes)@ == old(bytes)@ + memory_mapped_node(memory_type, start_address, end_address),
{
    let ghost before = bytes@;
    push_header(bytes, efi_node_kind(NodeKind::MemoryMapped), 24);
    push_le(bytes, memory_type as u64, 4);
    push_le(bytes, start_address, 8);
    push_le(bytes, end_address, 8);
    proof {
        assert(bytes@ =~= before + memory_mapped_node(memory_type, start_address, end_address));
    }
}

/// Appends the node of a partition of a hard drive.
pub fn push_hard_drive_node(
    bytes: &mut Vec<u8>,
    partition_number: u32,
    partition_start: u64,
    partition_size: u64,
    partition_signature: &[u8; 16],
)
    ensures
        final(bytes)@ == old(bytes)@ + hard_drive_node(
            partition_number,
            partition_start,
            partition_size,
            partition_signature@,
        ),
{
    let ghost before = bytes@;
    push_header(bytes, efi_node_kind(NodeKind::HardDrive), 42);
    push_le(bytes, partition_number as u64, 4);
    push_le(bytes, partition_start, 8);
    push_le(bytes, partition_size, 8);
    let ghost front = bytes@;
    let mut i: usize = 0;
    while i < 16
        invariant
            i <= 16,
            bytes@ == front + partition_signature@.subrange(0, i as int),
        decreases 16 - i,
    {
        bytes.push(partition_signature[i]);
        proof {
            assert(bytes@ =~= front + partition_signature@.subrange(0, i as int + 1));
        }
        i += 1;
    }
    bytes.push(2);
    bytes.push(2);
    proof {
        assert(partition_signature@.subrange(0, 16) =~= partition_signature@);
        assert(bytes@ =~= before + hard_drive_node(
            partition_number,
            partition_start,
            partition_size,
            partition_signature@,
        ));
    }
}

/// The device path of an image that lies in memory from `image` on and
/// takes `size` bytes: the node of its range, as code of a boot service,
/// and the end node.
pub open spec fn image_device_path(image: u64, size: u64) -> Seq<u8> {
    memory_mapped_node(3, image, (image + size - 1) as u64) + end_node()
}

/// The device path of the image of `size` bytes at `image`.
pub fn memory_mapped_device_path(image: u64, size: u64) -> (path: Vec<u8>)
    requires
        size >= 1,
        image + size - 1 <= u64::MAX,
    ensures
        path@ == image_device_path(image, size),
{
    let mut path: Vec<u8> = Vec::new();
    push_memory_mapped_node(
        &mut path,
        crate::calloc::EfiConstant::BootServicesCode.value(),
        image,
        image + (size - 1),
    );
    push_end_node(&mut path);
    path
}

} // verus!
