//! The block protocol: what describes a disk or one of its partitions to
//! a caller, and the plan of a read of blocks.

use crate::device_path::{
    controller_node, end_node, get_device_path_size, hard_drive_node, path_end, pci_node,
    push_controller_node, push_end_node, push_hard_drive_node, push_pci_node,
};
use crate::guid::{protocol_guid, ProtocolId};
use crate::handle_database::{install_outcome, null_handle, Handle, HandleDatabase, Records};
use crate::status::Status;
use vstd::prelude::*;

verus! {

/// The size in bytes of a block.
pub const BLOCK_SIZE: usize = 512;

/// The revision of the block protocol that is offered.
pub const BLOCK_IO_REVISION: u64 = 0x0001_0000;

/// The greatest number of partitions of one disk.
pub const MAX_PARTITIONS: usize = 15;

/// The medium behind a block protocol.
#[derive(Clone, Copy, Debug, PartialEq, Eq, Structural)]
pub struct BlockIoMedia {
    pub media_id: u32,
    pub removable_media: bool,
    pub media_present: bool,
    pub logical_partition: bool,
    pub read_only: bool,
    pub write_caching: bool,
    pub block_size: u32,
    pub io_align: u32,
    pub last_block: u64,
}

/// One partition, as the partition table gives it.
#[derive(Clone, Copy, Debug)]
pub struct PartitionEntry {
    pub first_lba: u64,
    pub last_lba: u64,
    pub guid: [u8; 16],
    /// Whether the partition is marked as the system partition.
    pub is_efi_partition: bool,
}

/// What stands behind one block protocol: a disk, or one partition of it.
#[derive(Debug)]
pub struct BlockWrapper {
    pub media: BlockIoMedia,
    pub revision: u64,
    /// The device path of the controller.
    pub controller_path: Vec<u8>,
    /// The device path of the disk or partition.
    pub disk_paths: Vec<u8>,
    /// The block of the disk at which the partition starts.
    pub start_lba: u64,
}

/// The wrappers of a disk: the disk itself first, then its partitions.
#[derive(Debug)]
pub struct BlockWrappers {
    pub wrappers: Vec<BlockWrapper>,
}

/// The medium of a disk of `capacity` blocks: present, fixed, read-only.
pub open spec fn media_of(capacity: u64) -> BlockIoMedia {
    BlockIoMedia {
        media_id: 0,
        removable_media: false,
        media_present: true,
        logical_partition: false,
        read_only: true,
        write_caching: false,
        block_size: 512,
        io_align: 0,
        last_block: (capacity - 1) as u64,
    }
}

/// The device path of the partition: the node of the disk's PCI function,
/// the node of the partition, and the end node.
pub open spec fn disk_paths_of(partition_number: u32, start_lba: u64, last_lba: u64, uuid: Seq<u8>) -> Seq<
    u8,
> {
    pci_node(0, 3) + hard_drive_node(
        partition_number,
        start_lba,
        (last_lba - start_lba + 1) as u64,
        uuid,
    ) + end_node()
}

/// The device path of the disk as a whole: the node of its PCI function
/// and the end node.
pub open spec fn pci_device_path() -> Seq<u8> {
    pci_node(0, 3) + end_node()
}

/// Whether the blocks from `start_lba` to `last_lba` can be counted.
pub open spec fn is_range(start_lba: u64, last_lba: u64) -> bool {
    start_lba <= last_lba && last_lba - start_lba < u64::MAX
}

impl BlockWrapper {
    /// Whether the wrapper is the one of the blocks from `start_lba` to
    /// `last_lba`, as partition `partition_number` with the signature
    /// `uuid`, of a disk of `capacity` blocks.
    pub open spec fn describes(
        self,
        capacity: u64,
        partition_number: u32,
        start_lba: u64,
        last_lba: u64,
        uuid: Seq<u8>,
    ) -> bool {
        &&& self.media == media_of(capacity)
        &&& self.revision == BLOCK_IO_REVISION
        &&& self.controller_path@ == controller_node(0)
        &&& self.disk_paths@ == disk_paths_of(partition_number, start_lba, last_lba, uuid)
        &&& self.start_lba == start_lba
    }

    /// The wrapper of the blocks from `start_lba` to `last_lba` of a disk
    /// of `capacity` blocks.
    pub fn new(
        capacity: u64,
        partition_number: u32,
        start_lba: u64,
        last_lba: u64,
        uuid: [u8; 16],
    ) -> (wrapper: BlockWrapper)
        requires
            capacity >= 1,
            is_range(start_lba, last_lba),
        ensures
            wrapper.describes(capacity, partition_number, start_lba, last_lba, uuid@),
    {
        let last_block = capacity - 1;
        let mut controller_path: Vec<u8> = Vec::new();
        push_controller_node(&mut controller_path, 0);
        let mut disk_paths: Vec<u8> = Vec::new();
        push_pci_node(&mut disk_paths, 0, 3);
        push_hard_drive_node(
            &mut disk_paths,
            partition_number,
            start_lba,
            last_lba - start_lba + 1,
            &uuid,
        );
        push_end_node(&mut disk_paths);
        proof {
            assert(controller_path@ =~= controller_node(0));
        }
        BlockWrapper {
            media: BlockIoMedia {
                media_id: 0,
                removable_media: false,
                media_present: true,
                logical_partition: false,
                read_only: true,
                write_caching: false,
                block_size: 512,
                io_align: 0,
                last_block,
            },
            revision: BLOCK_IO_REVISION,
            controller_path,
            disk_paths,
            start_lba,
        }
    }
}

/// The greatest last block of the first `n` partitions of `parts`, zero
/// for none.
pub open spec fn greatest_last_lba(parts: Seq<PartitionEntry>, n: int) -> u64
    decreases n,
{
    if n <= 0 {
        0
    } else if greatest_last_lba(parts, n - 1) < parts[n - 1].last_lba {
        parts[n - 1].last_lba
    } else {
        greatest_last_lba(parts, n - 1)
    }
}

/// The number of the system partition among the first `n` partitions of
/// `parts`: that of the last one marked so, counted from one, or zero.
pub open spec fn efi_partition_number(parts: Seq<PartitionEntry>, n: int) -> u32
    decreases n,
{
    if n <= 0 {
        0
    } else if parts[n - 1].is_efi_partition {
        n as u32
    } else {
        efi_partition_number(parts, n - 1)
    }
}

/// Makes the wrappers of a disk of `capacity` blocks with the partitions
/// `parts`: the disk as a whole in the first place, from block zero to the
/// greatest last block of a partition, and each partition in the place of
/// its number. Returns the number of the system partition.
pub fn populate_block_wrappers(wrappers: &mut BlockWrappers, capacity: u64, parts: &[PartitionEntry]) -> (efi_part_id:
    Option<u32>)
    requires
        capacity >= 1,
        parts@.len() <= MAX_PARTITIONS,
        forall|i: int|
            0 <= i < parts@.len() ==> (#[trigger] parts@[i]).first_lba <= parts@[i].last_lba
                < u64::MAX,
    ensures
        efi_part_id == Some(efi_partition_number(parts@, parts@.len() as int)),
        final(wrappers).wrappers@.len() == parts@.len() + 1,
        final(wrappers).wrappers@[0].describes(
            capacity,
            0,
            0,
            greatest_last_lba(parts@, parts@.len() as int),
            Seq::new(16, |i: int| 0u8),
        ),
        forall|i: int|
            0 <= i < parts@.len() ==> (#[trigger] final(wrappers).wrappers@[i + 1]).describes(
                capacity,
                (i + 1) as u32,
                parts@[i].first_lba,
                parts@[i].last_lba,
                parts@[i].guid@,
            ),
{
    let mut last_lba: u64 = 0;
    let mut efi_part_id: u32 = 0;
    let mut made: Vec<BlockWrapper> = Vec::new();
    let mut i: usize = 0;
    while i < parts.len()
        invariant
            i <= parts@.len() <= MAX_PARTITIONS,
            capacity >= 1,
            forall|k: int|
                0 <= k < parts@.len() ==> (#[trigger] parts@[k]).first_lba <= parts@[k].last_lba
                    < u64::MAX,
            last_lba < u64::MAX,
            last_lba == greatest_last_lba(parts@, i as int),
            efi_part_id == efi_partition_number(parts@, i as int),
            made@.len() == i,
            forall|k: int|
                0 <= k < i ==> (#[trigger] made@[k]).describes(
                    capacity,
                    (k + 1) as u32,
                    parts@[k].first_lba,
                    parts@[k].last_lba,
                    parts@[k].guid@,
                ),
        decreases parts.len() - i,
    {
        let p = parts[i];
        made.push(BlockWrapper::new(capacity, i as u32 + 1, p.first_lba, p.last_lba, p.guid));
        if last_lba < p.last_lba {
            last_lba = p.last_lba;
        }
        if p.is_efi_partition {
            efi_part_id = i as u32 + 1;
        }
        i += 1;
    }
    let zero: [u8; 16] = [0, 0, 0, 0, 0, 0, 0, 0, 0, 0, 0, 0, 0, 0, 0, 0];
    proof {
        assert(zero@ =~= Seq::new(16, |i: int| 0u8));
    }
    let whole = BlockWrapper::new(capacity, 0, 0, last_lba, zero);
    let ghost partitions = made@;
    made.insert(0, whole);
    proof {
        assert forall|k: int| 0 <= k < parts@.len() implies (#[trigger] made@[k + 1]).describes(
            capacity,
            (k + 1) as u32,
            parts@[k].first_lba,
            parts@[k].last_lba,
            parts@[k].guid@,
        ) by {
            assert(made@[k + 1] == partitions[k]);
        }
    }
    wrappers.wrappers = made;
    Some(efi_part_id)
}

/// The device path of a disk as a whole.
pub fn pci_path() -> (path: Vec<u8>)
    ensures
        path@ == pci_device_path(),
{
    let mut path: Vec<u8> = Vec::new();
    push_pci_node(&mut path, 0, 3);
    push_end_node(&mut path);
    path
}

/// A copy of the device path at the front of `device_path`; `None` where
/// `device_path` does not hold a whole path.
pub fn dup_device_path(device_path: &[u8]) -> (copy: Option<Vec<u8>>)
    ensures
        copy is Some == path_end(device_path@, 0) is Some,
        copy matches Some(bytes) ==> bytes@ == device_path@.subrange(
            0,
            path_end(device_path@, 0)->0,
        ),
{
    let device_path_size = match get_device_path_size(device_path) {
        None => {
            return None;
        },
        Some(size) => size,
    };
    let mut device_path_buffer: Vec<u8> = Vec::new();
    let mut i: usize = 0;
    while i < device_path_size
        invariant
            i <= device_path_size <= device_path@.len(),
            device_path_buffer@ == device_path@.subrange(0, i as int),
        decreases device_path_size - i,
    {
        device_path_buffer.push(device_path[i]);
        proof {
            assert(device_path_buffer@ =~= device_path@.subrange(0, i as int + 1));
        }
        i += 1;
    }
    Some(device_path_buffer)
}

/// The medium of the wrapper with index `index`.
pub fn get_block_io_media_str(wrappers: &BlockWrappers, index: usize) -> (media: &BlockIoMedia)
    requires
        index < wrappers.wrappers@.len(),
    ensures
        *media == wrappers.wrappers@[index as int].media,
{
    &wrappers.wrappers[index].media
}

/// The registry after a block protocol and a device path were installed
/// for one wrapper, and the handle that carries them: the block protocol
/// on a new handle, the device path on the handle that this gave.
pub open spec fn block_protocols_outcome(db: Seq<Records>, block_io: usize, device_path: usize) -> (
    Handle,
    Seq<Records>,
) {
    let first = install_outcome(db, null_handle(), protocol_guid(ProtocolId::BlockIo), block_io);
    let handle = if first.0 == Status::Success {
        first.1
    } else {
        null_handle()
    };
    let second = install_outcome(
        first.2,
        handle,
        protocol_guid(ProtocolId::DevicePath),
        device_path,
    );
    (
        if second.0 == Status::Success {
            second.1
        } else {
            handle
        },
        second.2,
    )
}

/// Installs the block protocol `block_io` and the device path
/// `device_path` of one wrapper on a handle of their own.
pub fn install_block_protocols(db: &mut HandleDatabase, block_io: usize, device_path: usize) -> (handle:
    Handle)
    requires
        old(db).wf(),
    ensures
        (handle, final(db)@) == block_protocols_outcome(old(db)@, block_io, device_path),
        final(db).wf(),
{
    let mut handle = Handle::null();
    let (status, new_handle) = db.install_protocol(handle, &ProtocolId::BlockIo.guid(), block_io);
    if status == Status::Success {
        handle = new_handle;
    }
    let (status, new_handle) = db.install_protocol(
        handle,
        &ProtocolId::DevicePath.guid(),
        device_path,
    );
    if status == Status::Success {
        handle = new_handle;
    }
    handle
}

/// What a read of blocks asks of the disk next.
#[derive(Clone, Copy, Debug, PartialEq, Eq, Structural)]
pub enum BlockAction {
    /// The block `lba` of the disk, for the place `offset` bytes into the
    /// caller's buffer.
    ReadSector { lba: u64, offset: usize },
    /// Nothing: the call is over.
    Done,
}

/// The state of one call of `read_blocks`.
#[derive(Clone, Copy, Debug, PartialEq, Eq, Structural)]
pub struct BlockRead {
    pub action: BlockAction,
    /// The first block of the read, counted from the start of the partition.
    pub start: u64,
    /// The number of whole blocks that the caller's buffer holds.
    pub blocks: usize,
    /// The number of blocks read so far.
    pub index: usize,
    /// The status of the call, once it is over.
    pub status: Status,
}

/// The block of the disk that the read `state` asks for when `index`
/// blocks were read; block numbers wrap round.
pub open spec fn sector_of(start_lba: u64, start: u64, index: usize) -> u64 {
    ((start_lba + start + index) % (u64::MAX + 1)) as u64
}

/// The state of a read of blocks of which `index` were read.
pub open spec fn block_read_at(start_lba: u64, start: u64, blocks: usize, index: usize) -> BlockRead {
    if index < blocks {
        BlockRead {
            action: BlockAction::ReadSector {
                lba: sector_of(start_lba, start, index),
                offset: (index * BLOCK_SIZE) as usize,
            },
            start,
            blocks,
            index,
            status: Status::Success,
        }
    } else {
        BlockRead { action: BlockAction::Done, start, blocks, index, status: Status::Success }
    }
}

/// The state that follows `state` when the disk has read the block asked
/// for (`ok`) or failed to: the next block, the end of the call with
/// `Success` behind the last one, or its end with `DeviceError`.
pub open spec fn block_read_next(start_lba: u64, state: BlockRead, ok: bool) -> BlockRead {
    if state.action == BlockAction::Done {
        state
    } else if !ok {
        BlockRead { action: BlockAction::Done, status: Status::DeviceError, ..state }
    } else if state.index < state.blocks {
        block_read_at(start_lba, state.start, state.blocks, (state.index + 1) as usize)
    } else {
        BlockRead { action: BlockAction::Done, status: Status::Success, ..state }
    }
}

/// Begins a read of `size` bytes from block `start` of the partition of
/// `wrapper`. Only whole blocks are read.
pub fn read_blocks(wrapper: &BlockWrapper, start: u64, size: usize) -> (state: BlockRead)
    ensures
        state == block_read_at(wrapper.start_lba, start, size / BLOCK_SIZE, 0),
{
    let blocks = size / BLOCK_SIZE;
    block_read(wrapper.start_lba, start, blocks, 0)
}

/// The state of a read of which `index` blocks were read.
fn block_read(start_lba: u64, start: u64, blocks: usize, index: usize) -> (state: BlockRead)
    requires
        blocks <= usize::MAX / BLOCK_SIZE,
    ensures
        state == block_read_at(start_lba, start, blocks, index),
{
    if index < blocks {
        let lba = start_lba.wrapping_add(start).wrapping_add(index as u64);
        BlockRead {
            action: BlockAction::ReadSector { lba, offset: index * BLOCK_SIZE },
            start,
            blocks,
            index,
            status: Status::Success,
        }
    } else {
        BlockRead { action: BlockAction::Done, start, blocks, index, status: Status::Success }
    }
}

/// Takes the disk's answer to the request of `state` and gives the state
/// that follows.
pub fn read_blocks_step(wrapper: &BlockWrapper, state: BlockRead, ok: bool) -> (next: BlockRead)
    requires
        state.blocks <= usize::MAX / BLOCK_SIZE,
    ensures
        next == block_read_next(wrapper.start_lba, state, ok),
{
    match state.action {
        BlockAction::Done => state,
        BlockAction::ReadSector { .. } => {
            if !ok {
                BlockRead {
                    action: BlockAction::Done,
                    start: state.start,
                    blocks: state.blocks,
                    index: state.index,
                    status: Status::DeviceError,
                }
            } else if state.index < state.blocks {
                block_read(wrapper.start_lba, state.start, state.blocks, state.index + 1)
            } else {
                BlockRead {
                    action: BlockAction::Done,
                    start: state.start,
                    blocks: state.blocks,
                    index: state.index,
                    status: Status::Success,
                }
            }
        },
    }
}

} // verus!
