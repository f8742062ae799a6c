//! The file protocol bridge: the volume object with its table of open file
//! objects, and the decisions of the file protocol's calls.
//!
//! The filesystem itself is not part of the library. A call that needs it
//! is a small state machine: the state names the request to make of the
//! filesystem, and a step function takes the filesystem's answer and gives
//! the next state, until the state is `Done` and holds what the call
//! returns.

use crate::device_path::{end_node, hard_drive_node, push_end_node, push_hard_drive_node};
use crate::encoder::{decodable, decode, utf8_of};
use crate::file_info::{
    empty_record, entry_record, info_size, DirectoryEntry, FileInfo, FileType,
};
use crate::guid::{file_info_id, Guid, ProtocolId};
use crate::os_str::{before_terminator, OsStr};
use crate::status::Status;
use vstd::prelude::*;

verus! {

/// The size in bytes of the buffer into which a path is decoded.
pub const PATH_BUFFER_SIZE: usize = 256;

/// The size in bytes of the record that ends a directory.
pub const EMPTY_RECORD_SIZE: usize = 82;

/// What the filesystem answers when it cannot do what was asked.
#[derive(Clone, Copy, Debug, PartialEq, Eq, Structural)]
pub enum Error {
    NotFound,
    EndOfFile,
    Other,
}

/// The partition that a filesystem lies in.
#[derive(Clone, Copy, Debug)]
pub struct Filesystem {
    pub part_id: u32,
    pub start: u64,
    pub last: u64,
}

/// The token for one open file object: its place in the volume's table,
/// and how many objects were closed at that place before it was opened.
#[derive(Clone, Copy, Debug, PartialEq, Eq, Structural)]
pub struct FileHandle {
    pub index: usize,
    pub generation: u64,
}

/// One place of the table of file objects: the entry of the object that is
/// open there, if one is, and the number of objects closed there so far.
#[derive(Clone, Copy, Debug)]
pub struct FileWrapper {
    pub generation: u64,
    pub ofile: Option<DirectoryEntry>,
}

/// The volume object: one mounted filesystem and the file objects that are
/// open on it.
pub struct FileSystemWrapper {
    fs: Filesystem,
    capacity: usize,
    files: Vec<FileWrapper>,
}

/// The signature that the device path of every volume carries: the bytes
/// of "EFI PART", and eight zero bytes.
pub open spec fn partition_signature() -> Seq<u8> {
    seq![0x45u8, 0x46u8, 0x49u8, 0x20u8, 0x50u8, 0x41u8, 0x52u8, 0x54u8, 0u8, 0u8, 0u8, 0u8, 0u8, 0u8, 0u8, 0u8]
}

/// The device path of the volume in the partition `fs`.
pub open spec fn hard_drive_device_path(fs: Filesystem) -> Seq<u8> {
    hard_drive_node(fs.part_id, fs.start, (fs.last - fs.start) as u64, partition_signature())
        + end_node()
}

/// Whether `file` names an object that is open in `files`.
pub open spec fn is_open(files: Seq<FileWrapper>, file: FileHandle) -> bool {
    &&& file.index < files.len()
    &&& files[file.index as int].generation == file.generation
    &&& files[file.index as int].ofile is Some
}

/// The index of the first free place of `files` at or behind `from`, or
/// the length of `files` if there is none.
pub open spec fn first_free(files: Seq<FileWrapper>, from: int) -> int
    decreases files.len() - from,
{
    if from < 0 || from >= files.len() {
        files.len() as int
    } else if files[from].ofile is None {
        from
    } else {
        first_free(files, from + 1)
    }
}

/// The creation of a file object over `entry`: it takes the first free
/// place, or a new one while the table has fewer than `capacity`, and
/// fails with `OutOfResources` otherwise.
pub open spec fn create_outcome(files: Seq<FileWrapper>, capacity: usize, entry: DirectoryEntry) -> (
    Result<FileHandle, Status>,
    Seq<FileWrapper>,
) {
    let index = first_free(files, 0);
    if index < files.len() {
        (
            Ok(FileHandle { index: index as usize, generation: files[index].generation }),
            files.update(
                index,
                FileWrapper { generation: files[index].generation, ofile: Some(entry) },
            ),
        )
    } else if files.len() < capacity {
        (
            Ok(FileHandle { index: files.len() as usize, generation: 0 }),
            files.push(FileWrapper { generation: 0, ofile: Some(entry) }),
        )
    } else {
        (Err(Status::OutOfResources), files)
    }
}

/// The generation that follows `generation`.
pub open spec fn next_generation(generation: u64) -> u64 {
    if generation < u64::MAX {
        (generation + 1) as u64
    } else {
        0
    }
}

/// The table after `file` was closed: its place is free and no handle
/// made for it before names it any more.
pub open spec fn close_outcome(files: Seq<FileWrapper>, file: FileHandle) -> Seq<FileWrapper> {
    if is_open(files, file) {
        files.update(
            file.index as int,
            FileWrapper { generation: next_generation(file.generation), ofile: None },
        )
    } else {
        files
    }
}

impl View for FileSystemWrapper {
    type V = Seq<FileWrapper>;

    /// The table of file objects.
    closed spec fn view(&self) -> Seq<FileWrapper> {
        self.files@
    }
}

impl FileSystemWrapper {
    /// The greatest number of file objects that can be open at once.
    pub closed spec fn spec_capacity(&self) -> usize {
        self.capacity
    }

    /// The partition of the volume.
    pub closed spec fn spec_fs(&self) -> Filesystem {
        self.fs
    }

    /// The invariant of the volume: the table holds no more places than
    /// its capacity.
    pub open spec fn wf(&self) -> bool {
        self@.len() <= self.spec_capacity()
    }

    /// The volume object for `fs`, with no file object open and room for
    /// `capacity` of them.
    pub fn new(fs: Filesystem, capacity: usize) -> (wrapper: FileSystemWrapper)
        ensures
            wrapper.wf(),
            wrapper@ == Seq::<FileWrapper>::empty(),
            wrapper.spec_capacity() == capacity,
            wrapper.spec_fs() == fs,
    {
        FileSystemWrapper { fs, capacity, files: Vec::new() }
    }

    /// The partition of the volume.
    pub fn fs(&self) -> (fs: Filesystem)
        ensures
            fs == self.spec_fs(),
    {
        self.fs
    }

    /// The entry of the file object `file`, if it is open.
    pub fn entry(&self, file: FileHandle) -> (entry: Option<DirectoryEntry>)
        ensures
            entry == if is_open(self@, file) {
                self@[file.index as int].ofile
            } else {
                None
            },
    {
        if file.index < self.files.len() && self.files[file.index].generation == file.generation {
            self.files[file.index].ofile
        } else {
            None
        }
    }

    /// The device path of the volume: the node of its partition, and the
    /// end node.
    pub fn get_hard_drive_device_path(&self) -> (path: Vec<u8>)
        requires
            self.spec_fs().start <= self.spec_fs().last,
        ensures
            path@ == hard_drive_device_path(self.spec_fs()),
    {
        let mut path: Vec<u8> = Vec::new();
        let signature: [u8; 16] = [0x45, 0x46, 0x49, 0x20, 0x50, 0x41, 0x52, 0x54, 0, 0, 0, 0, 0, 0, 0, 0];
        push_hard_drive_node(
            &mut path,
            self.fs.part_id,
            self.fs.start,
            self.fs.last - self.fs.start,
            &signature,
        );
        push_end_node(&mut path);
        proof {
            assert(signature@ =~= partition_signature());
        }
        path
    }

    /// Opens a file object over `ofile`.
    pub fn create_file(&mut self, ofile: &DirectoryEntry) -> (r: Result<FileHandle, Status>)
        requires
            old(self).wf(),
        ensures
            (r, final(self)@) == create_outcome(old(self)@, old(self).spec_capacity(), *ofile),
            final(self).wf(),
            final(self).spec_capacity() == old(self).spec_capacity(),
            final(self).spec_fs() == old(self).spec_fs(),
    {
        let mut index: usize = 0;
        while index < self.files.len()
            invariant
                index <= self.files@.len(),
                *self == *old(self),
                self.wf(),
                first_free(self.files@, 0) == first_free(self.files@, index as int),
            decreases self.files.len() - index,
        {
            if self.files[index].ofile.is_none() {
                let generation = self.files[index].generation;
                self.files[index] = FileWrapper { generation, ofile: Some(*ofile) };
                return Ok(FileHandle { index, generation });
            }
            index += 1;
        }
        if self.files.len() < self.capacity {
            self.files.push(FileWrapper { generation: 0, ofile: Some(*ofile) });
            return Ok(FileHandle { index, generation: 0 });
        }
        Err(Status::OutOfResources)
    }
}

/// Closes the file object `file_in` and frees its place. It always
/// succeeds; a handle that names no open object changes nothing.
pub fn close(wrapper: &mut FileSystemWrapper, file_in: FileHandle) -> (status: Status)
    requires
        old(wrapper).wf(),
    ensures
        status == Status::Success,
        final(wrapper)@ == close_outcome(old(wrapper)@, file_in),
        final(wrapper).wf(),
        final(wrapper).spec_capacity() == old(wrapper).spec_capacity(),
        final(wrapper).spec_fs() == old(wrapper).spec_fs(),
{
    if wrapper.entry(file_in).is_some() {
        let generation = if file_in.generation < u64::MAX {
            file_in.generation + 1
        } else {
            0
        };
        wrapper.files[file_in.index] = FileWrapper { generation, ofile: None };
    }
    Status::Success
}

/// Opens the root directory of the volume, which the filesystem reported
/// as `root`: `DeviceError` where the filesystem could not give it, else a
/// file object over it.
pub fn filesystem_open_volumn(wrapper: &mut FileSystemWrapper, root: Result<DirectoryEntry, Error>) -> (r:
    (Status, Option<FileHandle>))
    requires
        old(wrapper).wf(),
    ensures
        (r, final(wrapper)@) == open_volume_outcome(
            old(wrapper)@,
            old(wrapper).spec_capacity(),
            root,
        ),
        final(wrapper).wf(),
        final(wrapper).spec_capacity() == old(wrapper).spec_capacity(),
        final(wrapper).spec_fs() == old(wrapper).spec_fs(),
{
    match root {
        Err(_) => (Status::DeviceError, None),
        Ok(entry) => match wrapper.create_file(&entry) {
            Err(err) => (err, None),
            Ok(file) => (Status::Success, Some(file)),
        },
    }
}

/// What opening the volume returns, and the table afterwards.
pub open spec fn open_volume_outcome(
    files: Seq<FileWrapper>,
    capacity: usize,
    root: Result<DirectoryEntry, Error>,
) -> ((Status, Option<FileHandle>), Seq<FileWrapper>) {
    match root {
        Err(_) => ((Status::DeviceError, None), files),
        Ok(entry) => match create_outcome(files, capacity, entry).0 {
            Err(err) => ((err, None), create_outcome(files, capacity, entry).1),
            Ok(file) => ((Status::Success, Some(file)), create_outcome(files, capacity, entry).1),
        },
    }
}

/// What `open` asks of the filesystem next.
#[derive(Clone, Copy, Debug, PartialEq, Eq, Structural)]
pub enum OpenAction {
    /// Look up the parent of the entry of the file object that is opened from.
    GetParent,
    /// Open the path under the entry of the file object that is opened from.
    Open,
    /// Nothing: the call is over.
    Done,
}

/// The state of one call of `open`.
#[derive(Debug)]
pub struct OpenState {
    pub action: OpenAction,
    /// The path in its decoded form, as it is handed to the filesystem.
    pub path: Vec<u8>,
    /// The status of the call, once it is over.
    pub status: Status,
    /// The file object opened, once the call is over with `Success`.
    pub file_out: Option<FileHandle>,
}

/// The contents of an `OpenState`.
pub struct OpenModel {
    pub action: OpenAction,
    pub path: Seq<u8>,
    pub status: Status,
    pub file_out: Option<FileHandle>,
}

impl View for OpenState {
    type V = OpenModel;

    open spec fn view(&self) -> OpenModel {
        OpenModel {
            action: self.action,
            path: self.path@,
            status: self.status,
            file_out: self.file_out,
        }
    }
}

/// The decoded form of the path in the caller's buffer `path_in`: the
/// UTF-8 encoding of the characters before the terminator, or the empty
/// path where they cannot be decoded into the path buffer.
pub open spec fn decoded_path(path_in: Seq<u16>) -> Seq<u8> {
    if decodable(before_terminator(path_in), PATH_BUFFER_SIZE) {
        utf8_of(before_terminator(path_in))
    } else {
        Seq::empty()
    }
}

/// The path that names the parent directory: two dots.
pub open spec fn parent_path() -> Seq<u8> {
    seq![0x2eu8, 0x2eu8]
}

/// An `open` that is over.
pub open spec fn open_done(path: Seq<u8>, status: Status, file_out: Option<FileHandle>) -> OpenModel {
    OpenModel { action: OpenAction::Done, path, status, file_out }
}

/// The first state of an `open` from `file_in` with the path `path_in`.
pub open spec fn open_start(files: Seq<FileWrapper>, file_in: FileHandle, path_in: Seq<u16>) -> OpenModel {
    if !is_open(files, file_in) {
        open_done(decoded_path(path_in), Status::InvalidParameter, None)
    } else {
        OpenModel {
            action: if decoded_path(path_in) == parent_path() {
                OpenAction::GetParent
            } else {
                OpenAction::Open
            },
            path: decoded_path(path_in),
            status: Status::Success,
            file_out: None,
        }
    }
}

/// The state that follows `state` when the filesystem answers `found`,
/// and the table of file objects afterwards.
///
/// The parent of the root cannot be had: `InvalidParameter`. An entry
/// that the filesystem does not find is `NotFound`, any other failure of
/// it `DeviceError`; an entry that it opens gets a file object.
pub open spec fn open_next(
    files: Seq<FileWrapper>,
    capacity: usize,
    state: OpenModel,
    found: Result<DirectoryEntry, Error>,
) -> (OpenModel, Seq<FileWrapper>) {
    match state.action {
        OpenAction::GetParent => match found {
            Ok(_) => (OpenModel { action: OpenAction::Open, ..state }, files),
            Err(_) => (open_done(state.path, Status::InvalidParameter, None), files),
        },
        OpenAction::Open => match found {
            Ok(entry) => match create_outcome(files, capacity, entry).0 {
                Ok(file) => (
                    open_done(state.path, Status::Success, Some(file)),
                    create_outcome(files, capacity, entry).1,
                ),
                Err(err) => (open_done(state.path, err, None), files),
            },
            Err(Error::NotFound) => (open_done(state.path, Status::NotFound, None), files),
            Err(_) => (open_done(state.path, Status::DeviceError, None), files),
        },
        OpenAction::Done => (state, files),
    }
}

/// Begins the opening of the path in `path_in` from the file object
/// `file_in`. The state returned names what to ask of the filesystem.
pub fn open(wrapper: &FileSystemWrapper, file_in: FileHandle, path_in: &[u16]) -> (state: OpenState)
    ensures
        state@ == open_start(wrapper@, file_in, path_in@),
{
    let path_os = OsStr::from_u16_slice_with_nul(path_in);
    let path = match decode(path_os.as_u16_slice(), PATH_BUFFER_SIZE) {
        Some(path) => path,
        None => Vec::new(),
    };
    if wrapper.entry(file_in).is_none() {
        return OpenState {
            action: OpenAction::Done,
            path,
            status: Status::InvalidParameter,
            file_out: None,
        };
    }
    let is_parent = path.len() == 2 && path[0] == 0x2e && path[1] == 0x2e;
    proof {
        if is_parent {
            assert(path@ =~= parent_path());
        }
    }
    OpenState {
        action: if is_parent {
            OpenAction::GetParent
        } else {
            OpenAction::Open
        },
        path,
        status: Status::Success,
        file_out: None,
    }
}

/// Takes the filesystem's answer to the request of `state` and gives the
/// state that follows.
pub fn open_step(wrapper: &mut FileSystemWrapper, state: OpenState, found: Result<
    DirectoryEntry,
    Error,
>) -> (next: OpenState)
    requires
        old(wrapper).wf(),
    ensures
        (next@, final(wrapper)@) == open_next(
            old(wrapper)@,
            old(wrapper).spec_capacity(),
            state@,
            found,
        ),
        final(wrapper).wf(),
        final(wrapper).spec_capacity() == old(wrapper).spec_capacity(),
        final(wrapper).spec_fs() == old(wrapper).spec_fs(),
{
    let OpenState { action, path, status, file_out } = state;
    match action {
        OpenAction::GetParent => match found {
            Ok(_) => OpenState { action: OpenAction::Open, path, status, file_out },
            Err(_) => OpenState {
                action: OpenAction::Done,
                path,
                status: Status::InvalidParameter,
                file_out: None,
            },
        },
        OpenAction::Open => {
            let (status, file_out) = match found {
                Ok(entry) => match wrapper.create_file(&entry) {
                    Ok(file) => (Status::Success, Some(file)),
                    Err(err) => (err, None),
                },
                Err(Error::NotFound) => (Status::NotFound, None),
                Err(_) => (Status::DeviceError, None),
            };
            OpenState { action: OpenAction::Done, path, status, file_out }
        },
        OpenAction::Done => OpenState { action, path, status, file_out },
    }
}

/// What `read` asks of the filesystem next.
#[derive(Clone, Copy, Debug, PartialEq, Eq, Structural)]
pub enum ReadAction {
    /// The next entry of the directory.
    NextEntry,
    /// The next bytes of the file.
    ReadFile,
    /// Nothing: the call is over.
    Done,
}

/// The state of one call of `read`.
#[derive(Debug)]
pub struct ReadState {
    pub action: ReadAction,
    /// The number of bytes that the caller's buffer holds.
    pub wanted: usize,
    /// The bytes for the front of the caller's buffer.
    pub data: Vec<u8>,
    /// The status of the call, once it is over.
    pub status: Status,
    /// The size reported to the caller, once the call is over.
    pub size: usize,
}

/// The contents of a `ReadState`.
pub struct ReadModel {
    pub action: ReadAction,
    pub wanted: usize,
    pub data: Seq<u8>,
    pub status: Status,
    pub size: usize,
}

impl View for ReadState {
    type V = ReadModel;

    open spec fn view(&self) -> ReadModel {
        ReadModel {
            action: self.action,
            wanted: self.wanted,
            data: self.data@,
            status: self.status,
            size: self.size,
        }
    }
}

/// A `read` that is over.
pub open spec fn read_done(wanted: usize, data: Seq<u8>, status: Status, size: usize) -> ReadModel {
    ReadModel { action: ReadAction::Done, wanted, data, status, size }
}

/// A `read` that asks for `action`, with `data` gathered so far.
pub open spec fn read_pending(action: ReadAction, wanted: usize, data: Seq<u8>) -> ReadModel {
    ReadModel { action, wanted, data, status: Status::Success, size: data.len() as usize }
}

/// The first state of a `read` on `file` into a buffer of `size` bytes.
pub open spec fn read_start(files: Seq<FileWrapper>, file: FileHandle, size: usize) -> ReadModel {
    if !is_open(files, file) {
        read_done(size, Seq::empty(), Status::InvalidParameter, size)
    } else {
        match files[file.index as int].ofile->0.file_type {
            FileType::File => if size == 0 {
                read_done(size, Seq::empty(), Status::Success, 0)
            } else {
                read_pending(ReadAction::ReadFile, size, Seq::empty())
            },
            FileType::Directory => read_pending(ReadAction::NextEntry, size, Seq::empty()),
        }
    }
}

/// How many more bytes the buffer of `state` takes.
pub open spec fn room(state: ReadModel) -> int {
    if state.data.len() < state.wanted {
        state.wanted - state.data.len()
    } else {
        0
    }
}

/// The state that follows `state` when the filesystem answers a request
/// for the next bytes of a file with `chunk`.
///
/// The bytes are taken as far as the buffer has room. A full buffer ends
/// the call with `Success`. The end of the file ends it with `EndOfFile`
/// if nothing was read, and with `Success` and the number of bytes read
/// otherwise. Any other failure ends it with `DeviceError` and size zero.
pub open spec fn read_file_next(state: ReadModel, chunk: Result<Seq<u8>, Error>) -> ReadModel {
    if state.action != ReadAction::ReadFile {
        state
    } else {
        match chunk {
            Ok(bytes) => {
                let take = if bytes.len() < room(state) {
                    bytes.len() as int
                } else {
                    room(state)
                };
                let data = state.data + bytes.subrange(0, take);
                if take == room(state) {
                    read_done(state.wanted, data, Status::Success, data.len() as usize)
                } else {
                    read_pending(ReadAction::ReadFile, state.wanted, data)
                }
            },
            Err(Error::EndOfFile) => if state.data.len() == 0 {
                read_done(state.wanted, state.data, Status::EndOfFile, 0)
            } else {
                read_done(state.wanted, state.data, Status::Success, state.data.len() as usize)
            },
            Err(_) => read_done(state.wanted, state.data, Status::DeviceError, 0),
        }
    }
}

/// The state that follows `state` when the filesystem answers a request
/// for the next entry of a directory with `entry`.
///
/// An entry is returned as its record if the buffer holds it, and
/// otherwise refused with `BufferTooSmall` and the size needed. The end
/// of the directory is `Success` with size zero and the empty record,
/// which is written if the buffer holds it. Any other failure is
/// `DeviceError` and leaves the size as it was.
pub open spec fn read_directory_next(state: ReadModel, entry: Result<DirectoryEntry, Error>) -> ReadModel {
    if state.action != ReadAction::NextEntry {
        state
    } else {
        match entry {
            Ok(de) => {
                let need = info_size(de.spec_file_name().len() as int) as usize;
                if state.wanted < need {
                    read_done(state.wanted, Seq::empty(), Status::BufferTooSmall, need)
                } else {
                    read_done(state.wanted, entry_record(de), Status::Success, need)
                }
            },
            Err(Error::EndOfFile) => read_done(
                state.wanted,
                if state.wanted >= EMPTY_RECORD_SIZE {
                    empty_record()
                } else {
                    Seq::empty()
                },
                Status::Success,
                0,
            ),
            Err(_) => read_done(state.wanted, Seq::empty(), Status::DeviceError, state.wanted),
        }
    }
}

/// Begins a read on the file object `file` into a buffer of `size` bytes.
/// The state returned names what to ask of the filesystem.
pub fn read(wrapper: &FileSystemWrapper, file: FileHandle, size: usize) -> (state: ReadState)
    ensures
        state@ == read_start(wrapper@, file, size),
{
    let (action, status, reported) = match wrapper.entry(file) {
        None => (ReadAction::Done, Status::InvalidParameter, size),
        Some(entry) => match entry.file_type {
            FileType::File => if size == 0 {
                (ReadAction::Done, Status::Success, 0)
            } else {
                (ReadAction::ReadFile, Status::Success, 0)
            },
            FileType::Directory => (ReadAction::NextEntry, Status::Success, 0),
        },
    };
    ReadState { action, wanted: size, data: Vec::new(), status, size: reported }
}

/// Takes the filesystem's answer to a request for the next bytes of a
/// file and gives the state that follows.
pub fn read_file(state: ReadState, chunk: Result<Vec<u8>, Error>) -> (next: ReadState)
    ensures
        next@ == read_file_next(
            state@,
            match chunk {
                Ok(bytes) => Ok(bytes@),
                Err(err) => Err(err),
            },
        ),
{
    let ReadState { action, wanted, data, status, size } = state;
    if action != ReadAction::ReadFile {
        return ReadState { action, wanted, data, status, size };
    }
    let mut data = data;
    let ghost before = data@;
    let mut status = Status::Success;
    let mut action = ReadAction::ReadFile;
    match chunk {
        Ok(bytes) => {
            let bytes_remaining = if data.len() < wanted {
                wanted - data.len()
            } else {
                0
            };
            let mut can_copy_bytes = bytes.len();
            if can_copy_bytes > bytes_remaining {
                can_copy_bytes = bytes_remaining;
            }
            let mut i: usize = 0;
            while i < can_copy_bytes
                invariant
                    i <= can_copy_bytes <= bytes@.len(),
                    data@ == before + bytes@.subrange(0, i as int),
                    before.len() + can_copy_bytes <= usize::MAX,
                decreases can_copy_bytes - i,
            {
                data.push(bytes[i]);
                proof {
                    assert(data@ =~= before + bytes@.subrange(0, i as int + 1));
                }
                i += 1;
            }
            proof {
                assert(before + bytes@.subrange(0, 0) =~= before);
            }
            if can_copy_bytes == bytes_remaining {
                action = ReadAction::Done;
            }
        },
        Err(Error::EndOfFile) => {
            if data.len() == 0 {
                status = Status::EndOfFile;
            } else {
                status = Status::Success;
            }
            action = ReadAction::Done;
        },
        Err(_) => {
            status = Status::DeviceError;
            action = ReadAction::Done;
        },
    }
    let size = if status.is_error() {
        0
    } else {
        data.len()
    };
    ReadState { action, wanted, data, status, size }
}

/// Takes the filesystem's answer to a request for the next entry of a
/// directory and gives the state that follows.
pub fn read_directory(state: ReadState, entry: Result<DirectoryEntry, Error>) -> (next: ReadState)
    ensures
        next@ == read_directory_next(state@, entry),
{
    let ReadState { action, wanted, data, status, size } = state;
    if action != ReadAction::NextEntry {
        return ReadState { action, wanted, data, status, size };
    }
    match entry {
        Err(Error::EndOfFile) => {
            let data = if wanted >= EMPTY_RECORD_SIZE {
                FileInfo::empty().to_bytes()
            } else {
                Vec::new()
            };
            ReadState { action: ReadAction::Done, wanted, data, status: Status::Success, size: 0 }
        },
        Err(_) => ReadState {
            action: ReadAction::Done,
            wanted,
            data: Vec::new(),
            status: Status::DeviceError,
            size: wanted,
        },
        Ok(de) => {
            let mut info = FileInfo::empty();
            match info.init(de, wanted) {
                Ok(total_size) => ReadState {
                    action: ReadAction::Done,
                    wanted,
                    data: info.to_bytes(),
                    status: Status::Success,
                    size: total_size,
                },
                Err(need_size) => ReadState {
                    action: ReadAction::Done,
                    wanted,
                    data: Vec::new(),
                    status: Status::BufferTooSmall,
                    size: need_size,
                },
            }
        },
    }
}

/// What a request for the metadata of `file` under the identifier `guid`
/// returns to a caller whose buffer holds `info_size` bytes: the status,
/// the size reported, and the bytes for the buffer.
///
/// Only the file-metadata identifier is served. A buffer that holds the
/// record gets it whole, with its size; a smaller one is refused with
/// `BufferTooSmall` and the size needed, and gets nothing.
pub open spec fn get_info_outcome(
    files: Seq<FileWrapper>,
    file: FileHandle,
    guid: Guid,
    buffer_size: usize,
) -> (Status, usize, Seq<u8>) {
    if !is_open(files, file) {
        (Status::InvalidParameter, buffer_size, Seq::empty())
    } else if guid != file_info_id() {
        (Status::Unsupported, buffer_size, Seq::empty())
    } else {
        let de = files[file.index as int].ofile->0;
        let need = info_size(de.spec_file_name().len() as int) as usize;
        if buffer_size < need {
            (Status::BufferTooSmall, need, Seq::empty())
        } else {
            (Status::Success, need, entry_record(de))
        }
    }
}

/// The metadata of the file object `file`, for a caller that asks under
/// the identifier `guid` with a buffer of `info_size` bytes.
pub fn get_info(wrapper: &FileSystemWrapper, file: FileHandle, guid: &Guid, info_size: usize) -> (r: (
    Status,
    usize,
    Vec<u8>,
))
    ensures
        (r.0, r.1, r.2@) == get_info_outcome(wrapper@, file, *guid, info_size),
{
    let de = match wrapper.entry(file) {
        None => {
            return (Status::InvalidParameter, info_size, Vec::new());
        },
        Some(de) => de,
    };
    if !guid.same(&ProtocolId::FileInfo.guid()) {
        return (Status::Unsupported, info_size, Vec::new());
    }
    let mut info = FileInfo::empty();
    match info.init(de, info_size) {
        Ok(total_size) => (Status::Success, total_size, info.to_bytes()),
        Err(need_size) => (Status::BufferTooSmall, need_size, Vec::new()),
    }
}

/// Deleting a file is not supported.
pub fn delete(_file: FileHandle) -> (status: Status)
    ensures
        status == Status::Unsupported,
{
    Status::Unsupported
}

/// Writing to a file is not supported.
pub fn write(_file: FileHandle, _size: usize) -> (status: Status)
    ensures
        status == Status::Unsupported,
{
    Status::Unsupported
}

/// The position in a file is not reported.
pub fn get_position(_file: FileHandle) -> (status: Status)
    ensures
        status == Status::Unsupported,
{
    Status::Unsupported
}

/// Setting the position in a file is accepted and changes nothing.
pub fn set_position(_file_in: FileHandle, _pos: u64) -> (status: Status)
    ensures
        status == Status::Success,
{
    Status::Success
}

/// Changing the metadata of a file is not supported.
pub fn set_info(_file: FileHandle, _guid: &Guid, _size: usize) -> (status: Status)
    ensures
        status == Status::Unsupported,
{
    Status::Unsupported
}

/// Flushing a file is not supported.
pub fn flush(_file: FileHandle) -> (status: Status)
    ensures
        status == Status::Unsupported,
{
    Status::Unsupported
}

/// Opening with a completion token is not supported.
pub fn open_ex(_file: FileHandle, _path_in: &[u16]) -> (status: Status)
    ensures
        status == Status::Unsupported,
{
    Status::Unsupported
}

/// Reading with a completion token is not supported.
pub fn read_ex(_file: FileHandle) -> (status: Status)
    ensures
        status == Status::Unsupported,
{
    Status::Unsupported
}

/// Writing with a completion token is not supported.
pub fn write_ex(_file: FileHandle) -> (status: Status)
    ensures
        status == Status::Unsupported,
{
    Status::Unsupported
}

/// Flushing with a completion token is not supported.
pub fn flush_ex(_file: FileHandle) -> (status: Status)
    ensures
        status == Status::Unsupported,
{
    Status::Unsupported
}

} // verus!
