//! Directory entries as the filesystem reports them, and the metadata
//! record that describes one to a caller.

use crate::bytes::{le_bytes, push_le};
use crate::os_str::{before_terminator, OsStr};
use vstd::prelude::*;

verus! {

/// The number of characters that the name field of a directory entry holds.
pub const EFI_PATH_STRING_LENGTH: usize = 256;

/// The number of characters of a short name, without its terminator.
pub const EFI_FAT_SHORT_NAME_LEN: usize = 12;

/// The size in bytes of the fixed part of a metadata record: three sizes,
/// three timestamps of sixteen bytes, and the attributes.
pub const FILE_INFO_HEADER_SIZE: usize = 80;

/// The size in bytes of one character of a name.
pub const CHAR16_SIZE: usize = 2;

/// The size that is reported for every directory.
pub const DIRECTORY_SIZE: u64 = 4096;

/// What a directory entry stands for.
#[derive(Clone, Copy, Debug, PartialEq, Eq, Structural)]
pub enum FileType {
    File,
    Directory,
}

/// One entry of a directory, as the filesystem reports it.
#[derive(Clone, Copy, Debug)]
pub struct DirectoryEntry {
    /// The short name, ended by a zero byte.
    pub name: [u8; 13],
    /// The long name, ended by a terminator; its first character is zero
    /// where the entry has only a short name.
    pub long_name: [u16; 256],
    pub file_type: FileType,
    pub size: u32,
    pub attr: u8,
}

/// The metadata of one file or directory. In a caller's buffer it is a
/// record of `size` bytes; see `record_bytes`.
#[derive(Clone, Debug)]
pub struct FileInfo {
    pub size: u64,
    pub file_size: u64,
    pub physical_size: u64,
    pub attribute: u64,
    /// The name, without its terminator.
    pub file_name: Vec<u16>,
}

/// The size in bytes of the record for a name of `name_len` characters.
pub open spec fn info_size(name_len: int) -> int {
    FILE_INFO_HEADER_SIZE + (name_len + 1) * CHAR16_SIZE
}

/// The bytes of `chars`, two for each character, the low byte first.
pub open spec fn wide_bytes(chars: Seq<u16>) -> Seq<u8>
    decreases chars.len(),
{
    if chars.len() == 0 {
        Seq::empty()
    } else {
        wide_bytes(chars.drop_last()) + le_bytes(chars.last() as nat, 2)
    }
}

/// The bytes of the timestamps of a record, which are all zero.
pub open spec fn timestamps() -> Seq<u8> {
    Seq::new(48, |i: int| 0u8)
}

/// A record as it lies in a caller's buffer: the three sizes, the
/// timestamps, the attributes, the name and its terminator.
pub open spec fn record_layout(
    size: u64,
    file_size: u64,
    physical_size: u64,
    attribute: u64,
    file_name: Seq<u16>,
) -> Seq<u8> {
    le_bytes(size as nat, 8) + le_bytes(file_size as nat, 8) + le_bytes(physical_size as nat, 8)
        + timestamps() + le_bytes(attribute as nat, 8) + wide_bytes(file_name) + seq![0u8, 0u8]
}

/// The bytes of the record `info`.
pub open spec fn record_bytes(info: FileInfo) -> Seq<u8> {
    record_layout(
        info.size,
        info.file_size,
        info.physical_size,
        info.attribute,
        info.file_name@,
    )
}

/// The bytes of the record that describes `de`.
pub open spec fn entry_record(de: DirectoryEntry) -> Seq<u8> {
    record_layout(
        info_size(de.spec_file_name().len() as int) as u64,
        de.reported_size(),
        de.reported_size(),
        de.attr as u64,
        de.spec_file_name(),
    )
}

/// The bytes of the record that ends a directory.
pub open spec fn empty_record() -> Seq<u8> {
    record_layout(0, 0, 0, 0, Seq::empty())
}

impl DirectoryEntry {
    /// The name field from which the name is read: the long name, or,
    /// where the entry has none, the short name widened character by
    /// character into the front of the field.
    pub open spec fn name_field(self) -> Seq<u16> {
        if self.long_name[0] == 0 {
            Seq::new(
                EFI_PATH_STRING_LENGTH as nat,
                |i: int|
                    if i <= EFI_FAT_SHORT_NAME_LEN {
                        self.name[i] as u16
                    } else {
                        self.long_name[i]
                    },
            )
        } else {
            self.long_name@
        }
    }

    /// The name of the entry: its name field up to the terminator.
    pub open spec fn spec_file_name(self) -> Seq<u16> {
        before_terminator(self.name_field())
    }

    /// The sizes that a record reports for the entry: the entry's own for
    /// a file, a fixed one for a directory.
    pub open spec fn reported_size(self) -> u64 {
        match self.file_type {
            FileType::File => self.size as u64,
            FileType::Directory => DIRECTORY_SIZE,
        }
    }

    /// The name of the entry.
    pub fn file_name(&self) -> (name: OsStr)
        ensures
            name@ == self.spec_file_name(),
            name@.len() <= EFI_PATH_STRING_LENGTH,
    {
        let mut long_name: Vec<u16> = Vec::new();
        let short = self.long_name[0] == 0;
        let mut i: usize = 0;
        while i < EFI_PATH_STRING_LENGTH
            invariant
                i <= EFI_PATH_STRING_LENGTH,
                short == (self.long_name[0] == 0),
                long_name@ == self.name_field().subrange(0, i as int),
            decreases EFI_PATH_STRING_LENGTH - i,
        {
            if short && i <= EFI_FAT_SHORT_NAME_LEN {
                long_name.push(self.name[i] as u16);
            } else {
                long_name.push(self.long_name[i]);
            }
            proof {
                assert(long_name@ =~= self.name_field().subrange(0, i as int + 1));
            }
            i += 1;
        }
        proof {
            assert(long_name@ =~= self.name_field());
        }
        OsStr::from_u16_slice_with_nul(long_name.as_slice())
    }
}

impl FileInfo {
    /// Whether the record is the one that describes `de`.
    pub open spec fn describes(self, de: DirectoryEntry) -> bool {
        &&& self.size == info_size(de.spec_file_name().len() as int)
        &&& self.file_size == de.reported_size()
        &&& self.physical_size == de.reported_size()
        &&& self.attribute == de.attr as u64
        &&& self.file_name@ == de.spec_file_name()
    }

    /// The record that ends a directory: all sizes and attributes zero,
    /// the name empty.
    pub open spec fn is_empty(self) -> bool {
        &&& self.size == 0
        &&& self.file_size == 0
        &&& self.physical_size == 0
        &&& self.attribute == 0
        &&& self.file_name@.len() == 0
    }

    /// The record that ends a directory.
    pub fn empty() -> (info: FileInfo)
        ensures
            info.is_empty(),
            record_bytes(info) == empty_record(),
    {
        let info = FileInfo {
            size: 0,
            file_size: 0,
            physical_size: 0,
            attribute: 0,
            file_name: Vec::new(),
        };
        assert(info.file_name@ =~= Seq::<u16>::empty());
        info
    }

    /// Fills the record with the metadata of `de`, for a caller whose
    /// buffer holds `max_size` bytes. Where the buffer is too small for the
    /// record the size needed is returned as the error and the record is
    /// left as it was; else the size of the record is returned.
    pub fn init(&mut self, de: DirectoryEntry, max_size: usize) -> (r: Result<usize, usize>)
        ensures
            de.spec_file_name().len() <= EFI_PATH_STRING_LENGTH,
            max_size < info_size(de.spec_file_name().len() as int) ==> r == Err::<usize, usize>(
                info_size(de.spec_file_name().len() as int) as usize,
            ) && *final(self) == *old(self),
            max_size >= info_size(de.spec_file_name().len() as int) ==> r == Ok::<usize, usize>(
                info_size(de.spec_file_name().len() as int) as usize,
            ) && final(self).describes(de) && record_bytes(*final(self)) == entry_record(de),
    {
        let filename = de.file_name();
        let name_len = filename.len();
        let size = FILE_INFO_HEADER_SIZE + (name_len + 1) * CHAR16_SIZE;
        if max_size < size {
            return Err(size);
        }
        let chars = filename.as_u16_slice();
        let mut file_name: Vec<u16> = Vec::new();
        let mut i: usize = 0;
        while i < name_len
            invariant
                i <= name_len,
                name_len == chars@.len(),
                file_name@ == chars@.subrange(0, i as int),
            decreases name_len - i,
        {
            file_name.push(chars[i]);
            proof {
                assert(file_name@ =~= chars@.subrange(0, i as int + 1));
            }
            i += 1;
        }
        proof {
            assert(file_name@ =~= chars@);
        }
        self.file_name = file_name;
        self.attribute = de.attr as u64;
        match de.file_type {
            FileType::File => {
                self.size = size as u64;
                self.file_size = de.size as u64;
                self.physical_size = de.size as u64;
            },
            FileType::Directory => {
                self.size = size as u64;
                self.file_size = DIRECTORY_SIZE;
                self.physical_size = DIRECTORY_SIZE;
            },
        }
        Ok(size)
    }

    /// The record as it lies in a caller's buffer.
    pub fn to_bytes(&self) -> (bytes: Vec<u8>)
        ensures
            bytes@ == record_bytes(*self),
            bytes@.len() == info_size(self.file_name@.len() as int),
    {
        let mut bytes: Vec<u8> = Vec::new();
        push_le(&mut bytes, self.size, 8);
        push_le(&mut bytes, self.file_size, 8);
        push_le(&mut bytes, self.physical_size, 8);
        let mut i: usize = 0;
        let ghost sizes = bytes@;
        while i < 48
            invariant
                i <= 48,
                bytes@ == sizes + Seq::new(i as nat, |j: int| 0u8),
            decreases 48 - i,
        {
            bytes.push(0);
            proof {
                assert(bytes@ =~= sizes + Seq::new((i + 1) as nat, |j: int| 0u8));
            }
            i += 1;
        }
        push_le(&mut bytes, self.attribute, 8);
        let ghost header = bytes@;
        let mut k: usize = 0;
        assert(self.file_name@.subrange(0, 0) =~= Seq::<u16>::empty());
        while k < self.file_name.len()
            invariant
                k <= self.file_name@.len(),
                header.len() == 80,
                bytes@ == header + wide_bytes(self.file_name@.subrange(0, k as int)),
                bytes@.len() == 80 + 2 * k,
            decreases self.file_name.len() - k,
        {
            push_le(&mut bytes, self.file_name[k] as u64, 2);
            proof {
                let next = self.file_name@.subrange(0, k as int + 1);
                assert(next.drop_last() =~= self.file_name@.subrange(0, k as int));
                assert(next.last() == self.file_name@[k as int]);
                assert(bytes@ =~= header + wide_bytes(next));
            }
            k += 1;
        }
        proof {
            assert(self.file_name@.subrange(0, k as int) =~= self.file_name@);
        }
        bytes.push(0);
        bytes.push(0);
        proof {
            assert(bytes@ =~= record_bytes(*self));
        }
        bytes
    }
}

} // verus!
