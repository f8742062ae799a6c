use efi_core::device_path::get_device_path_size;
use efi_core::file::{
    close, delete, filesystem_open_volumn, flush, flush_ex, get_info, get_position, open, open_ex,
    open_step, read, read_directory, read_ex, read_file, set_info, set_position, write_ex,
    Error, FileHandle, FileSystemWrapper, Filesystem, OpenAction, ReadAction, ReadState,
    EMPTY_RECORD_SIZE,
};
use efi_core::file_info::{DirectoryEntry, FileInfo, FileType};
use efi_core::guid::{Guid, ProtocolId};
use efi_core::status::Status;

fn wide(text: &str) -> Vec<u16> {
    let mut chars: Vec<u16> = text.encode_utf16().collect();
    chars.push(0);
    chars
}

fn entry(long: &str, file_type: FileType, size: u32, attr: u8) -> DirectoryEntry {
    let mut long_name = [0u16; 256];
    for (i, c) in long.encode_utf16().enumerate() {
        long_name[i] = c;
    }
    DirectoryEntry { name: [0u8; 13], long_name, file_type, size, attr }
}

fn volume(capacity: usize) -> FileSystemWrapper {
    FileSystemWrapper::new(Filesystem { part_id: 1, start: 2048, last: 4095 }, capacity)
}

/// A directory of the filesystem: hands out its entries in order.
struct Directory {
    entries: Vec<DirectoryEntry>,
    cursor: usize,
}

impl Directory {
    fn next_entry(&mut self) -> Result<DirectoryEntry, Error> {
        if self.cursor < self.entries.len() {
            self.cursor += 1;
            Ok(self.entries[self.cursor - 1])
        } else {
            Err(Error::EndOfFile)
        }
    }
}

/// A file of the filesystem: hands out its bytes in pieces of 512.
struct Stream {
    content: Vec<u8>,
    position: usize,
}

impl Stream {
    fn read(&mut self) -> Result<Vec<u8>, Error> {
        if self.position >= self.content.len() {
            return Err(Error::EndOfFile);
        }
        let end = usize::min(self.position + 512, self.content.len());
        let piece = self.content[self.position..end].to_vec();
        self.position = end;
        Ok(piece)
    }
}

fn read_whole(wrapper: &FileSystemWrapper, file: FileHandle, size: usize, stream: &mut Stream) -> ReadState {
    let mut state = read(wrapper, file, size);
    while state.action == ReadAction::ReadFile {
        state = read_file(state, stream.read());
    }
    assert_eq!(state.action, ReadAction::Done);
    state
}

fn record(size: u64, file_size: u64, attribute: u64, name: &str) -> Vec<u8> {
    let mut bytes = Vec::new();
    bytes.extend_from_slice(&size.to_le_bytes());
    bytes.extend_from_slice(&file_size.to_le_bytes());
    bytes.extend_from_slice(&file_size.to_le_bytes());
    bytes.extend_from_slice(&[0u8; 48]);
    bytes.extend_from_slice(&attribute.to_le_bytes());
    for c in name.encode_utf16() {
        bytes.extend_from_slice(&c.to_le_bytes());
    }
    bytes.extend_from_slice(&[0, 0]);
    bytes
}

#[test]
fn directory_is_read_entry_by_entry_and_ends_with_the_empty_record() {
    let mut wrapper = volume(4);
    let root = entry("", FileType::Directory, 0, 0x10);
    let (status, file) = filesystem_open_volumn(&mut wrapper, Ok(root));
    assert_eq!(status, Status::Success);
    let root_file = file.unwrap();

    let mut directory = Directory {
        entries: vec![
            entry("entry1", FileType::File, 100, 0x20),
            entry("entry2", FileType::Directory, 0, 0x10),
            entry("entry3", FileType::File, 7, 0x01),
        ],
        cursor: 0,
    };
    let expected = [
        record(94, 100, 0x20, "entry1"),
        record(94, 4096, 0x10, "entry2"),
        record(94, 7, 0x01, "entry3"),
    ];
    for want in expected.iter() {
        let state = read(&wrapper, root_file, 1024);
        assert_eq!(state.action, ReadAction::NextEntry);
        let done = read_directory(state, directory.next_entry());
        assert_eq!(done.action, ReadAction::Done);
        assert_eq!(done.status, Status::Success);
        assert_eq!(done.size, 94);
        assert_eq!(&done.data, want);
    }
    for _ in 0..2 {
        let state = read(&wrapper, root_file, 1024);
        let done = read_directory(state, directory.next_entry());
        assert_eq!(done.action, ReadAction::Done);
        assert_eq!(done.status, Status::Success);
        assert_eq!(done.size, 0);
        assert_eq!(done.data, vec![0u8; EMPTY_RECORD_SIZE]);
    }
}

#[test]
fn directory_read_negotiates_the_buffer_size() {
    let mut wrapper = volume(4);
    let (_, file) = filesystem_open_volumn(&mut wrapper, Ok(entry("", FileType::Directory, 0, 0x10)));
    let file = file.unwrap();
    let de = entry("kernel.efi", FileType::File, 123456, 0x20);
    let need = 80 + (10 + 1) * 2;

    let probe = read_directory(read(&wrapper, file, 0), Ok(de));
    assert_eq!((probe.status, probe.size), (Status::BufferTooSmall, need));
    assert!(probe.data.is_empty());

    let short = read_directory(read(&wrapper, file, need - 1), Ok(de));
    assert_eq!((short.status, short.size), (Status::BufferTooSmall, need));
    assert!(short.data.is_empty());

    let exact = read_directory(read(&wrapper, file, need), Ok(de));
    assert_eq!((exact.status, exact.size), (Status::Success, need));
    assert_eq!(exact.data.len(), need);
    assert_eq!(exact.data, record(need as u64, 123456, 0x20, "kernel.efi"));
}

#[test]
fn directory_read_reports_a_failing_filesystem() {
    let mut wrapper = volume(4);
    let (_, file) = filesystem_open_volumn(&mut wrapper, Ok(entry("", FileType::Directory, 0, 0x10)));
    let done = read_directory(read(&wrapper, file.unwrap(), 300), Err(Error::Other));
    assert_eq!((done.action, done.status, done.size), (ReadAction::Done, Status::DeviceError, 300));
    assert!(done.data.is_empty());
}

#[test]
fn empty_record_is_written_only_where_it_fits() {
    let mut wrapper = volume(4);
    let (_, file) = filesystem_open_volumn(&mut wrapper, Ok(entry("", FileType::Directory, 0, 0x10)));
    let file = file.unwrap();
    let small = read_directory(read(&wrapper, file, 81), Err(Error::EndOfFile));
    assert_eq!((small.status, small.size), (Status::Success, 0));
    assert!(small.data.is_empty());
    let fits = read_directory(read(&wrapper, file, 82), Err(Error::EndOfFile));
    assert_eq!((fits.status, fits.size), (Status::Success, 0));
    assert_eq!(fits.data, vec![0u8; 82]);
}

#[test]
fn file_read_past_the_end_then_end_of_file() {
    let mut wrapper = volume(4);
    let file = wrapper.create_file(&entry("data.bin", FileType::File, 1300, 0x20)).unwrap();
    let content: Vec<u8> = (0..1300u32).map(|i| (i % 251) as u8).collect();
    let mut stream = Stream { content: content.clone(), position: 0 };

    let first = read_whole(&wrapper, file, 1000, &mut stream);
    assert_eq!((first.status, first.size), (Status::Success, 1000));
    assert_eq!(first.data, content[..1000].to_vec());

    // The filesystem read in pieces of 512, so it stands at 1024 now.
    let second = read_whole(&wrapper, file, 4096, &mut stream);
    assert_eq!((second.status, second.size), (Status::Success, 1300 - 1024));
    assert_eq!(second.data, content[1024..].to_vec());

    let third = read_whole(&wrapper, file, 4096, &mut stream);
    assert_eq!((third.status, third.size), (Status::EndOfFile, 0));
    assert!(third.data.is_empty());
}

#[test]
fn file_read_with_larger_buffer_returns_the_remaining_bytes() {
    let mut wrapper = volume(4);
    let file = wrapper.create_file(&entry("small.txt", FileType::File, 5, 0x20)).unwrap();
    let mut stream = Stream { content: b"hello".to_vec(), position: 0 };
    let first = read_whole(&wrapper, file, 512, &mut stream);
    assert_eq!((first.status, first.size), (Status::Success, 5));
    assert_eq!(first.data, b"hello".to_vec());
    let second = read_whole(&wrapper, file, 512, &mut stream);
    assert_eq!((second.status, second.size), (Status::EndOfFile, 0));
}

#[test]
fn file_read_of_nothing_succeeds_at_once() {
    let mut wrapper = volume(4);
    let file = wrapper.create_file(&entry("small.txt", FileType::File, 5, 0x20)).unwrap();
    let state = read(&wrapper, file, 0);
    assert_eq!((state.action, state.status, state.size), (ReadAction::Done, Status::Success, 0));
}

#[test]
fn file_read_fails_with_device_error() {
    let mut wrapper = volume(4);
    let file = wrapper.create_file(&entry("small.txt", FileType::File, 5000, 0x20)).unwrap();
    let state = read(&wrapper, file, 2000);
    let state = read_file(state, Ok(vec![7u8; 512]));
    assert_eq!(state.action, ReadAction::ReadFile);
    let state = read_file(state, Err(Error::Other));
    assert_eq!((state.action, state.status, state.size), (ReadAction::Done, Status::DeviceError, 0));
    // A state that is over stays as it is.
    let state = read_file(state, Ok(vec![1, 2, 3]));
    assert_eq!((state.action, state.status, state.size), (ReadAction::Done, Status::DeviceError, 0));
}

#[test]
fn file_read_takes_no_more_than_the_buffer_holds() {
    let mut wrapper = volume(4);
    let file = wrapper.create_file(&entry("big", FileType::File, 5000, 0x20)).unwrap();
    let state = read_file(read(&wrapper, file, 100), Ok((0..=255u8).cycle().take(512).collect()));
    assert_eq!((state.action, state.status, state.size), (ReadAction::Done, Status::Success, 100));
    assert_eq!(state.data, (0..100u8).collect::<Vec<u8>>());
}

#[test]
fn read_on_a_closed_file_is_refused() {
    let mut wrapper = volume(4);
    let file = wrapper.create_file(&entry("f", FileType::File, 5, 0x20)).unwrap();
    assert_eq!(close(&mut wrapper, file), Status::Success);
    let state = read(&wrapper, file, 64);
    assert_eq!((state.action, state.status, state.size), (ReadAction::Done, Status::InvalidParameter, 64));
}

#[test]
fn open_parent_of_root_fails() {
    let mut wrapper = volume(4);
    let (_, root) = filesystem_open_volumn(&mut wrapper, Ok(entry("", FileType::Directory, 0, 0x10)));
    let state = open(&wrapper, root.unwrap(), &wide(".."));
    assert_eq!(state.action, OpenAction::GetParent);
    assert_eq!(state.path, b"..".to_vec());
    let state = open_step(&mut wrapper, state, Err(Error::NotFound));
    assert_eq!(state.action, OpenAction::Done);
    assert_eq!(state.status, Status::InvalidParameter);
    assert_eq!(state.file_out, None);
}

#[test]
fn open_parent_of_a_subdirectory_returns_the_parent() {
    let mut wrapper = volume(4);
    let parent = entry("EFI", FileType::Directory, 0, 0x10);
    let child = wrapper.create_file(&entry("BOOT", FileType::Directory, 0, 0x10)).unwrap();
    let state = open(&wrapper, child, &wide(".."));
    assert_eq!(state.action, OpenAction::GetParent);
    let state = open_step(&mut wrapper, state, Ok(parent));
    assert_eq!(state.action, OpenAction::Open);
    assert_eq!(state.path, b"..".to_vec());
    let state = open_step(&mut wrapper, state, Ok(parent));
    assert_eq!((state.action, state.status), (OpenAction::Done, Status::Success));
    let opened = state.file_out.unwrap();
    assert_ne!(opened, child);
    let got = wrapper.entry(opened).unwrap();
    assert_eq!(got.long_name, parent.long_name);
    assert_eq!(got.file_type, FileType::Directory);
}

#[test]
fn open_maps_the_answers_of_the_filesystem() {
    let mut wrapper = volume(4);
    let (_, root) = filesystem_open_volumn(&mut wrapper, Ok(entry("", FileType::Directory, 0, 0x10)));
    let root = root.unwrap();

    let state = open(&wrapper, root, &wide("bootx64.efi"));
    assert_eq!(state.action, OpenAction::Open);
    assert_eq!(state.path, b"bootx64.efi".to_vec());
    let state = open_step(&mut wrapper, state, Err(Error::NotFound));
    assert_eq!((state.action, state.status, state.file_out), (OpenAction::Done, Status::NotFound, None));

    let begun = open(&wrapper, root, &wide("x"));
    let state = open_step(&mut wrapper, begun, Err(Error::Other));
    assert_eq!((state.status, state.file_out), (Status::DeviceError, None));
    let begun = open(&wrapper, root, &wide("x"));
    let state = open_step(&mut wrapper, begun, Err(Error::EndOfFile));
    assert_eq!((state.status, state.file_out), (Status::DeviceError, None));

    let found = entry("bootx64.efi", FileType::File, 4242, 0x20);
    let begun = open(&wrapper, root, &wide("bootx64.efi"));
    let state = open_step(&mut wrapper, begun, Ok(found));
    assert_eq!(state.status, Status::Success);
    let file = state.file_out.unwrap();
    assert_eq!(wrapper.entry(file).unwrap().size, 4242);
    // Once over, a call takes no further answer.
    let again = open_step(&mut wrapper, state, Ok(found));
    assert_eq!((again.action, again.status, again.file_out), (OpenAction::Done, Status::Success, Some(file)));
}

#[test]
fn open_decodes_the_path_up_to_its_terminator() {
    let mut wrapper = volume(4);
    let (_, root) = filesystem_open_volumn(&mut wrapper, Ok(entry("", FileType::Directory, 0, 0x10)));
    let root = root.unwrap();
    let mut path = wide("caf\u{e9}");
    path.extend_from_slice(&[0x41, 0x42]);
    let state = open(&wrapper, root, &path);
    assert_eq!(state.path, "caf\u{e9}".as_bytes().to_vec());
    // A path that cannot be decoded becomes the empty path.
    let state = open(&wrapper, root, &[0x41, 0xd800, 0x42, 0]);
    assert_eq!(state.path, Vec::<u8>::new());
    // A character with a zero low byte belongs to the path.
    let state = open(&wrapper, root, &[0x0100, 0x4e00, 0, 0x41]);
    assert_eq!(state.path, "\u{100}\u{4e00}".as_bytes().to_vec());
    assert_eq!(state.action, OpenAction::Open);
    let long = vec![0x41u16; 257];
    assert_eq!(open(&wrapper, root, &long).path, Vec::<u8>::new());
    assert_eq!(open(&wrapper, root, &long[..256]).path.len(), 256);
}

#[test]
fn open_from_a_stale_handle_is_refused() {
    let mut wrapper = volume(4);
    let (_, root) = filesystem_open_volumn(&mut wrapper, Ok(entry("", FileType::Directory, 0, 0x10)));
    let root = root.unwrap();
    close(&mut wrapper, root);
    let state = open(&wrapper, root, &wide("x"));
    assert_eq!((state.action, state.status), (OpenAction::Done, Status::InvalidParameter));
}

#[test]
fn open_volume_reports_a_missing_root() {
    let mut wrapper = volume(4);
    assert_eq!(filesystem_open_volumn(&mut wrapper, Err(Error::Other)), (Status::DeviceError, None));
    assert_eq!(filesystem_open_volumn(&mut wrapper, Err(Error::NotFound)), (Status::DeviceError, None));
}

#[test]
fn file_table_is_bounded_and_reuses_closed_places() {
    let mut wrapper = volume(2);
    let de = entry("f", FileType::File, 1, 0);
    let a = wrapper.create_file(&de).unwrap();
    let b = wrapper.create_file(&de).unwrap();
    assert_ne!(a, b);
    assert_eq!(wrapper.create_file(&de), Err(Status::OutOfResources));
    assert_eq!(filesystem_open_volumn(&mut wrapper, Ok(de)), (Status::OutOfResources, None));
    let begun = open(&wrapper, a, &wide("x"));
    let state = open_step(&mut wrapper, begun, Ok(de));
    assert_eq!((state.status, state.file_out), (Status::OutOfResources, None));

    assert_eq!(close(&mut wrapper, a), Status::Success);
    assert!(wrapper.entry(a).is_none());
    assert!(wrapper.entry(b).is_some());
    let c = wrapper.create_file(&de).unwrap();
    assert_eq!(c.index, a.index);
    assert_ne!(c, a);
    assert!(wrapper.entry(a).is_none());
    assert!(wrapper.entry(c).is_some());
    // Closing twice, or closing what never was open, succeeds and changes nothing.
    assert_eq!(close(&mut wrapper, a), Status::Success);
    assert_eq!(close(&mut wrapper, FileHandle { index: 9, generation: 0 }), Status::Success);
    assert!(wrapper.entry(b).is_some());
    assert!(wrapper.entry(c).is_some());
}

#[test]
fn get_info_serves_only_file_metadata() {
    let mut wrapper = volume(4);
    let de = entry("startup.nsh", FileType::File, 321, 0x21);
    let file = wrapper.create_file(&de).unwrap();
    let info_id = ProtocolId::FileInfo.guid();
    let other = Guid::from_fields(0x09576e93, 0x6d3f, 0x11d2, 0x8e, 0x39, &[0x00, 0xa0, 0xc9, 0x69, 0x72, 0x3b]);

    assert_eq!(get_info(&wrapper, file, &other, 1024), (Status::Unsupported, 1024, vec![]));
    let need = 80 + 12 * 2;
    assert_eq!(
        get_info(&wrapper, file, &info_id, 1024),
        (Status::Success, need, record(need as u64, 321, 0x21, "startup.nsh"))
    );
    close(&mut wrapper, file);
    assert_eq!(get_info(&wrapper, file, &info_id, 1024), (Status::InvalidParameter, 1024, vec![]));
}

#[test]
fn get_info_negotiates_the_exact_size() {
    let mut wrapper = volume(4);
    let de = entry("startup.nsh", FileType::File, 321, 0x21);
    let file = wrapper.create_file(&de).unwrap();
    let info_id = ProtocolId::FileInfo.guid();
    let need = 80 + 12 * 2;

    assert_eq!(get_info(&wrapper, file, &info_id, 0), (Status::BufferTooSmall, need, vec![]));
    assert_eq!(get_info(&wrapper, file, &info_id, need - 1), (Status::BufferTooSmall, need, vec![]));
    let (status, size, bytes) = get_info(&wrapper, file, &info_id, need);
    assert_eq!((status, size), (Status::Success, need));
    assert_eq!(bytes, record(need as u64, 321, 0x21, "startup.nsh"));
    assert_eq!(bytes.len(), need);
    // The file object is as it was.
    assert_eq!(wrapper.entry(file).unwrap().size, 321);
    assert_eq!(get_info(&wrapper, file, &info_id, need).2, bytes);
}

#[test]
fn get_info_of_a_name_of_full_length() {
    let mut wrapper = volume(4);
    let mut de = entry("", FileType::File, 1, 0);
    de.long_name = [0x61u16; 256];
    let file = wrapper.create_file(&de).unwrap();
    let info_id = ProtocolId::FileInfo.guid();
    assert_eq!(get_info(&wrapper, file, &info_id, 593), (Status::BufferTooSmall, 594, vec![]));
    let (status, size, bytes) = get_info(&wrapper, file, &info_id, 594);
    assert_eq!((status, size, bytes.len()), (Status::Success, 594, 594));
}

#[test]
fn unsupported_calls_say_so() {
    let file = FileHandle { index: 0, generation: 0 };
    let info_id = ProtocolId::FileInfo.guid();
    assert_eq!(delete(file), Status::Unsupported);
    assert_eq!(efi_core::file::write(file, 10), Status::Unsupported);
    assert_eq!(flush(file), Status::Unsupported);
    assert_eq!(set_info(file, &info_id, 100), Status::Unsupported);
    assert_eq!(get_position(file), Status::Unsupported);
    assert_eq!(open_ex(file, &[0x41, 0]), Status::Unsupported);
    assert_eq!(read_ex(file), Status::Unsupported);
    assert_eq!(write_ex(file), Status::Unsupported);
    assert_eq!(flush_ex(file), Status::Unsupported);
    assert_eq!(set_position(file, 1234), Status::Success);
}

#[test]
fn volume_device_path_names_the_partition() {
    let wrapper = FileSystemWrapper::new(Filesystem { part_id: 3, start: 0x800, last: 0x27ff }, 1);
    let path = wrapper.get_hard_drive_device_path();
    let mut expected = vec![4u8, 1, 42, 0];
    expected.extend_from_slice(&3u32.to_le_bytes());
    expected.extend_from_slice(&0x800u64.to_le_bytes());
    expected.extend_from_slice(&0x1fffu64.to_le_bytes());
    expected.extend_from_slice(b"EFI PART");
    expected.extend_from_slice(&[0u8; 8]);
    expected.extend_from_slice(&[2, 2]);
    expected.extend_from_slice(&[0x7f, 0xff, 4, 0]);
    assert_eq!(path, expected);
    assert_eq!(path.len(), 46);
    assert_eq!(get_device_path_size(&path), Some(46));
    assert_eq!(wrapper.fs().part_id, 3);
}

#[test]
fn file_info_of_entries() {
    let mut info = FileInfo::empty();
    assert_eq!(info.to_bytes(), vec![0u8; 82]);

    let file = entry("a.txt", FileType::File, 77, 0x20);
    assert_eq!(info.init(file, 91), Err(92));
    assert_eq!(info.file_name, Vec::<u16>::new());
    assert_eq!(info.size, 0);
    assert_eq!(info.init(file, 92), Ok(92));
    assert_eq!((info.size, info.file_size, info.physical_size, info.attribute), (92, 77, 77, 0x20));
    assert_eq!(info.file_name, "a.txt".encode_utf16().collect::<Vec<u16>>());
    assert_eq!(info.to_bytes(), record(92, 77, 0x20, "a.txt"));

    let dir = entry("EFI", FileType::Directory, 0, 0x10);
    assert_eq!(info.init(dir, 1000), Ok(88));
    assert_eq!((info.size, info.file_size, info.physical_size, info.attribute), (88, 4096, 4096, 0x10));
}

#[test]
fn short_name_is_widened_where_no_long_name_exists() {
    let mut de = entry("", FileType::File, 9, 0x20);
    de.name = *b"KERNEL.EFI\0\0\0";
    let mut info = FileInfo::empty();
    assert_eq!(info.init(de, 4096), Ok(80 + 11 * 2));
    assert_eq!(info.file_name, "KERNEL.EFI".encode_utf16().collect::<Vec<u16>>());
    assert_eq!(de.file_name().as_u16_slice(), &"KERNEL.EFI".encode_utf16().collect::<Vec<u16>>()[..]);

    // With a long name the short one is not looked at.
    let mut both = entry("long name.txt", FileType::File, 9, 0x20);
    both.name = *b"LONGNA~1.TXT\0";
    assert_eq!(info.init(both, 4096), Ok(80 + 14 * 2));
    assert_eq!(info.file_name, "long name.txt".encode_utf16().collect::<Vec<u16>>());

    // A short name without a terminator runs on into the name field.
    let mut full = entry("", FileType::File, 9, 0x20);
    full.name = *b"ABCDEFGHIJKLM";
    full.long_name[13] = 0x4e;
    assert_eq!(info.init(full, 4096), Ok(80 + 15 * 2));
    assert_eq!(info.file_name, "ABCDEFGHIJKLMN".encode_utf16().collect::<Vec<u16>>());
}

#[test]
fn name_ends_at_the_first_zero_character() {
    let mut de = entry("ab", FileType::File, 9, 0x20);
    de.long_name[2] = 0x0100;
    de.long_name[3] = 0x4e00;
    de.long_name[4] = 0x63;
    de.long_name[6] = 0x64;
    let mut info = FileInfo::empty();
    assert_eq!(info.init(de, 4096), Ok(80 + 6 * 2));
    assert_eq!(info.file_name, vec![0x61, 0x62, 0x0100, 0x4e00, 0x63]);
    let bytes = info.to_bytes();
    assert_eq!(&bytes[80..], &[0x61, 0, 0x62, 0, 0x00, 0x01, 0x00, 0x4e, 0x63, 0, 0, 0]);
}
