//! What holds of the file protocol bridge across calls, proved over the
//! functions that its calls are specified by. Where a law speaks of the
//! filesystem, it speaks of one that hands out the entries of a directory
//! and the bytes of a file in order.

use crate::file::{
    close_outcome, create_outcome, decoded_path, first_free, get_info_outcome, is_open, open_done,
    open_next,
    open_start, parent_path, read_directory_next, read_done, read_file_next, read_pending, Error,
    FileHandle, FileWrapper, OpenAction, ReadAction, ReadModel, EMPTY_RECORD_SIZE,
};
use crate::guid::file_info_id;
use crate::bytes::lemma_le_bytes_len;
use crate::file_info::{
    empty_record, entry_record, info_size, record_layout, wide_bytes, DirectoryEntry,
    EFI_PATH_STRING_LENGTH, FILE_INFO_HEADER_SIZE,
};
use crate::os_str::lemma_terminator_index_bounds;
use crate::status::Status;
use vstd::prelude::*;

verus! {

/// The first free place lies between the place where the scan for it
/// starts and the end of the table, and the places before it are taken.
pub proof fn lemma_first_free_bounds(files: Seq<FileWrapper>, from: int)
    requires
        0 <= from <= files.len(),
    ensures
        from <= first_free(files, from) <= files.len(),
        first_free(files, from) < files.len() ==> files[first_free(files, from)].ofile is None,
        forall|i: int| from <= i < first_free(files, from) ==> (#[trigger] files[i]).ofile is Some,
    decreases files.len() - from,
{
    if from < files.len() && files[from].ofile is Some {
        lemma_first_free_bounds(files, from + 1);
    }
}

/// A file object that was created is open over the entry given, its handle
/// named no open object before, and every object that was open stays open
/// over its entry. A creation fails only on a table that is full.
pub proof fn lemma_create_opens(files: Seq<FileWrapper>, capacity: usize, entry: DirectoryEntry)
    requires
        files.len() <= capacity,
    ensures
        ({
            let out = create_outcome(files, capacity, entry);
            &&& out.1.len() <= capacity
            &&& out.0 matches Ok(file) ==> {
                &&& !is_open(files, file)
                &&& is_open(out.1, file)
                &&& out.1[file.index as int].ofile == Some(entry)
                &&& forall|other: FileHandle|
                    is_open(files, other) ==> is_open(out.1, other) && out.1[other.index as int]
                        == files[other.index as int]
            }
            &&& out.0 matches Err(status) ==> {
                &&& status == Status::OutOfResources
                &&& out.1 == files
                &&& files.len() == capacity
                &&& forall|i: int| 0 <= i < files.len() ==> (#[trigger] files[i]).ofile is Some
            }
        }),
{
    lemma_first_free_bounds(files, 0);
}

/// After a file object was closed its handle names no open object, and
/// every other object that was open stays open over its entry.
pub proof fn lemma_close_closes(files: Seq<FileWrapper>, file: FileHandle)
    ensures
        !is_open(close_outcome(files, file), file),
        close_outcome(files, file).len() == files.len(),
        forall|other: FileHandle|
            other != file && is_open(files, other) ==> is_open(close_outcome(files, file), other)
                && close_outcome(files, file)[other.index as int] == files[other.index as int],
{
    if is_open(files, file) {
        assert forall|other: FileHandle| other != file && is_open(files, other) implies is_open(
            close_outcome(files, file),
            other,
        ) && close_outcome(files, file)[other.index as int] == files[other.index as int] by {
            assert(other.index != file.index);
        }
    }
}

/// The name of an entry has at most as many characters as its name field.
pub proof fn lemma_file_name_len(de: DirectoryEntry)
    ensures
        de.spec_file_name().len() <= EFI_PATH_STRING_LENGTH,
{
    lemma_terminator_index_bounds(de.name_field(), 0);
}

/// The bytes of a name are two for each character.
pub proof fn lemma_wide_bytes_len(chars: Seq<u16>)
    ensures
        wide_bytes(chars).len() == 2 * chars.len(),
    decreases chars.len(),
{
    if chars.len() > 0 {
        lemma_wide_bytes_len(chars.drop_last());
        lemma_le_bytes_len(chars.last() as nat, 2);
    }
}

/// A record is as long as its header and its name with the terminator.
pub proof fn lemma_record_len(
    size: u64,
    file_size: u64,
    physical_size: u64,
    attribute: u64,
    file_name: Seq<u16>,
)
    ensures
        record_layout(size, file_size, physical_size, attribute, file_name).len() == info_size(
            file_name.len() as int,
        ),
{
    lemma_le_bytes_len(size as nat, 8);
    lemma_le_bytes_len(file_size as nat, 8);
    lemma_le_bytes_len(physical_size as nat, 8);
    lemma_le_bytes_len(attribute as nat, 8);
    lemma_wide_bytes_len(file_name);
}

/// The record of an entry with a name of `L` characters takes the header
/// and `L + 1` characters. A read of the entry into a buffer of exactly
/// that size succeeds and hands over the whole record; into a buffer one
/// byte smaller it fails with `BufferTooSmall`, reports the same size and
/// hands over nothing.
pub proof fn lemma_record_size_is_exact(de: DirectoryEntry, state: ReadModel)
    requires
        state.action == ReadAction::NextEntry,
    ensures
        ({
            let need = FILE_INFO_HEADER_SIZE + (de.spec_file_name().len() + 1) * 2;
            &&& entry_record(de).len() == need
            &&& state.wanted >= need ==> read_directory_next(state, Ok(de)) == read_done(
                state.wanted,
                entry_record(de),
                Status::Success,
                need as usize,
            )
            &&& state.wanted < need ==> read_directory_next(state, Ok(de)) == read_done(
                state.wanted,
                Seq::empty(),
                Status::BufferTooSmall,
                need as usize,
            )
        }),
{
    lemma_file_name_len(de);
    lemma_record_len(
        info_size(de.spec_file_name().len() as int) as u64,
        de.reported_size(),
        de.reported_size(),
        de.attr as u64,
        de.spec_file_name(),
    );
}

/// A request for the metadata of an open file whose name has `L`
/// characters needs the header and `L + 1` characters. With a buffer of
/// at least that size it succeeds, reports that size and hands over the
/// whole record; with a smaller one, and so with one that is a byte too
/// small, it fails with `BufferTooSmall`, reports the same size and hands
/// over nothing.
pub proof fn lemma_info_size_is_exact(files: Seq<FileWrapper>, file: FileHandle, buffer_size: usize)
    requires
        is_open(files, file),
    ensures
        ({
            let de = files[file.index as int].ofile->0;
            let need = FILE_INFO_HEADER_SIZE + (de.spec_file_name().len() + 1) * 2;
            &&& entry_record(de).len() == need
            &&& buffer_size >= need ==> get_info_outcome(files, file, file_info_id(), buffer_size)
                == (Status::Success, need as usize, entry_record(de))
            &&& buffer_size < need ==> get_info_outcome(files, file, file_info_id(), buffer_size)
                == (Status::BufferTooSmall, need as usize, Seq::<u8>::empty())
        }),
{
    let de = files[file.index as int].ofile->0;
    lemma_file_name_len(de);
    lemma_record_len(
        info_size(de.spec_file_name().len() as int) as u64,
        de.reported_size(),
        de.reported_size(),
        de.attr as u64,
        de.spec_file_name(),
    );
}

/// What a directory with the entries `entries` answers to a request for
/// its next entry when `cursor` entries were handed out, and how many
/// were handed out afterwards.
pub open spec fn next_entry(entries: Seq<DirectoryEntry>, cursor: nat) -> (
    Result<DirectoryEntry, Error>,
    nat,
) {
    if cursor < entries.len() {
        (Ok(entries[cursor as int]), cursor + 1)
    } else {
        (Err(Error::EndOfFile), cursor)
    }
}

/// How many entries of `entries` were handed out after `reads` requests.
pub open spec fn cursor_after(entries: Seq<DirectoryEntry>, reads: nat) -> nat
    decreases reads,
{
    if reads == 0 {
        0
    } else {
        next_entry(entries, cursor_after(entries, (reads - 1) as nat)).1
    }
}

/// What the read with number `n`, counted from zero, of a directory with
/// the entries `entries` returns into a buffer of `wanted` bytes.
pub open spec fn nth_directory_read(entries: Seq<DirectoryEntry>, n: nat, wanted: usize) -> ReadModel {
    read_directory_next(
        read_pending(ReadAction::NextEntry, wanted, Seq::empty()),
        next_entry(entries, cursor_after(entries, n)).0,
    )
}

/// The reads of a directory go through its entries once and in order: the
/// read with number `n` answers with entry `n`, whatever the sizes of the
/// buffers of the reads before it, so no entry comes twice. Every read
/// behind the last entry answers alike: `Success`, size zero and the empty
/// record.
pub proof fn lemma_directory_reads_in_order(entries: Seq<DirectoryEntry>, n: nat, wanted: usize)
    ensures
        cursor_after(entries, n) == if n < entries.len() {
            n
        } else {
            entries.len()
        },
        n < entries.len() ==> nth_directory_read(entries, n, wanted) == read_directory_next(
            read_pending(ReadAction::NextEntry, wanted, Seq::empty()),
            Ok(entries[n as int]),
        ),
        n >= entries.len() ==> nth_directory_read(entries, n, wanted) == read_done(
            wanted,
            if wanted >= EMPTY_RECORD_SIZE {
                empty_record()
            } else {
                Seq::empty()
            },
            Status::Success,
            0,
        ),
    decreases n,
{
    if n > 0 {
        lemma_directory_reads_in_order(entries, (n - 1) as nat, wanted);
    }
}

/// The size in bytes of the piece that the filesystem reads at a time.
pub open spec fn chunk_size() -> nat {
    512
}

/// What a file with the bytes `content` answers to a request for its next
/// bytes at `position`, and the position afterwards.
pub open spec fn next_chunk(content: Seq<u8>, position: nat) -> (Result<Seq<u8>, Error>, nat) {
    if position >= content.len() {
        (Err(Error::EndOfFile), position)
    } else if position + chunk_size() < content.len() {
        (
            Ok(content.subrange(position as int, (position + chunk_size()) as int)),
            position + chunk_size(),
        )
    } else {
        (Ok(content.subrange(position as int, content.len() as int)), content.len())
    }
}

/// The state in which a read ends that is in `state` when the file with
/// the bytes `content` stands at `position`, and the position afterwards.
pub open spec fn read_to_end(state: ReadModel, content: Seq<u8>, position: nat) -> (ReadModel, nat)
    decreases content.len() - position,
{
    if state.action != ReadAction::ReadFile {
        (state, position)
    } else if position >= content.len() {
        (read_file_next(state, Err(Error::EndOfFile)), position)
    } else {
        read_to_end(
            read_file_next(state, next_chunk(content, position).0),
            content,
            next_chunk(content, position).1,
        )
    }
}

/// A read that has gathered the bytes of the file from `start` to
/// `position` and whose buffer holds more than the rest of the file ends
/// with the bytes from `start` to the end of the file.
proof fn lemma_read_rest(content: Seq<u8>, start: nat, position: nat, wanted: usize)
    requires
        start <= position <= content.len(),
        start < content.len(),
        content.len() - start < wanted,
    ensures
        read_to_end(
            read_pending(
                ReadAction::ReadFile,
                wanted,
                content.subrange(start as int, position as int),
            ),
            content,
            position,
        ) == (
            read_done(
                wanted,
                content.subrange(start as int, content.len() as int),
                Status::Success,
                (content.len() - start) as usize,
            ),
            content.len(),
        ),
    decreases content.len() - position,
{
    let state = read_pending(
        ReadAction::ReadFile,
        wanted,
        content.subrange(start as int, position as int),
    );
    if position < content.len() {
        let chunk = next_chunk(content, position);
        let bytes = chunk.0->Ok_0;
        let next = read_file_next(state, chunk.0);
        assert(bytes.subrange(0, bytes.len() as int) =~= bytes);
        assert(state.data + bytes =~= content.subrange(start as int, chunk.1 as int));
        assert(next == read_pending(
            ReadAction::ReadFile,
            wanted,
            content.subrange(start as int, chunk.1 as int),
        ));
        lemma_read_rest(content, start, chunk.1, wanted);
    }
}

/// A read of a file into a buffer that holds more than what is left of
/// the file ends with `Success`, the bytes that were left and their
/// number as the size. The read after it, whatever its buffer, ends with
/// `EndOfFile` and size zero.
pub proof fn lemma_read_past_end(content: Seq<u8>, position: nat, wanted: usize, again: usize)
    requires
        position < content.len(),
        content.len() - position < wanted,
        again > 0,
    ensures
        read_to_end(read_pending(ReadAction::ReadFile, wanted, Seq::empty()), content, position)
            == (
            read_done(
                wanted,
                content.subrange(position as int, content.len() as int),
                Status::Success,
                (content.len() - position) as usize,
            ),
            content.len(),
        ),
        read_to_end(
            read_pending(ReadAction::ReadFile, again, Seq::empty()),
            content,
            content.len(),
        ) == (read_done(again, Seq::empty(), Status::EndOfFile, 0), content.len()),
{
    assert(content.subrange(position as int, position as int) =~= Seq::<u8>::empty());
    lemma_read_rest(content, position, position, wanted);
}

/// Opening the parent path asks the filesystem for the parent first. From
/// an entry without a parent, the root, the call ends with
/// `InvalidParameter` and opens nothing. From an entry with a parent it
/// goes on to open the path, and when the filesystem then hands over the
/// parent's entry and the table has room, the call ends with `Success`
/// and a new file object over that entry.
pub proof fn lemma_open_parent(
    files: Seq<FileWrapper>,
    capacity: usize,
    file_in: FileHandle,
    path_in: Seq<u16>,
    parent: Result<DirectoryEntry, Error>,
    entry: DirectoryEntry,
)
    requires
        files.len() <= capacity,
        is_open(files, file_in),
        decoded_path(path_in) == parent_path(),
    ensures
        ({
            let start = open_start(files, file_in, path_in);
            let asked = open_next(files, capacity, start, parent);
            let opened = open_next(files, capacity, asked.0, Ok(entry));
            &&& start.action == OpenAction::GetParent
            &&& parent is Err ==> asked == (
                open_done(parent_path(), Status::InvalidParameter, None),
                files,
            )
            &&& parent is Ok ==> asked.0.action == OpenAction::Open && asked.1 == files
            &&& parent is Ok && create_outcome(files, capacity, entry).0 is Ok ==> {
                &&& opened.0.action == OpenAction::Done
                &&& opened.0.status == Status::Success
                &&& opened.0.file_out matches Some(file)
                &&& is_open(opened.1, file)
                &&& !is_open(files, file)
                &&& opened.1[file.index as int].ofile == Some(entry)
            }
        }),
{
    lemma_create_opens(files, capacity, entry);
}

} // verus!
