//! The decisions of the entries of the boot and runtime service tables.
//!
//! An entry's pointer arguments arrive here as plain values: `None` for a
//! null pointer, and for an output pointer the value that is stored
//! through it.

use crate::calloc::{constant_value, page_count, pages_for, EfiConstant, PageRequest};
use crate::guid::Guid;
use crate::handle_database::{
    first_interface, install_all_outcome, install_outcome, locate_handle_outcome, located,
    lookup_outcome, Handle, HandleDatabase, Records,
};
use crate::status::Status;
use vstd::prelude::*;

verus! {

/// The size in bytes of a memory descriptor.
pub const MEMORY_DESCRIPTOR_SIZE: usize = 40;

/// The greatest number of pairs that one call can install.
pub const MAX_PROTOCOL_PAIRS: usize = 8;

/// The request for a pool of `size` bytes of memory of kind
/// `memory_type`: whole pages, at any address.
pub fn allocate_pool(memory_type: u32, size: usize, address: u64) -> (request: PageRequest)
    ensures
        request == (PageRequest {
            allocate_type: constant_value(EfiConstant::AllocateAnyPages),
            memory_type,
            pages: pages_for(size as int) as u64,
            address,
        }),
{
    PageRequest {
        allocate_type: EfiConstant::AllocateAnyPages.value(),
        memory_type,
        pages: page_count(size),
        address,
    }
}

/// What a request for the memory map returns to a caller whose buffer
/// holds `memory_map_size` bytes when the map has `count` descriptors:
/// `BufferTooSmall` or `Success`, and either way the size of the map.
pub fn get_memory_map(memory_map_size: usize, count: usize) -> (r: (Status, usize))
    requires
        count * MEMORY_DESCRIPTOR_SIZE <= usize::MAX,
    ensures
        r.1 == count * MEMORY_DESCRIPTOR_SIZE,
        r.0 == if memory_map_size < count * MEMORY_DESCRIPTOR_SIZE {
            Status::BufferTooSmall
        } else {
            Status::Success
        },
{
    let map_size = MEMORY_DESCRIPTOR_SIZE * count;
    if memory_map_size < map_size {
        return (Status::BufferTooSmall, map_size);
    }
    (Status::Success, map_size)
}

/// The number of descriptors in a map of `map_size` bytes that is handed
/// in for the move to virtual addresses, or `InvalidParameter` where the
/// map is of another version than the firmware's.
pub fn set_virtual_address_map(map_size: usize, descriptor_size: usize, version: u32) -> (r: Result<
    usize,
    Status,
>)
    requires
        descriptor_size > 0,
    ensures
        r == if version != constant_value(EfiConstant::MemoryDescriptorVersion) {
            Err::<usize, Status>(Status::InvalidParameter)
        } else {
            Ok::<usize, Status>((map_size / descriptor_size) as usize)
        },
{
    let count = map_size / descriptor_size;
    if version != EfiConstant::MemoryDescriptorVersion.value() {
        return Err(Status::InvalidParameter);
    }
    Ok(count)
}

/// Installs one protocol for a caller that holds `handle`. Returns the
/// status and the handle that the caller holds afterwards: the handle of
/// the installation if it succeeded, its own otherwise.
pub fn install_protocol_interface(
    db: &mut HandleDatabase,
    handle: Handle,
    guid: &Guid,
    interface: usize,
) -> (r: (Status, Handle))
    requires
        old(db).wf(),
    ensures
        final(db).wf(),
        final(db)@ == install_outcome(old(db)@, handle, *guid, interface).2,
        r.0 == install_outcome(old(db)@, handle, *guid, interface).0,
        r.1 == if r.0 == Status::Success {
            install_outcome(old(db)@, handle, *guid, interface).1
        } else {
            handle
        },
{
    let (status, new_handle) = db.install_protocol(handle, guid, interface);
    if status == Status::Success {
        (status, new_handle)
    } else {
        (status, handle)
    }
}

/// The interface installed on `handle` under `guid`; a null pointer for
/// the identifier is refused with `InvalidParameter`.
pub fn handle_protocol(db: &HandleDatabase, handle: Handle, guid: Option<&Guid>) -> (r: (
    Status,
    usize,
))
    requires
        db.wf(),
    ensures
        r == match guid {
            None => (Status::InvalidParameter, 0usize),
            Some(guid) => lookup_outcome(db@, handle, *guid),
        },
{
    match guid {
        None => (Status::InvalidParameter, 0),
        Some(guid) => db.handle_protocol(handle, guid),
    }
}

/// The interface installed on `handle` under `guid`, for a caller that
/// opens it with `attributes`. Only a plain look-up is supported.
pub fn open_protocol(db: &HandleDatabase, handle: Handle, guid: Option<&Guid>, attributes: u32) -> (r:
    (Status, usize))
    requires
        db.wf(),
    ensures
        r == match guid {
            None => (Status::InvalidParameter, 0usize),
            Some(guid) => if attributes != constant_value(EfiConstant::OpenProtocolGetProtocol) {
                (Status::Unsupported, 0usize)
            } else {
                lookup_outcome(db@, handle, *guid)
            },
        },
{
    match guid {
        None => (Status::InvalidParameter, 0),
        Some(guid) => {
            if attributes != EfiConstant::OpenProtocolGetProtocol.value() {
                return (Status::Unsupported, 0);
            }
            db.handle_protocol(handle, guid)
        },
    }
}

/// Why a search for handles is refused before the registry is asked, if
/// it is: a null pointer for the identifier with `InvalidParameter`, a
/// search that does not go by protocol or that has a search key with
/// `Unsupported`.
pub open spec fn search_refused(locate_search_type: u32, guid: Option<&Guid>, search_key: usize) -> Option<
    Status,
> {
    if guid is None {
        Some(Status::InvalidParameter)
    } else if locate_search_type != constant_value(EfiConstant::ByProtocol) {
        Some(Status::Unsupported)
    } else if search_key != 0 {
        Some(Status::Unsupported)
    } else {
        None
    }
}

/// Checks the arguments of a search for handles.
fn check_search(locate_search_type: u32, guid: Option<&Guid>, search_key: usize) -> (r: Option<
    Status,
>)
    ensures
        r == search_refused(locate_search_type, guid, search_key),
{
    if guid.is_none() {
        return Some(Status::InvalidParameter);
    }
    if locate_search_type != EfiConstant::ByProtocol.value() {
        return Some(Status::Unsupported);
    }
    if search_key != 0 {
        return Some(Status::Unsupported);
    }
    None
}

/// The handles that carry `guid`, for a caller whose buffer holds
/// `buffer_size` bytes. Returns the status, the size that the caller's
/// size becomes, and the handles for the buffer. The size changes only
/// with `Success` and `BufferTooSmall`.
pub fn locate_handle(
    db: &HandleDatabase,
    locate_search_type: u32,
    guid: Option<&Guid>,
    search_key: usize,
    buffer_size: usize,
) -> (r: (Status, usize, Vec<Handle>))
    requires
        db.wf(),
    ensures
        (r.0, r.1, r.2@) == match search_refused(locate_search_type, guid, search_key) {
            Some(status) => (status, buffer_size, Seq::<Handle>::empty()),
            None => {
                let found = locate_handle_outcome(db@, *guid->0, buffer_size);
                if found.0 == Status::NotFound {
                    (found.0, buffer_size, found.2)
                } else {
                    found
                }
            },
        },
{
    match check_search(locate_search_type, guid, search_key) {
        Some(status) => {
            return (status, buffer_size, Vec::new());
        },
        None => {},
    }
    let (status, final_buffer_size, handles) = db.locate_handle(guid.unwrap(), buffer_size);
    match status {
        Status::Success => {},
        Status::BufferTooSmall => {},
        _ => {
            return (status, buffer_size, handles);
        },
    }
    (status, final_buffer_size, handles)
}

/// The handles that carry `guid` and their number, for a caller that
/// wants a buffer made for it.
pub fn locate_handle_buffer(
    db: &HandleDatabase,
    locate_search_type: u32,
    guid: Option<&Guid>,
    search_key: usize,
) -> (r: (Status, usize, Vec<Handle>))
    requires
        db.wf(),
    ensures
        (r.0, r.1, r.2@) == match search_refused(locate_search_type, guid, search_key) {
            Some(status) => (status, 0usize, Seq::<Handle>::empty()),
            None => {
                let found = located(db@, *guid->0, db@.len() as int);
                if found.len() == 0 {
                    (Status::NotFound, 0usize, found)
                } else {
                    (Status::Success, found.len() as usize, found)
                }
            },
        },
{
    match check_search(locate_search_type, guid, search_key) {
        Some(status) => {
            return (status, 0, Vec::new());
        },
        None => {},
    }
    db.locate_handle_buffer(guid.unwrap())
}

/// The interface of the first handle that carries `guid`; a null pointer
/// for the identifier is refused with `InvalidParameter`.
pub fn locate_protocol(db: &HandleDatabase, guid: Option<&Guid>) -> (r: (Status, usize))
    requires
        db.wf(),
    ensures
        r == match guid {
            None => (Status::InvalidParameter, 0usize),
            Some(guid) => match first_interface(db@, *guid, 0) {
                Some(interface) => (Status::Success, interface),
                None => (Status::NotFound, 0usize),
            },
        },
{
    match guid {
        None => (Status::InvalidParameter, 0),
        Some(guid) => db.locate_protocol(guid),
    }
}

/// The number of pairs among `args`: one more than the index of the last
/// pair, among the first `n`, that has an identifier.
pub open spec fn pair_count(args: Seq<(Option<Guid>, usize)>, n: int) -> int
    decreases n,
{
    if n <= 0 {
        0
    } else if args[n - 1].0 is Some {
        n
    } else {
        pair_count(args, n - 1)
    }
}

/// The pairs that `args` hands over, if its first `count` pairs all have
/// an identifier.
pub open spec fn pairs_of(args: Seq<(Option<Guid>, usize)>, count: int) -> Option<Records> {
    if forall|i: int| 0 <= i < count ==> (#[trigger] args[i]).0 is Some {
        Some(Seq::new(count as nat, |i: int| (args[i].0->0, args[i].1)))
    } else {
        None
    }
}

/// What the installation of the pairs of `args` returns, and the registry
/// afterwards. `extra` says that more identifiers follow those of `args`.
///
/// A call without a first identifier, or with a gap among its
/// identifiers, is refused with `InvalidParameter`; one with more than
/// eight pairs, with `Unsupported`. The pairs are installed in order; the
/// caller's handle changes only if all of them succeeded.
pub open spec fn install_multiple_outcome(
    db: Seq<Records>,
    handle: Handle,
    args: Seq<(Option<Guid>, usize)>,
    extra: bool,
) -> (Status, Handle, Seq<Records>) {
    if args.len() == 0 || args[0].0 is None {
        (Status::InvalidParameter, handle, db)
    } else if extra || args.len() > MAX_PROTOCOL_PAIRS {
        (Status::Unsupported, handle, db)
    } else {
        match pairs_of(args, pair_count(args, args.len() as int)) {
            None => (Status::InvalidParameter, handle, db),
            Some(pairs) => {
                let out = install_all_outcome(db, handle, pairs);
                (
                    out.0,
                    if out.0 == Status::Success {
                        out.1
                    } else {
                        handle
                    },
                    out.2,
                )
            },
        }
    }
}

/// Installs the pairs of identifier and interface in `args` for a caller
/// that holds `handle`. Returns the status and the handle that the
/// caller holds afterwards.
pub fn install_multiple_protocol_interfaces_real(
    db: &mut HandleDatabase,
    handle: Handle,
    args: &[(Option<Guid>, usize)],
    extra: bool,
) -> (r: (Status, Handle))
    requires
        old(db).wf(),
    ensures
        (r.0, r.1, final(db)@) == install_multiple_outcome(old(db)@, handle, args@, extra),
        final(db).wf(),
{
    if args.len() == 0 || args[0].0.is_none() {
        return (Status::InvalidParameter, handle);
    }
    let mut count: usize = 1;
    let mut index: usize = 1;
    while index < args.len()
        invariant
            1 <= index <= args@.len(),
            1 <= count <= index,
            args@[0].0 is Some,
            count == pair_count(args@, index as int),
        decreases args.len() - index,
    {
        if args[index].0.is_some() {
            count = index + 1;
        }
        index += 1;
    }
    if extra || args.len() > MAX_PROTOCOL_PAIRS {
        return (Status::Unsupported, handle);
    }
    let mut pairs: Vec<(Guid, usize)> = Vec::new();
    let mut i: usize = 0;
    while i < count
        invariant
            i <= count <= args@.len(),
            *db == *old(db),
            db.wf(),
            !extra,
            args@.len() <= MAX_PROTOCOL_PAIRS,
            args@[0].0 is Some,
            count == pair_count(args@, args@.len() as int),
            pairs@.len() == i,
            forall|k: int| 0 <= k < i ==> (#[trigger] args@[k]).0 is Some,
            forall|k: int| 0 <= k < i ==> (#[trigger] pairs@[k]) == (args@[k].0->0, args@[k].1),
        decreases count - i,
    {
        match args[i].0 {
            None => {
                assert(args@[i as int].0 is None);
                return (Status::InvalidParameter, handle);
            },
            Some(guid) => {
                pairs.push((guid, args[i].1));
            },
        }
        i += 1;
    }
    proof {
        assert(pairs@ =~= pairs_of(args@, count as int)->0);
    }
    let (status, new_handle) = db.install_multiple_protocol(handle, pairs.as_slice());
    if status == Status::Success {
        (status, new_handle)
    } else {
        (status, handle)
    }
}

/// A key stroke.
#[derive(Clone, Copy, Debug, PartialEq, Eq, Structural)]
pub struct InputKey {
    pub scan_code: u16,
    pub unicode_char: u16,
}

/// The key stroke that the byte read from the console stands for:
/// `NotReady` and no key for a zero byte, which means that none was
/// waiting, else `Success` and the byte as a character.
pub fn stdin_read_key_stroke(byte: u8) -> (r: (Status, InputKey))
    ensures
        r == if byte == 0 {
            (Status::NotReady, InputKey { scan_code: 0, unicode_char: 0 })
        } else {
            (Status::Success, InputKey { scan_code: 0, unicode_char: byte as u16 })
        },
{
    if byte == 0 {
        return (Status::NotReady, InputKey { scan_code: 0, unicode_char: 0 });
    }
    (Status::Success, InputKey { scan_code: 0, unicode_char: byte as u16 })
}

/// The columns and rows of the text mode `mode_number`. `has_columns`
/// and `has_rows` say whether the caller gave a place for each; without
/// one of them the call is refused with `InvalidParameter`. Mode 0 has 80
/// columns and 25 rows, mode 1 has 80 and 50; there are no others.
pub fn stdout_query_mode(mode_number: usize, has_columns: bool, has_rows: bool) -> (r: (
    Status,
    usize,
    usize,
))
    ensures
        r == if !has_columns || !has_rows {
            (Status::InvalidParameter, 0usize, 0usize)
        } else if mode_number == 0 {
            (Status::Success, 80usize, 25usize)
        } else if mode_number == 1 {
            (Status::Success, 80usize, 50usize)
        } else {
            (Status::Unsupported, 0usize, 0usize)
        },
{
    if !has_columns || !has_rows {
        return (Status::InvalidParameter, 0, 0);
    }
    match mode_number {
        0 => (Status::Success, 80, 25),
        1 => (Status::Success, 80, 50),
        _ => (Status::Unsupported, 0, 0),
    }
}

/// Whether `c` ends a string that is read byte by byte: its low byte is
/// zero. The strings of the log, of the console and of the names of
/// variables are taken as their low bytes, so such a character would read
/// as the zero byte.
pub open spec fn is_narrow_terminator(c: u16) -> bool {
    c & 0xff == 0
}

/// The index of the first character of `s` at or behind `from` whose low
/// byte is zero, or the length of `s` if there is none.
pub open spec fn narrow_end(s: Seq<u16>, from: int) -> int
    decreases s.len() - from,
{
    if from < 0 || from >= s.len() {
        s.len() as int
    } else if is_narrow_terminator(s[from]) {
        from
    } else {
        narrow_end(s, from + 1)
    }
}

/// The end of a string that is read byte by byte lies between the place
/// where the scan for it starts and the end of the buffer, and no
/// character before it has a zero low byte.
pub proof fn lemma_narrow_end_bounds(s: Seq<u16>, from: int)
    requires
        0 <= from <= s.len(),
    ensures
        from <= narrow_end(s, from) <= s.len(),
        forall|i: int| from <= i < narrow_end(s, from) ==> !is_narrow_terminator(#[trigger] s[i]),
        narrow_end(s, from) < s.len() ==> is_narrow_terminator(s[narrow_end(s, from)]),
    decreases s.len() - from,
{
    if from < s.len() && !is_narrow_terminator(s[from]) {
        lemma_narrow_end_bounds(s, from + 1);
    }
}

/// Whether `c` ends a string that is read byte by byte.
pub fn ends_narrow_string(c: u16) -> (r: bool)
    ensures
        r == is_narrow_terminator(c),
{
    c & 0xff == 0
}

/// The number of characters of the string in `message`, its terminator
/// included, as far as it lies within the first `max_size` characters.
pub open spec fn char16_size(message: Seq<u16>, max_size: usize) -> int {
    let limit = if max_size < message.len() {
        max_size as int
    } else {
        message.len() as int
    };
    if narrow_end(message, 0) < limit {
        narrow_end(message, 0) + 1
    } else {
        limit
    }
}

/// The number of characters of the string in `message`, its terminator
/// included, but no more than `max_size`.
pub fn get_char16_size(message: &[u16], max_size: usize) -> (size: usize)
    ensures
        size == char16_size(message@, max_size),
{
    let mut i: usize = 0;
    loop
        invariant_except_break
            i <= message@.len(),
            i <= max_size,
            narrow_end(message@, 0) == narrow_end(message@, i as int),
        ensures
            i == char16_size(message@, max_size),
        decreases message@.len() - i,
    {
        if i >= max_size || i >= message.len() {
            proof {
                lemma_narrow_end_bounds(message@, i as int);
            }
            break ;
        }
        let output = message[i] & 0xff;
        i += 1;
        if output == 0 {
            break ;
        }
    }
    i
}

/// The low bytes of the first `n` characters of `message`.
pub open spec fn low_bytes(message: Seq<u16>, n: int) -> Seq<u8> {
    Seq::new(n as nat, |i: int| (message[i] & 0xff) as u8)
}

/// The low bytes of the characters of the string in `in_message`, its
/// terminator included, as far as it lies within the first
/// `in_message_size` characters and the bytes fit into
/// `out_message_size`.
pub fn char16_to_char8(in_message: &[u16], in_message_size: usize, out_message_size: usize) -> (out_message:
    Vec<u8>)
    ensures
        out_message@ == low_bytes(
            in_message@,
            char16_size(
                in_message@,
                if in_message_size < out_message_size {
                    in_message_size
                } else {
                    out_message_size
                },
            ),
        ),
{
    let mut out_message: Vec<u8> = Vec::new();
    let ghost limit = if in_message_size < out_message_size {
        in_message_size
    } else {
        out_message_size
    };
    let mut i: usize = 0;
    loop
        invariant_except_break
            i <= in_message@.len(),
            i <= limit,
            limit == if in_message_size < out_message_size {
                in_message_size
            } else {
                out_message_size
            },
            narrow_end(in_message@, 0) == narrow_end(in_message@, i as int),
            out_message@ == low_bytes(in_message@, i as int),
        ensures
            i == char16_size(in_message@, limit),
            out_message@ == low_bytes(in_message@, i as int),
        decreases in_message@.len() - i,
    {
        if i >= in_message_size || i >= out_message_size || i >= in_message.len() {
            proof {
                lemma_narrow_end_bounds(in_message@, i as int);
            }
            break ;
        }
        let wide = in_message[i];
        let c = wide & 0xff;
        assert(c <= 0xff) by (bit_vector)
            requires
                c == wide & 0xff,
        ;
        let output = c as u8;
        out_message.push(output);
        proof {
            assert(out_message@ =~= low_bytes(in_message@, i as int + 1));
        }
        i += 1;
        if output == 0 {
            break ;
        }
    }
    out_message
}

/// The text of the string in `message` for the log: the low bytes of its
/// characters before the terminator, and the number of characters that
/// were looked at.
pub fn print_char16(message: &[u16], max_size: usize) -> (r: (usize, Vec<u8>))
    ensures
        r.0 == char16_size(message@, max_size),
        r.1@ == low_bytes(
            message@,
            if narrow_end(message@, 0) < r.0 {
                narrow_end(message@, 0)
            } else {
                r.0 as int
            },
        ),
{
    let mut text = char16_to_char8(message, max_size, usize::MAX);
    let size = text.len();
    proof {
        lemma_narrow_end_bounds(message@, 0);
    }
    if size > 0 && text[size - 1] == 0 {
        assert(is_narrow_terminator(message@[size - 1])) by {
            let c = message@[size - 1];
            assert((c & 0xff) as u8 == 0 ==> c & 0xff == 0) by (bit_vector);
        }
        text.pop();
        proof {
            assert(text@ =~= low_bytes(message@, size - 1));
        }
    } else if size > 0 {
        assert(!is_narrow_terminator(message@[size - 1])) by {
            let c = message@[size - 1];
            assert((c & 0xff) as u8 != 0 ==> c & 0xff != 0) by (bit_vector);
        }
    }
    (size, text)
}

/// The limits of the variable store.
#[derive(Clone, Copy, Debug, PartialEq, Eq, Structural)]
pub struct VariableLimits {
    /// The greatest size of a name in characters, its terminator included.
    pub max_name: usize,
    /// The greatest size of a value in bytes.
    pub max_data: usize,
}

/// The name of a variable as the store takes it: the low bytes of the
/// characters of the string in `var_name`, its terminator included.
/// A name longer than the store takes is refused with `Unsupported`.
pub fn variable_name(var_name: &[u16], limits: VariableLimits) -> (r: Result<Vec<u8>, Status>)
    ensures
        char16_size(var_name@, usize::MAX) > limits.max_name ==> r == Err::<Vec<u8>, Status>(
            Status::Unsupported,
        ),
        char16_size(var_name@, usize::MAX) <= limits.max_name ==> r is Ok && r->Ok_0@ == low_bytes(
            var_name@,
            char16_size(var_name@, usize::MAX),
        ),
{
    let var_name_size = get_char16_size(var_name, usize::MAX);
    if var_name_size > limits.max_name {
        return Err(Status::Unsupported);
    }
    Ok(char16_to_char8(var_name, var_name_size, limits.max_name))
}

/// What reading a variable returns to a caller whose buffer holds `size`
/// bytes, when the store answered the look-up with `status` and a value
/// of `var_size` bytes: the status, and the size that the caller's size
/// becomes. The value is handed over only with `Success`.
pub fn get_variable(status: Status, size: usize, var_size: usize) -> (r: (Status, usize))
    ensures
        r == if status == Status::NotFound {
            (Status::NotFound, size)
        } else if size < var_size {
            (Status::BufferTooSmall, var_size)
        } else {
            (Status::Success, var_size)
        },
{
    if status == Status::NotFound {
        return (status, size);
    }
    if size < var_size {
        return (Status::BufferTooSmall, var_size);
    }
    (Status::Success, var_size)
}

/// Whether a variable with the name in `var_name` and a value of `size`
/// bytes can be handed to the store: `Unsupported` where the name or the
/// value is larger than the store takes, else the name as the store
/// takes it.
pub fn set_variable(var_name: &[u16], size: usize, limits: VariableLimits) -> (r: Result<
    Vec<u8>,
    Status,
>)
    ensures
        char16_size(var_name@, usize::MAX) > limits.max_name || size > limits.max_data ==> r
            == Err::<Vec<u8>, Status>(Status::Unsupported),
        char16_size(var_name@, usize::MAX) <= limits.max_name && size <= limits.max_data ==> r is Ok
            && r->Ok_0@ == low_bytes(var_name@, char16_size(var_name@, usize::MAX)),
{
    let name = variable_name(var_name, limits)?;
    if size > limits.max_data {
        return Err(Status::Unsupported);
    }
    Ok(name)
}

/// The character of the hexadecimal digit `digit`, in lower case.
pub open spec fn hex_char(digit: int) -> u8 {
    if digit < 10 {
        (0x30 + digit) as u8
    } else {
        (0x61 + digit - 10) as u8
    }
}

/// The `n` low hexadecimal digits of `x`, highest first.
pub open spec fn hex(x: nat, n: nat) -> Seq<u8>
    decreases n,
{
    if n == 0 {
        Seq::empty()
    } else {
        hex(x / 16, (n - 1) as nat) + seq![hex_char((x % 16) as int)]
    }
}

/// The text of an identifier, as it is written to the log: the fields in
/// hexadecimal, in groups of 8, 4, 4, 4 and 12 digits with dashes between.
pub open spec fn guid_text(guid: Guid) -> Seq<u8> {
    hex(guid.time_low as nat, 8) + seq![0x2du8] + hex(guid.time_mid as nat, 4) + seq![0x2du8] + hex(
        guid.time_hi_and_version as nat,
        4,
    ) + seq![0x2du8] + hex(guid.clk_seq_hi_res as nat, 2) + hex(guid.clk_seq_low as nat, 2) + seq![
        0x2du8,
    ] + hex(guid.node[0] as nat, 2) + hex(guid.node[1] as nat, 2) + hex(guid.node[2] as nat, 2)
        + hex(guid.node[3] as nat, 2) + hex(guid.node[4] as nat, 2) + hex(guid.node[5] as nat, 2)
}

/// Appends the `n` low hexadecimal digits of `x`, highest first.
fn push_hex(text: &mut Vec<u8>, x: u64, n: usize)
    ensures
        final(text)@ == old(text)@ + hex(x as nat, n as nat),
    decreases n,
{
    if n == 0 {
        assert(text@ + hex(x as nat, 0) =~= text@);
        return ;
    }
    let ghost before = text@;
    push_hex(text, x / 16, n - 1);
    let digit = (x % 16) as u8;
    if digit < 10 {
        text.push(0x30 + digit);
    } else {
        text.push(0x61 + (digit - 10));
    }
    proof {
        assert(text@ =~= before + hex(x as nat, n as nat));
    }
}

/// The text of `guid` for the log.
pub fn print_guid(guid: &Guid) -> (text: Vec<u8>)
    ensures
        text@ == guid_text(*guid),
{
    let mut text: Vec<u8> = Vec::new();
    push_hex(&mut text, guid.time_low as u64, 8);
    text.push(0x2d);
    push_hex(&mut text, guid.time_mid as u64, 4);
    text.push(0x2d);
    push_hex(&mut text, guid.time_hi_and_version as u64, 4);
    text.push(0x2d);
    push_hex(&mut text, guid.clk_seq_hi_res as u64, 2);
    push_hex(&mut text, guid.clk_seq_low as u64, 2);
    text.push(0x2d);
    push_hex(&mut text, guid.node[0] as u64, 2);
    push_hex(&mut text, guid.node[1] as u64, 2);
    push_hex(&mut text, guid.node[2] as u64, 2);
    push_hex(&mut text, guid.node[3] as u64, 2);
    push_hex(&mut text, guid.node[4] as u64, 2);
    push_hex(&mut text, guid.node[5] as u64, 2);
    proof {
        assert(text@ =~= guid_text(*guid));
    }
    text
}

} // verus!
