//! The protocol registry: a bounded table from handles to the protocol
//! records installed on them.

use crate::guid::Guid;
use crate::status::Status;
use vstd::prelude::*;

verus! {

/// The tag that every live handle carries.
pub const HANDLE_SIGNATURE: u32 = 0x4C444849;

/// How many protocol records one handle can carry.
pub const MAX_PROTOCOL_STRUCT: usize = 16;

/// How many handles the registry can hold.
pub const MAX_HANDLE_STRUCT: usize = 16;

/// The size in bytes of a handle in a caller's buffer.
pub const HANDLE_SIZE: usize = 8;

/// An opaque token for one slot of the registry. The null handle stands for
/// "no handle yet"; any other value is live only if it carries the registry's
/// tag and names a slot that has been created.
#[derive(Clone, Copy, Debug, PartialEq, Eq, Structural)]
pub struct Handle {
    pub signature: u32,
    pub slot: u32,
}

/// The records of one slot, in the order of their installation: identifier
/// and interface.
pub type Records = Seq<(Guid, usize)>;

/// The handle of the slot with index `index`.
pub open spec fn handle_at(index: int) -> Handle {
    Handle { signature: HANDLE_SIGNATURE, slot: index as u32 }
}

/// The handle that names no slot.
pub open spec fn null_handle() -> Handle {
    Handle { signature: 0, slot: 0 }
}

/// The handle that the word `raw` stands for.
pub open spec fn raw_handle(raw: u64) -> Handle {
    Handle {
        signature: (raw as int / 0x1_0000_0000) as u32,
        slot: (raw as int % 0x1_0000_0000) as u32,
    }
}

/// Whether `handle` names a slot of `db`.
pub open spec fn is_live(db: Seq<Records>, handle: Handle) -> bool {
    handle.signature == HANDLE_SIGNATURE && (handle.slot as int) < db.len()
}

/// Whether some record of `records` has the identifier `guid`.
pub open spec fn carries(records: Records, guid: Guid) -> bool {
    exists|i: int| 0 <= i < records.len() && (#[trigger] records[i]).0 == guid
}

/// The interface of the first record of `records`, from index `from` on,
/// with identifier `guid`.
pub open spec fn interface_from(records: Records, guid: Guid, from: int) -> Option<usize>
    decreases records.len() - from,
{
    if from < 0 || from >= records.len() {
        None
    } else if records[from].0 == guid {
        Some(records[from].1)
    } else {
        interface_from(records, guid, from + 1)
    }
}

/// The interface of the first record of `records` with identifier `guid`.
pub open spec fn interface_of(records: Records, guid: Guid) -> Option<usize> {
    interface_from(records, guid, 0)
}

/// The handles among the first `n` slots of `db` that carry `guid`, in the
/// order in which the slots were created.
pub open spec fn located(db: Seq<Records>, guid: Guid, n: int) -> Seq<Handle>
    decreases n,
{
    if n <= 0 {
        Seq::empty()
    } else if carries(db[n - 1], guid) {
        located(db, guid, n - 1).push(handle_at(n - 1))
    } else {
        located(db, guid, n - 1)
    }
}

/// The interface that the first handle carrying `guid` among the slots from
/// `from` on has under it.
pub open spec fn first_interface(db: Seq<Records>, guid: Guid, from: int) -> Option<usize>
    decreases db.len() - from,
{
    if from < 0 || from >= db.len() {
        None
    } else if carries(db[from], guid) {
        interface_of(db[from], guid)
    } else {
        first_interface(db, guid, from + 1)
    }
}

/// What the registry owes its users: the bounds on both tables, and no
/// identifier twice on one handle.
pub open spec fn well_formed(db: Seq<Records>) -> bool {
    &&& db.len() <= MAX_HANDLE_STRUCT
    &&& forall|s: int| 0 <= s < db.len() ==> (#[trigger] db[s]).len() <= MAX_PROTOCOL_STRUCT
    &&& forall|s: int, i: int, j: int|
        0 <= s < db.len() && 0 <= i < j < db[s].len() ==> (#[trigger] db[s][i]).0 != (
        #[trigger] db[s][j]).0
}

/// One installation, as a function of the registry's contents: the status,
/// the handle returned, and the contents afterwards.
pub open spec fn install_outcome(db: Seq<Records>, handle: Handle, guid: Guid, interface: usize) -> (
    Status,
    Handle,
    Seq<Records>,
) {
    if handle == null_handle() {
        if db.len() >= MAX_HANDLE_STRUCT {
            (Status::OutOfResources, null_handle(), db)
        } else {
            (Status::Success, handle_at(db.len() as int), db.push(seq![(guid, interface)]))
        }
    } else if !is_live(db, handle) {
        (Status::InvalidParameter, null_handle(), db)
    } else if carries(db[handle.slot as int], guid) {
        (Status::InvalidParameter, null_handle(), db)
    } else if db[handle.slot as int].len() >= MAX_PROTOCOL_STRUCT {
        (Status::OutOfResources, null_handle(), db)
    } else {
        (
            Status::Success,
            handle,
            db.update(handle.slot as int, db[handle.slot as int].push((guid, interface))),
        )
    }
}

/// The installation of `pairs` one after the other, each on the handle that
/// the one before returned. It stops at the first failure and keeps what was
/// installed before it.
pub open spec fn install_all_outcome(db: Seq<Records>, handle: Handle, pairs: Records) -> (
    Status,
    Handle,
    Seq<Records>,
)
    decreases pairs.len(),
{
    if pairs.len() == 0 {
        (Status::Success, handle, db)
    } else {
        let first = install_outcome(db, handle, pairs[0].0, pairs[0].1);
        if first.0 != Status::Success {
            (first.0, null_handle(), first.2)
        } else {
            install_all_outcome(first.2, first.1, pairs.skip(1))
        }
    }
}

/// What a lookup on one handle returns.
pub open spec fn lookup_outcome(db: Seq<Records>, handle: Handle, guid: Guid) -> (Status, usize) {
    if !is_live(db, handle) {
        (Status::InvalidParameter, 0)
    } else {
        match interface_of(db[handle.slot as int], guid) {
            Some(interface) => (Status::Success, interface),
            None => (Status::NotFound, 0),
        }
    }
}

/// What a search for the handles that carry `guid` returns to a caller whose
/// buffer holds `buffer_size` bytes: the status, the size in bytes that the
/// handles take, and the handles handed over.
pub open spec fn locate_handle_outcome(db: Seq<Records>, guid: Guid, buffer_size: usize) -> (
    Status,
    usize,
    Seq<Handle>,
) {
    let found = located(db, guid, db.len() as int);
    if found.len() == 0 {
        (Status::NotFound, 0, Seq::empty())
    } else if buffer_size < found.len() * HANDLE_SIZE {
        (Status::BufferTooSmall, (found.len() * HANDLE_SIZE) as usize, Seq::empty())
    } else {
        (Status::Success, (found.len() * HANDLE_SIZE) as usize, found)
    }
}

/// One installed protocol: its identifier and its interface.
#[derive(Clone, Copy, Debug)]
pub struct ProtocolStruct {
    pub guid: Guid,
    pub interface: usize,
}

/// One slot of the registry.
struct ProtocolHandle {
    signature: u32,
    protocol_struct: Vec<ProtocolStruct>,
}

impl ProtocolHandle {
    spec fn records(self) -> Records {
        Seq::new(
            self.protocol_struct@.len(),
            |i: int| (self.protocol_struct@[i].guid, self.protocol_struct@[i].interface),
        )
    }
}

/// The registry of handles and the protocols installed on them.
pub struct HandleDatabase {
    protocol_handle: Vec<ProtocolHandle>,
}

impl View for HandleDatabase {
    type V = Seq<Records>;

    /// The records of every slot, in the order in which the slots were created.
    closed spec fn view(&self) -> Seq<Records> {
        Seq::new(self.protocol_handle@.len(), |s: int| self.protocol_handle@[s].records())
    }
}

impl Handle {
    /// The null handle.
    pub fn null() -> (handle: Handle)
        ensures
            handle == null_handle(),
    {
        Handle { signature: 0, slot: 0 }
    }

    /// The handle that the word `raw` stands for in a caller's memory: the
    /// tag in its high half, the slot in its low half. Zero is the null
    /// handle.
    pub fn from_raw(raw: u64) -> (handle: Handle)
        ensures
            handle == raw_handle(raw),
    {
        Handle { signature: (raw / 0x1_0000_0000) as u32, slot: (raw % 0x1_0000_0000) as u32 }
    }

    /// The word that stands for the handle in a caller's memory.
    pub fn to_raw(self) -> (raw: u64)
        ensures
            raw == self.signature * 0x1_0000_0000 + self.slot,
            raw_handle(raw) == self,
            (raw == 0) == (self == null_handle()),
    {
        self.signature as u64 * 0x1_0000_0000 + self.slot as u64
    }

    /// Whether the handle is the null handle.
    pub fn is_null(&self) -> (r: bool)
        ensures
            r == (*self == null_handle()),
    {
        self.signature == 0 && self.slot == 0
    }
}

impl HandleDatabase {
    /// Every slot carries the registry's tag.
    pub closed spec fn tagged(&self) -> bool {
        forall|s: int|
            0 <= s < self.protocol_handle@.len() ==> (#[trigger] self.protocol_handle@[s]).signature
                == HANDLE_SIGNATURE
    }

    /// The invariant of the registry: `new` establishes it and every method
    /// keeps it.
    pub open spec fn wf(&self) -> bool {
        well_formed(self@) && self.tagged()
    }

    /// An empty registry.
    pub fn new() -> (db: HandleDatabase)
        ensures
            db@ == Seq::<Records>::empty(),
            db.wf(),
    {
        let db = HandleDatabase { protocol_handle: Vec::new() };
        assert(db@ =~= Seq::<Records>::empty());
        db
    }

    /// Tells a null handle (`NotFound`) and a forged one (`InvalidParameter`)
    /// from a live one (`Success`).
    fn get_handle(&self, handle: Handle) -> (r: (Status, Handle))
        ensures
            handle == null_handle() ==> r == (Status::NotFound, null_handle()),
            handle != null_handle() && !is_live(self@, handle) ==> r == (
                Status::InvalidParameter,
                null_handle(),
            ),
            is_live(self@, handle) ==> r == (Status::Success, handle),
    {
        if handle.is_null() {
            return (Status::NotFound, Handle::null());
        }
        if handle.signature != HANDLE_SIGNATURE || handle.slot as usize
            >= self.protocol_handle.len() {
            return (Status::InvalidParameter, Handle::null());
        }
        (Status::Success, handle)
    }

    /// Creates the next slot, empty, unless the table of handles is full.
    fn get_new_handle(&mut self) -> (r: (Status, Handle))
        requires
            old(self).wf(),
        ensures
            final(self).tagged(),
            old(self)@.len() >= MAX_HANDLE_STRUCT ==> r == (Status::OutOfResources, null_handle())
                && final(self)@ == old(self)@,
            old(self)@.len() < MAX_HANDLE_STRUCT ==> r == (
                Status::Success,
                handle_at(old(self)@.len() as int),
            ) && final(self)@ == old(self)@.push(Seq::empty()),
    {
        if self.protocol_handle.len() >= MAX_HANDLE_STRUCT {
            return (Status::OutOfResources, Handle::null());
        }
        let slot = self.protocol_handle.len() as u32;
        let ghost before = self@;
        self.protocol_handle.push(
            ProtocolHandle { signature: HANDLE_SIGNATURE, protocol_struct: Vec::new() },
        );
        proof {
            assert(self.protocol_handle@[slot as int].records() =~= Seq::<(Guid, usize)>::empty());
            assert(self@ =~= before.push(Seq::empty()));
        }
        (Status::Success, Handle { signature: HANDLE_SIGNATURE, slot })
    }

    /// Scans the records of slot `slot` for `guid`: the index of the first
    /// record that has it.
    fn get_protocol(&self, slot: usize, guid: &Guid) -> (r: Option<usize>)
        requires
            slot < self@.len(),
        ensures
            r == None::<usize> <==> !carries(self@[slot as int], *guid),
            r == None::<usize> <==> interface_of(self@[slot as int], *guid) == None::<usize>,
            r matches Some(i) ==> i < self@[slot as int].len() && self@[slot as int][i as int].0
                == *guid && interface_of(self@[slot as int], *guid) == Some(
                self@[slot as int][i as int].1,
            ),
    {
        let records = &self.protocol_handle[slot].protocol_struct;
        let ghost model = self@[slot as int];
        assert(model =~= self.protocol_handle@[slot as int].records());
        let mut index: usize = 0;
        while index < records.len()
            invariant
                index <= records.len(),
                slot < self@.len(),
                model == self@[slot as int],
                records@.len() == model.len(),
                forall|j: int|
                    0 <= j < records@.len() ==> (#[trigger] model[j]) == (
                        records@[j].guid,
                        records@[j].interface,
                    ),
                forall|j: int| 0 <= j < index ==> (#[trigger] model[j]).0 != *guid,
                interface_of(model, *guid) == interface_from(model, *guid, index as int),
            decreases records.len() - index,
        {
            if records[index].guid.same(guid) {
                return Some(index);
            }
            index += 1;
        }
        None
    }

    /// Appends a record to slot `slot`, unless the slot is full.
    fn get_new_protocol(&mut self, slot: usize, guid: &Guid, interface: usize) -> (status: Status)
        requires
            old(self).wf(),
            slot < old(self)@.len(),
            !carries(old(self)@[slot as int], *guid),
        ensures
            final(self).tagged(),
            old(self)@[slot as int].len() >= MAX_PROTOCOL_STRUCT ==> status
                == Status::OutOfResources && final(self)@ == old(self)@,
            old(self)@[slot as int].len() < MAX_PROTOCOL_STRUCT ==> status == Status::Success
                && final(self)@ == old(self)@.update(
                slot as int,
                old(self)@[slot as int].push((*guid, interface)),
            ),
    {
        let ghost before = self@;
        assert(before[slot as int] =~= self.protocol_handle@[slot as int].records());
        if self.protocol_handle[slot].protocol_struct.len() >= MAX_PROTOCOL_STRUCT {
            return Status::OutOfResources;
        }
        self.protocol_handle[slot].protocol_struct.push(ProtocolStruct { guid: *guid, interface });
        proof {
            let after = before.update(slot as int, before[slot as int].push((*guid, interface)));
            assert(self.protocol_handle@[slot as int].records() =~= before[slot as int].push(
                (*guid, interface),
            ));
            assert forall|s: int| 0 <= s < after.len() implies (#[trigger] self@[s]) == after[s] by {
                if s != slot {
                    assert(self.protocol_handle@[s] == old(self).protocol_handle@[s]);
                }
            }
            assert(self@ =~= after);
        }
        Status::Success
    }

    /// Installs `interface` under `guid` on `handle`, or on a new handle if
    /// `handle` is null, and returns the handle that now carries it.
    ///
    /// A handle that is neither null nor live, and an identifier that the
    /// handle already carries, give `InvalidParameter`; a full table of
    /// handles or of records gives `OutOfResources`. A failed call changes
    /// nothing and returns the null handle.
    pub fn install_protocol(&mut self, handle: Handle, guid: &Guid, interface: usize) -> (r: (
        Status,
        Handle,
    ))
        requires
            old(self).wf(),
        ensures
            (r.0, r.1, final(self)@) == install_outcome(old(self)@, handle, *guid, interface),
            final(self).wf(),
    {
        let (status, found) = self.get_handle(handle);
        let cur_handle = match status {
            Status::Success => found,
            Status::NotFound => {
                let (status, new_handle) = self.get_new_handle();
                match status {
                    Status::Success => new_handle,
                    _ => {
                        return (status, Handle::null());
                    },
                }
            },
            _ => {
                return (status, Handle::null());
            },
        };
        let slot = cur_handle.slot as usize;
        let ghost grown = self@;
        if self.get_protocol(slot, guid).is_some() {
            return (Status::InvalidParameter, Handle::null());
        }
        let status = self.get_new_protocol(slot, guid, interface);
        match status {
            Status::Success => {},
            _ => {
                return (status, Handle::null());
            },
        }
        proof {
            if handle == null_handle() {
                assert(grown[slot as int].push((*guid, interface)) =~= seq![(*guid, interface)]);
                assert(self@ =~= old(self)@.push(seq![(*guid, interface)]));
            }
        }
        (Status::Success, cur_handle)
    }

    /// Installs the pairs of `pairs` in turn, the first on `handle` (or on
    /// a new handle if `handle` is null) and each later one on the handle
    /// that the one before returned. The first failure ends the call with
    /// its status and the null handle; what was installed before it stays.
    pub fn install_multiple_protocol(&mut self, handle: Handle, pairs: &[(Guid, usize)]) -> (r: (
        Status,
        Handle,
    ))
        requires
            old(self).wf(),
        ensures
            (r.0, r.1, final(self)@) == install_all_outcome(old(self)@, handle, pairs@),
            final(self).wf(),
    {
        let mut cur_handle = handle;
        let mut index: usize = 0;
        assert(pairs@.skip(0) =~= pairs@);
        while index < pairs.len()
            invariant
                index <= pairs.len(),
                self.wf(),
                install_all_outcome(old(self)@, handle, pairs@) == install_all_outcome(
                    self@,
                    cur_handle,
                    pairs@.skip(index as int),
                ),
            decreases pairs.len() - index,
        {
            let (status, new_handle) = self.install_protocol(
                cur_handle,
                &pairs[index].0,
                pairs[index].1,
            );
            proof {
                assert(pairs@.skip(index as int).skip(1) =~= pairs@.skip(index as int + 1));
                assert(pairs@.skip(index as int)[0] == pairs@[index as int]);
            }
            match status {
                Status::Success => {},
                _ => {
                    return (status, Handle::null());
                },
            }
            cur_handle = new_handle;
            index += 1;
        }
        (Status::Success, cur_handle)
    }

    /// The interface installed on `handle` under `guid`: `NotFound` if the
    /// handle carries no such record, `InvalidParameter` if the handle is
    /// not live.
    pub fn handle_protocol(&self, handle: Handle, guid: &Guid) -> (r: (Status, usize))
        requires
            self.wf(),
        ensures
            r == lookup_outcome(self@, handle, *guid),
    {
        let (status, _) = self.get_handle(handle);
        match status {
            Status::Success => {},
            _ => {
                return (Status::InvalidParameter, 0);
            },
        }
        let slot = handle.slot as usize;
        match self.get_protocol(slot, guid) {
            Some(index) => {
                assert(self@[slot as int] =~= self.protocol_handle@[slot as int].records());
                (Status::Success, self.protocol_handle[slot].protocol_struct[index].interface)
            },
            None => (Status::NotFound, 0),
        }
    }

    /// Every handle that carries a record with identifier `guid`, in the
    /// order in which the handles were created.
    pub fn locate_all(&self, guid: &Guid) -> (handles: Vec<Handle>)
        requires
            self.wf(),
        ensures
            handles@ == located(self@, *guid, self@.len() as int),
            handles@.len() <= MAX_HANDLE_STRUCT,
    {
        let mut handles: Vec<Handle> = Vec::new();
        let mut slot: usize = 0;
        while slot < self.protocol_handle.len()
            invariant
                self.wf(),
                slot <= self.protocol_handle.len(),
                self.protocol_handle@.len() == self@.len(),
                handles@ == located(self@, *guid, slot as int),
                handles@.len() <= slot,
            decreases self.protocol_handle.len() - slot,
        {
            if self.get_protocol(slot, guid).is_some() {
                handles.push(Handle { signature: HANDLE_SIGNATURE, slot: slot as u32 });
            }
            slot += 1;
        }
        handles
    }

    /// The handles that carry `guid`, for a caller whose buffer holds
    /// `buffer_size` bytes: `NotFound` if there is none, `BufferTooSmall`
    /// with the size needed if the buffer cannot take them all, else
    /// `Success` with the size used and the handles.
    pub fn locate_handle(&self, guid: &Guid, buffer_size: usize) -> (r: (Status, usize, Vec<Handle>))
        requires
            self.wf(),
        ensures
            (r.0, r.1, r.2@) == locate_handle_outcome(self@, *guid, buffer_size),
    {
        let handles = self.locate_all(guid);
        if handles.len() == 0 {
            return (Status::NotFound, 0, handles);
        }
        let needed = handles.len() * HANDLE_SIZE;
        if buffer_size < needed {
            return (Status::BufferTooSmall, needed, Vec::new());
        }
        (Status::Success, needed, handles)
    }

    /// The handles that carry `guid` and their number, for a caller that
    /// wants a buffer made for it: `NotFound` if there is none.
    pub fn locate_handle_buffer(&self, guid: &Guid) -> (r: (Status, usize, Vec<Handle>))
        requires
            self.wf(),
        ensures
            r.2@ == located(self@, *guid, self@.len() as int),
            r.1 == r.2@.len(),
            r.0 == if r.2@.len() == 0 {
                Status::NotFound
            } else {
                Status::Success
            },
    {
        let handles = self.locate_all(guid);
        if handles.len() == 0 {
            return (Status::NotFound, 0, handles);
        }
        (Status::Success, handles.len(), handles)
    }

    /// The interface that the first handle carrying `guid` has under it,
    /// or `NotFound`.
    pub fn locate_protocol(&self, guid: &Guid) -> (r: (Status, usize))
        requires
            self.wf(),
        ensures
            r == match first_interface(self@, *guid, 0) {
                Some(interface) => (Status::Success, interface),
                None => (Status::NotFound, 0usize),
            },
    {
        let mut slot: usize = 0;
        while slot < self.protocol_handle.len()
            invariant
                self.wf(),
                slot <= self.protocol_handle.len(),
                self.protocol_handle@.len() == self@.len(),
                first_interface(self@, *guid, 0) == first_interface(self@, *guid, slot as int),
            decreases self.protocol_handle.len() - slot,
        {
            match self.get_protocol(slot, guid) {
                Some(index) => {
                    assert(self@[slot as int] =~= self.protocol_handle@[slot as int].records());
                    return (
                        Status::Success,
                        self.protocol_handle[slot].protocol_struct[index].interface,
                    );
                },
                None => {},
            }
            slot += 1;
        }
        (Status::NotFound, 0)
    }
}

} // verus!
