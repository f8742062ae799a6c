//! What holds of the protocol registry across calls, proved over the
//! contents that the registry's methods are specified by.

use crate::guid::Guid;
use crate::handle_database::{
    carries, handle_at, install_all_outcome, install_outcome, interface_from, interface_of, is_live,
    located, lookup_outcome, null_handle, raw_handle, well_formed, Handle, Records,
    HANDLE_SIGNATURE, MAX_HANDLE_STRUCT,
};
use crate::status::Status;
use vstd::prelude::*;

verus! {

/// A scan that starts behind the last record with `guid` finds what a scan
/// from the front finds, as long as nothing before `from` has `guid`.
proof fn lemma_interface_from_appended(records: Records, guid: Guid, interface: usize, from: int)
    requires
        0 <= from <= records.len(),
        forall|i: int| from <= i < records.len() ==> (#[trigger] records[i]).0 != guid,
    ensures
        interface_from(records.push((guid, interface)), guid, from) == Some(interface),
    decreases records.len() - from,
{
    let longer = records.push((guid, interface));
    if from < records.len() {
        assert(longer[from] == records[from]);
        lemma_interface_from_appended(records, guid, interface, from + 1);
    }
}

/// Appending a record with another identifier changes no scan for `guid`.
proof fn lemma_interface_from_unrelated(
    records: Records,
    other: Guid,
    interface: usize,
    guid: Guid,
    from: int,
)
    requires
        0 <= from,
        other != guid,
    ensures
        interface_from(records.push((other, interface)), guid, from) == interface_from(
            records,
            guid,
            from,
        ),
    decreases records.len() - from,
{
    let longer = records.push((other, interface));
    if from < records.len() {
        assert(longer[from] == records[from]);
        lemma_interface_from_unrelated(records, other, interface, guid, from + 1);
    } else if from == records.len() {
        assert(longer[from] == (other, interface));
        assert(interface_from(longer, guid, from + 1) == None::<usize>);
    }
}

/// Appending a record with another identifier does not change whether the
/// records carry `guid`.
proof fn lemma_carries_unrelated(records: Records, other: Guid, interface: usize, guid: Guid)
    requires
        other != guid,
    ensures
        carries(records.push((other, interface)), guid) == carries(records, guid),
{
    let longer = records.push((other, interface));
    if carries(records, guid) {
        let i = choose|i: int| 0 <= i < records.len() && (#[trigger] records[i]).0 == guid;
        assert(longer[i] == records[i]);
    }
    if carries(longer, guid) {
        let i = choose|i: int| 0 <= i < longer.len() && (#[trigger] longer[i]).0 == guid;
        assert(i < records.len());
        assert(longer[i] == records[i]);
    }
}

/// Every word stands for one handle and every handle for one word: the
/// way from a word to its handle and back ends at the word.
pub proof fn lemma_raw_handle_round_trip(raw: u64)
    ensures
        raw_handle(raw).signature * 0x1_0000_0000 + raw_handle(raw).slot == raw,
{
}

/// An installation keeps the registry's invariant.
pub proof fn lemma_install_keeps_well_formed(
    db: Seq<Records>,
    handle: Handle,
    guid: Guid,
    interface: usize,
)
    requires
        well_formed(db),
    ensures
        well_formed(install_outcome(db, handle, guid, interface).2),
{
    let out = install_outcome(db, handle, guid, interface);
    if out.0 == Status::Success {
        if handle == null_handle() {
            assert forall|s: int, i: int, j: int|
                0 <= s < out.2.len() && 0 <= i < j < out.2[s].len() implies (
            #[trigger] out.2[s][i]).0 != (#[trigger] out.2[s][j]).0 by {
                if s < db.len() {
                    assert(out.2[s] == db[s]);
                }
            }
        } else {
            let slot = handle.slot as int;
            assert forall|s: int, i: int, j: int|
                0 <= s < out.2.len() && 0 <= i < j < out.2[s].len() implies (
            #[trigger] out.2[s][i]).0 != (#[trigger] out.2[s][j]).0 by {
                if s == slot {
                    if j == db[slot].len() {
                        assert(db[slot][i].0 != guid);
                    } else {
                        assert(out.2[s][i] == db[s][i] && out.2[s][j] == db[s][j]);
                    }
                }
            }
        }
    }
}

/// After a successful installation, a lookup on the handle returned finds
/// the interface that was installed under the identifier, and a second
/// installation of the same identifier on that handle is refused with
/// `InvalidParameter`, whatever interface it brings.
pub proof fn lemma_lookup_after_install(
    db: Seq<Records>,
    handle: Handle,
    guid: Guid,
    interface: usize,
    again: usize,
)
    requires
        well_formed(db),
        install_outcome(db, handle, guid, interface).0 == Status::Success,
    ensures
        ({
            let out = install_outcome(db, handle, guid, interface);
            &&& is_live(out.2, out.1)
            &&& lookup_outcome(out.2, out.1, guid) == (Status::Success, interface)
            &&& install_outcome(out.2, out.1, guid, again) == (
                Status::InvalidParameter,
                null_handle(),
                out.2,
            )
        }),
{
    let out = install_outcome(db, handle, guid, interface);
    let slot = out.1.slot as int;
    if handle == null_handle() {
        assert(slot == db.len());
        lemma_interface_from_appended(Seq::empty(), guid, interface, 0);
        assert(Seq::<(Guid, usize)>::empty().push((guid, interface)) =~= seq![(guid, interface)]);
        assert(out.2[slot] == seq![(guid, interface)]);
        assert(out.2[slot][0].0 == guid);
    } else {
        assert(slot == handle.slot);
        lemma_interface_from_appended(db[slot], guid, interface, 0);
        assert(out.2[slot] == db[slot].push((guid, interface)));
        assert(out.2[slot][db[slot].len() as int].0 == guid);
    }
}

/// An installation on the null handle succeeds exactly while the table has
/// room: it then adds one handle, the next in order. On a full table it
/// fails with `OutOfResources` and changes nothing. Either way the table
/// holds no more handles than its capacity.
pub proof fn lemma_new_handle_capacity(db: Seq<Records>, guid: Guid, interface: usize)
    requires
        well_formed(db),
    ensures
        ({
            let out = install_outcome(db, null_handle(), guid, interface);
            &&& db.len() < MAX_HANDLE_STRUCT ==> out.0 == Status::Success && out.1 == handle_at(
                db.len() as int,
            ) && out.2.len() == db.len() + 1
            &&& db.len() == MAX_HANDLE_STRUCT ==> out == (
                Status::OutOfResources,
                null_handle(),
                db,
            )
            &&& out.2.len() <= MAX_HANDLE_STRUCT
        }),
{
}

/// The registry after the first `n` pairs of `pairs` were installed, each on
/// the null handle, into an empty registry.
pub open spec fn after_new_handles(pairs: Records, n: int) -> Seq<Records>
    decreases n,
{
    if n <= 0 {
        Seq::empty()
    } else {
        install_outcome(
            after_new_handles(pairs, n - 1),
            null_handle(),
            pairs[n - 1].0,
            pairs[n - 1].1,
        ).2
    }
}

/// Starting from an empty registry, as many installations on new handles as
/// the table has room for all succeed, each on the next handle in order;
/// the one after the last of them fails with `OutOfResources`.
pub proof fn lemma_fill_with_new_handles(pairs: Records, n: int)
    requires
        0 <= n <= MAX_HANDLE_STRUCT,
        n <= pairs.len(),
    ensures
        well_formed(after_new_handles(pairs, n)),
        after_new_handles(pairs, n).len() == n,
        forall|k: int|
            0 <= k < n ==> #[trigger] install_outcome(
                after_new_handles(pairs, k),
                null_handle(),
                pairs[k].0,
                pairs[k].1,
            ).0 == Status::Success,
        forall|k: int|
            0 <= k < n ==> #[trigger] install_outcome(
                after_new_handles(pairs, k),
                null_handle(),
                pairs[k].0,
                pairs[k].1,
            ).1 == handle_at(k),
        n == MAX_HANDLE_STRUCT ==> forall|guid: Guid, interface: usize|
            #[trigger] install_outcome(
                after_new_handles(pairs, n),
                null_handle(),
                guid,
                interface,
            ).0 == Status::OutOfResources,
    decreases n,
{
    if n > 0 {
        lemma_fill_with_new_handles(pairs, n - 1);
        let before = after_new_handles(pairs, n - 1);
        lemma_install_keeps_well_formed(before, null_handle(), pairs[n - 1].0, pairs[n - 1].1);
        lemma_new_handle_capacity(before, pairs[n - 1].0, pairs[n - 1].1);
    }
}

/// The handles found for `guid` are exactly the live handles whose slot
/// carries a record with that identifier, each once and in the order of
/// their slots.
pub proof fn lemma_located_exact(db: Seq<Records>, guid: Guid, n: int)
    requires
        0 <= n <= db.len() <= MAX_HANDLE_STRUCT,
    ensures
        forall|h: Handle|
            located(db, guid, n).contains(h) <==> h.signature == HANDLE_SIGNATURE && (h.slot as int)
                < n && carries(db[h.slot as int], guid),
        forall|i: int, j: int|
            0 <= i < j < located(db, guid, n).len() ==> (#[trigger] located(db, guid, n)[i]).slot < (
            #[trigger] located(db, guid, n)[j]).slot,
        located(db, guid, n).len() <= n,
    decreases n,
{
    if n > 0 {
        lemma_located_exact(db, guid, n - 1);
        let before = located(db, guid, n - 1);
        let now = located(db, guid, n);
        if carries(db[n - 1], guid) {
            let last = handle_at(n - 1);
            assert(now == before.push(last));
            assert forall|h: Handle|
                now.contains(h) <==> h.signature == HANDLE_SIGNATURE && (h.slot as int) < n
                    && carries(db[h.slot as int], guid) by {
                if now.contains(h) {
                    let i = choose|i: int| 0 <= i < now.len() && now[i] == h;
                    if i < before.len() {
                        assert(before[i] == h);
                        assert(before.contains(h));
                    }
                }
                if h.signature == HANDLE_SIGNATURE && (h.slot as int) < n && carries(
                    db[h.slot as int],
                    guid,
                ) {
                    if h.slot as int == n - 1 {
                        assert(h == last);
                        assert(now[before.len() as int] == h);
                    } else {
                        assert(before.contains(h));
                        let i = choose|i: int| 0 <= i < before.len() && before[i] == h;
                        assert(now[i] == h);
                    }
                }
            }
            assert forall|i: int, j: int| 0 <= i < j < now.len() implies (#[trigger] now[i]).slot < (
            #[trigger] now[j]).slot by {
                if j == before.len() {
                    assert(before.contains(before[i]));
                }
            }
        }
    }
}

/// Whether a slot carries `guid` decides alone which handles are found: two
/// registries that agree on that for each of their first `n` slots give the
/// same handles.
proof fn lemma_located_agrees(a: Seq<Records>, b: Seq<Records>, guid: Guid, n: int)
    requires
        0 <= n <= a.len(),
        n <= b.len(),
        forall|s: int| 0 <= s < n ==> carries(#[trigger] a[s], guid) == carries(b[s], guid),
    ensures
        located(a, guid, n) == located(b, guid, n),
    decreases n,
{
    if n > 0 {
        lemma_located_agrees(a, b, guid, n - 1);
        assert(carries(a[n - 1], guid) == carries(b[n - 1], guid));
    }
}

/// What is found for one identifier does not depend on the installation of
/// another: an installation under `other`, on any handle and whether it
/// succeeds or not, leaves the handles found for `guid` as they were, and
/// leaves every lookup under `guid` as it was.
pub proof fn lemma_unrelated_install(
    db: Seq<Records>,
    handle: Handle,
    other: Guid,
    interface: usize,
    guid: Guid,
)
    requires
        well_formed(db),
        other != guid,
    ensures
        ({
            let after = install_outcome(db, handle, other, interface).2;
            &&& located(after, guid, after.len() as int) == located(db, guid, db.len() as int)
            &&& forall|h: Handle|
                is_live(db, h) ==> #[trigger] lookup_outcome(after, h, guid) == lookup_outcome(
                    db,
                    h,
                    guid,
                )
        }),
{
    let out = install_outcome(db, handle, other, interface);
    let after = out.2;
    if out.0 == Status::Success {
        if handle == null_handle() {
            assert(after[db.len() as int] == seq![(other, interface)]);
            assert(!carries(after[db.len() as int], guid)) by {
                if carries(after[db.len() as int], guid) {
                    let i = choose|i: int|
                        0 <= i < after[db.len() as int].len() && (
                        #[trigger] after[db.len() as int][i]).0 == guid;
                    assert(i == 0);
                }
            }
            assert forall|s: int| 0 <= s < db.len() implies carries(#[trigger] after[s], guid)
                == carries(db[s], guid) by {
                assert(after[s] == db[s]);
            }
            lemma_located_agrees(after, db, guid, db.len() as int);
            assert forall|h: Handle| is_live(db, h) implies #[trigger] lookup_outcome(
                after,
                h,
                guid,
            ) == lookup_outcome(db, h, guid) by {
                assert(after[h.slot as int] == db[h.slot as int]);
            }
        } else {
            let slot = handle.slot as int;
            lemma_carries_unrelated(db[slot], other, interface, guid);
            lemma_interface_from_unrelated(db[slot], other, interface, guid, 0);
            assert forall|s: int| 0 <= s < db.len() implies carries(#[trigger] after[s], guid)
                == carries(db[s], guid) by {
                if s != slot {
                    assert(after[s] == db[s]);
                }
            }
            lemma_located_agrees(after, db, guid, db.len() as int);
            assert forall|h: Handle| is_live(db, h) implies #[trigger] lookup_outcome(
                after,
                h,
                guid,
            ) == lookup_outcome(db, h, guid) by {
                if h.slot as int != slot {
                    assert(after[h.slot as int] == db[h.slot as int]);
                }
            }
        }
    }
}

/// A scan that finds an interface under `guid` finds it on a record that
/// has the identifier.
proof fn lemma_found_carries(records: Records, guid: Guid, from: int)
    requires
        0 <= from,
        interface_from(records, guid, from) is Some,
    ensures
        exists|i: int| from <= i < records.len() && (#[trigger] records[i]).0 == guid,
    decreases records.len() - from,
{
    if from < records.len() && records[from].0 != guid {
        lemma_found_carries(records, guid, from + 1);
    }
}

/// An installation takes nothing away: a handle that was live stays live,
/// and what a lookup on it found before, it finds afterwards.
pub proof fn lemma_install_keeps_records(
    db: Seq<Records>,
    handle: Handle,
    guid: Guid,
    interface: usize,
    kept: Handle,
    under: Guid,
)
    requires
        well_formed(db),
        is_live(db, kept),
    ensures
        ({
            let after = install_outcome(db, handle, guid, interface).2;
            &&& is_live(after, kept)
            &&& lookup_outcome(db, kept, under).0 == Status::Success ==> lookup_outcome(
                after,
                kept,
                under,
            ) == lookup_outcome(db, kept, under)
        }),
{
    let out = install_outcome(db, handle, guid, interface);
    if out.0 == Status::Success {
        if handle == null_handle() {
            assert(out.2[kept.slot as int] == db[kept.slot as int]);
        } else if kept.slot != handle.slot {
            assert(out.2[kept.slot as int] == db[kept.slot as int]);
        } else if under != guid {
            lemma_interface_from_unrelated(db[handle.slot as int], guid, interface, under, 0);
        } else if lookup_outcome(db, kept, under).0 == Status::Success {
            lemma_found_carries(db[handle.slot as int], guid, 0);
        }
    }
}

/// The installation of several pairs takes nothing away either, whether
/// it succeeds or stops at a failure.
pub proof fn lemma_install_all_keeps_records(
    db: Seq<Records>,
    handle: Handle,
    pairs: Records,
    kept: Handle,
    under: Guid,
)
    requires
        well_formed(db),
        is_live(db, kept),
    ensures
        ({
            let after = install_all_outcome(db, handle, pairs).2;
            &&& well_formed(after)
            &&& is_live(after, kept)
            &&& lookup_outcome(db, kept, under).0 == Status::Success ==> lookup_outcome(
                after,
                kept,
                under,
            ) == lookup_outcome(db, kept, under)
        }),
    decreases pairs.len(),
{
    if pairs.len() > 0 {
        let first = install_outcome(db, handle, pairs[0].0, pairs[0].1);
        lemma_install_keeps_well_formed(db, handle, pairs[0].0, pairs[0].1);
        lemma_install_keeps_records(db, handle, pairs[0].0, pairs[0].1, kept, under);
        if first.0 == Status::Success {
            lemma_install_all_keeps_records(first.2, first.1, pairs.skip(1), kept, under);
        }
    }
}

/// The number of pairs of `pairs` that are installed before the first one
/// that fails; the number of all of them if none fails.
pub open spec fn installed_before_failure(db: Seq<Records>, handle: Handle, pairs: Records) -> int
    decreases pairs.len(),
{
    if pairs.len() == 0 {
        0
    } else if install_outcome(db, handle, pairs[0].0, pairs[0].1).0 != Status::Success {
        0
    } else {
        1 + installed_before_failure(
            install_outcome(db, handle, pairs[0].0, pairs[0].1).2,
            install_outcome(db, handle, pairs[0].0, pairs[0].1).1,
            pairs.skip(1),
        )
    }
}

/// The installation of several pairs is not undone by a failure. It
/// succeeds exactly if no pair fails. Every pair before the first that
/// fails is installed on one handle, the one that the first installation
/// returned, and is found there afterwards, however the call ends.
pub proof fn lemma_install_all_is_not_rolled_back(db: Seq<Records>, handle: Handle, pairs: Records)
    requires
        well_formed(db),
    ensures
        ({
            let out = install_all_outcome(db, handle, pairs);
            let count = installed_before_failure(db, handle, pairs);
            let target = install_outcome(db, handle, pairs[0].0, pairs[0].1).1;
            &&& 0 <= count <= pairs.len()
            &&& (out.0 == Status::Success) == (count == pairs.len())
            &&& count > 0 ==> is_live(out.2, target)
            &&& count == pairs.len() && count > 0 ==> out.1 == target
            &&& forall|j: int|
                0 <= j < count ==> lookup_outcome(out.2, target, (#[trigger] pairs[j]).0) == (
                    Status::Success,
                    pairs[j].1,
                )
        }),
    decreases pairs.len(),
{
    if pairs.len() > 0 {
        let first = install_outcome(db, handle, pairs[0].0, pairs[0].1);
        if first.0 == Status::Success {
            let rest = pairs.skip(1);
            let out = install_all_outcome(db, handle, pairs);
            let count = installed_before_failure(db, handle, pairs);
            let target = first.1;
            lemma_install_keeps_well_formed(db, handle, pairs[0].0, pairs[0].1);
            lemma_lookup_after_install(db, handle, pairs[0].0, pairs[0].1, 0);
            lemma_install_all_is_not_rolled_back(first.2, target, rest);
            lemma_install_all_keeps_records(first.2, target, rest, target, pairs[0].0);
            assert(out == install_all_outcome(first.2, target, rest));
            if rest.len() > 0 {
                // A live handle is handed back by every installation on it.
                assert(install_outcome(first.2, target, rest[0].0, rest[0].1).0 == Status::Success
                    ==> install_outcome(first.2, target, rest[0].0, rest[0].1).1 == target);
            }
            assert forall|j: int| 0 <= j < count implies lookup_outcome(
                out.2,
                target,
                (#[trigger] pairs[j]).0,
            ) == (Status::Success, pairs[j].1) by {
                if j > 0 {
                    assert(rest[j - 1] == pairs[j]);
                }
            }
        }
    }
}

} // verus!
