//! What the lock promises, proved of every table that a registry can hold.
//!
//! The statements speak of the same functions on tables as the contracts of
//! the operations do: `shared_slot` and `attached` for a new handle,
//! `can_begin` for the start of an acquisition, `moved` for its end and for
//! the release of a guard, `detached` for the release of a handle.

use crate::error::Error;
use crate::lock::settled_error;
use crate::name::{
    global_namespace, is_forbidden, is_forbidden_byte, is_valid_name,
    lemma_lock_file_name_bytes, lemma_resource_id_is_injective, lock_file_name_of,
    resource_id_of, Platform,
};
use crate::registry::{
    attached, attached_slot, can_begin, detached, distinct_ids, expired, is_in, is_live,
    is_slot_of, knows, moved, shared_slot, slot_of, LockState, Slot,
};
use crate::unix::{flock_step, Failure, Operation, Step};
use crate::windows::wait_verdict;
use vstd::prelude::*;

verus! {

/// A valid name cannot point anywhere else. The file name that it gives the
/// lock file holds no separator and no NUL, so the file lies in the
/// temporary directory itself; and it adds no `\\` to the name of the mutex
/// object, which lies in the global namespace itself.
pub proof fn valid_name_stays_in_place(name: Seq<char>)
    requires
        is_valid_name(name),
    ensures
        forall|i: int|
            0 <= i < lock_file_name_of(name).len() ==> !is_forbidden_byte(
                #[trigger] lock_file_name_of(name)[i],
            ),
        forall|i: int|
            global_namespace().len() <= i < (global_namespace() + name).len() ==> !is_forbidden(
                #[trigger] (global_namespace() + name)[i],
            ),
{
    assert forall|i: int| 0 <= i < lock_file_name_of(name).len() implies !is_forbidden_byte(
        #[trigger] lock_file_name_of(name)[i],
    ) by {
        lemma_lock_file_name_bytes(name, i);
    }
    assert forall|i: int|
        global_namespace().len() <= i < (global_namespace() + name).len() implies !is_forbidden(
        #[trigger] (global_namespace() + name)[i],
    ) by {
        assert((global_namespace() + name)[i] == name[i - global_namespace().len()]);
    }
}

/// An identifier has at most one entry, so `slot_of` names it.
pub proof fn lemma_slot_of(table: Seq<Slot>, id: Seq<u8>, slot: int)
    requires
        distinct_ids(table),
        is_slot_of(table, id, slot),
    ensures
        slot_of(table, id) == Some(slot),
{
    let found = choose|found: int| is_slot_of(table, id, found);
    if found < slot {
        assert(table[found].id != table[slot].id);
    } else if slot < found {
        assert(table[slot].id != table[found].id);
    }
}

/// No operation gives an identifier a second entry: the table stays one in
/// which every identifier has at most one primitive.
pub proof fn ids_stay_distinct(table: Seq<Slot>, id: Seq<u8>, slot: int, state: LockState)
    requires
        distinct_ids(table),
    ensures
        distinct_ids(attached(table, id)),
        distinct_ids(detached(table, slot)),
        0 <= slot < table.len() ==> distinct_ids(moved(table, slot, state)),
{
    if slot_of(table, id) is None {
        let joined = attached(table, id);
        assert forall|i: int, j: int| 0 <= i < j < joined.len() implies joined[i].id
            != joined[j].id by {
            if j == table.len() {
                assert(!is_slot_of(table, id, i));
            }
        }
    }
}

/// While a handle of an identifier is alive, its entry is live, and every
/// further handle for the identifier joins it: one process has one primitive
/// per identifier.
pub proof fn handles_share_one_primitive(table: Seq<Slot>, slot: int)
    requires
        distinct_ids(table),
        knows(table, slot),
    ensures
        is_live(table[slot]),
        shared_slot(table, table[slot].id) == Some(slot),
        attached_slot(table, table[slot].id) == slot,
        knows(attached(table, table[slot].id), slot),
{
    lemma_slot_of(table, table[slot].id, slot);
}

/// Two handles created with the same name never hold a guard at the same
/// time: they refer to the same primitive, and while it is being acquired or
/// held through one of them, no acquisition starts through the other.
pub proof fn same_name_excludes(
    table: Seq<Slot>,
    platform: Platform,
    name: Seq<char>,
    first: int,
    second: int,
)
    requires
        distinct_ids(table),
        is_valid_name(name),
        knows(table, first),
        knows(table, second),
        table[first].id == resource_id_of(platform, name),
        table[second].id == resource_id_of(platform, name),
    ensures
        first == second,
        table[first].state != LockState::Unlocked ==> !can_begin(table, second),
{
    lemma_slot_of(table, resource_id_of(platform, name), first);
    lemma_slot_of(table, resource_id_of(platform, name), second);
}

/// Locks of distinct names are independent: they have distinct primitives,
/// and whatever state the one is moved to, the other stays as it was and can
/// be acquired exactly when it could before.
pub proof fn distinct_names_are_independent(
    table: Seq<Slot>,
    platform: Platform,
    first_name: Seq<char>,
    second_name: Seq<char>,
    first: int,
    second: int,
    state: LockState,
)
    requires
        distinct_ids(table),
        is_valid_name(first_name),
        is_valid_name(second_name),
        first_name != second_name,
        is_slot_of(table, resource_id_of(platform, first_name), first),
        is_slot_of(table, resource_id_of(platform, second_name), second),
    ensures
        first != second,
        moved(table, first, state)[second] == table[second],
        can_begin(moved(table, first, state), second) == can_begin(table, second),
        detached(table, first)[second] == table[second],
        can_begin(detached(table, first), second) == can_begin(table, second),
{
    if first == second {
        lemma_resource_id_is_injective(platform, first_name, second_name);
    }
}

/// Releasing a guard frees the lock at once: an acquisition can start through
/// every handle that is alive, and through a handle that is created
/// afterwards.
pub proof fn release_makes_acquirable(table: Seq<Slot>, slot: int)
    requires
        distinct_ids(table),
        is_in(table, slot, LockState::Locked),
    ensures
        ({
            let after = moved(table, slot, LockState::Unlocked);
            let id = table[slot].id;
            &&& knows(table, slot) ==> can_begin(after, slot)
            &&& attached_slot(after, id) == slot
            &&& can_begin(attached(after, id), slot)
        }),
{
    lemma_slot_of(moved(table, slot, LockState::Unlocked), table[slot].id, slot);
}

/// Dropping a handle while its guard is alive does not release the lock: the
/// primitive stays open and held, no acquisition can start, and a handle
/// created afterwards joins the held primitive. Only the release of the guard
/// ends it.
pub proof fn guard_outlives_handle(table: Seq<Slot>, slot: int)
    requires
        distinct_ids(table),
        knows(table, slot),
        is_in(table, slot, LockState::Locked),
    ensures
        ({
            let after = detached(table, slot);
            let id = table[slot].id;
            &&& is_in(after, slot, LockState::Locked)
            &&& is_live(after[slot])
            &&& !expired(table, after, slot)
            &&& !can_begin(after, slot)
            &&& shared_slot(after, id) == Some(slot)
            &&& !can_begin(attached(after, id), slot)
            &&& after[slot].handles == 0 ==> expired(
                after,
                moved(after, slot, LockState::Unlocked),
                slot,
            )
        }),
{
    lemma_slot_of(detached(table, slot), table[slot].id, slot);
}

/// A lock has two resting states and goes round between them: an acquisition
/// that the operating system refuses leaves the table as it found it, and so
/// does an acquisition that is granted and whose guard is released.
pub proof fn acquisition_leaves_no_trace(table: Seq<Slot>, slot: int)
    requires
        can_begin(table, slot),
    ensures
        ({
            let pending = moved(table, slot, LockState::Acquiring);
            let held = moved(pending, slot, LockState::Locked);
            &&& !can_begin(pending, slot)
            &&& !can_begin(held, slot)
            &&& moved(pending, slot, LockState::Unlocked) == table
            &&& moved(held, slot, LockState::Unlocked) == table
        }),
{
}

/// A handle that is created and dropped again leaves every entry that was
/// live as it was, and closes nothing that was open before.
pub proof fn handle_leaves_no_trace(table: Seq<Slot>, slot: int)
    requires
        distinct_ids(table),
        0 <= slot < table.len(),
        is_live(table[slot]),
    ensures
        ({
            let id = table[slot].id;
            let joined = attached(table, id);
            &&& attached_slot(table, id) == slot
            &&& detached(joined, slot) == table
            &&& !expired(joined, detached(joined, slot), slot)
        }),
{
    lemma_slot_of(table, table[slot].id, slot);
}

/// A primitive is closed exactly when its last owner leaves: by the release
/// of a handle where it was the only one and nothing is being acquired or
/// held, and by the end of an acquisition or of a guard where no handle is
/// left.
pub proof fn last_owner_closes(table: Seq<Slot>, slot: int)
    requires
        0 <= slot < table.len(),
    ensures
        expired(table, detached(table, slot), slot) <==> table[slot].handles == 1
            && table[slot].state == LockState::Unlocked,
        expired(table, moved(table, slot, LockState::Unlocked), slot) <==> table[slot].handles == 0
            && table[slot].state != LockState::Unlocked,
        !expired(table, moved(table, slot, LockState::Acquiring), slot),
        !expired(table, moved(table, slot, LockState::Locked), slot),
{
}

/// Contention is reported to the one who does not wait, and to nobody else:
/// neither the primitive of either platform nor the end of an acquisition
/// that waits gives `WouldBlock`, and no release does.
pub proof fn only_try_lock_reports_contention(rc: i32, failure: Failure, code: u32, error: Error)
    ensures
        flock_step(Operation::Acquire, rc, failure) != Step::Done(Err(Error::WouldBlock)),
        flock_step(Operation::Release, rc, failure) != Step::Done(Err(Error::WouldBlock)),
        wait_verdict(true, code) != Err::<(), Error>(Error::WouldBlock),
        settled_error(true, error) != Error::WouldBlock,
        settled_error(false, error) == error,
{
}

} // verus!
