//! The table that keeps one lock primitive per identifier within a process.

use vstd::prelude::*;
use vstd::slice::slice_to_vec;

verus! {

/// Where a primitive stands between being free and being held.
#[derive(Clone, Copy, Debug, PartialEq, Eq, Structural)]
pub enum LockState {
    /// Nobody holds the primitive.
    Unlocked,
    /// One acquirer has passed the in-process check and the operating system
    /// has not answered yet.
    Acquiring,
    /// A guard holds the primitive.
    Locked,
}

/// One entry of the table, as contracts see it.
pub struct Slot {
    /// The identifier of the operating-system object.
    pub id: Seq<u8>,
    /// How many handles refer to the entry.
    pub handles: nat,
    /// Whether the primitive is being acquired or held.
    pub state: LockState,
}

/// An entry is live while a handle, a pending acquisition or a guard owns it.
/// Only a live entry has an open primitive.
pub open spec fn is_live(slot: Slot) -> bool {
    slot.handles > 0 || slot.state != LockState::Unlocked
}

/// No identifier has two entries.
pub open spec fn distinct_ids(table: Seq<Slot>) -> bool {
    forall|i: int, j: int| 0 <= i < j < table.len() ==> table[i].id != table[j].id
}

/// The entry at `slot` is the one of `id`.
pub open spec fn is_slot_of(table: Seq<Slot>, id: Seq<u8>, slot: int) -> bool {
    0 <= slot < table.len() && table[slot].id == id
}

/// The index of the entry of `id`, if the table has one.
pub open spec fn slot_of(table: Seq<Slot>, id: Seq<u8>) -> Option<int> {
    if exists|slot: int| is_slot_of(table, id, slot) {
        Some(choose|slot: int| is_slot_of(table, id, slot))
    } else {
        None
    }
}

/// The entry at `slot` has at least one handle.
pub open spec fn knows(table: Seq<Slot>, slot: int) -> bool {
    0 <= slot < table.len() && table[slot].handles > 0
}

/// The live entry of `id`, which a new handle for `id` joins; `None` where a
/// primitive has to be created first.
pub open spec fn shared_slot(table: Seq<Slot>, id: Seq<u8>) -> Option<int> {
    match slot_of(table, id) {
        Some(slot) => if is_live(table[slot]) {
            Some(slot)
        } else {
            None
        },
        None => None,
    }
}

/// One more handle can be counted for `id`.
pub open spec fn can_attach(table: Seq<Slot>, id: Seq<u8>) -> bool {
    match slot_of(table, id) {
        Some(slot) => table[slot].handles < usize::MAX,
        None => true,
    }
}

/// The slot that a new handle for `id` refers to: the entry of `id`, or a new
/// entry at the end of the table.
pub open spec fn attached_slot(table: Seq<Slot>, id: Seq<u8>) -> int {
    match slot_of(table, id) {
        Some(slot) => slot,
        None => table.len() as int,
    }
}

/// The table after a handle for `id` was added.
pub open spec fn attached(table: Seq<Slot>, id: Seq<u8>) -> Seq<Slot> {
    match slot_of(table, id) {
        Some(slot) => table.update(
            slot,
            Slot { handles: table[slot].handles + 1, ..table[slot] },
        ),
        None => table.push(Slot { id, handles: 1, state: LockState::Unlocked }),
    }
}

/// The table after a handle of `slot` was dropped.
pub open spec fn detached(table: Seq<Slot>, slot: int) -> Seq<Slot> {
    if knows(table, slot) {
        table.update(slot, Slot { handles: (table[slot].handles - 1) as nat, ..table[slot] })
    } else {
        table
    }
}

/// The table with the entry at `slot` moved to `state`.
pub open spec fn moved(table: Seq<Slot>, slot: int, state: LockState) -> Seq<Slot> {
    table.update(slot, Slot { state, ..table[slot] })
}

/// An acquisition can start through a handle of `slot`: the handle is known and
/// nobody is acquiring or holding the primitive.
pub open spec fn can_begin(table: Seq<Slot>, slot: int) -> bool {
    knows(table, slot) && table[slot].state == LockState::Unlocked
}

/// The entry at `slot` is in `state`.
pub open spec fn is_in(table: Seq<Slot>, slot: int, state: LockState) -> bool {
    0 <= slot < table.len() && table[slot].state == state
}

/// The primitive of `slot` has lost its last owner between `before` and
/// `after`, and is to be closed.
pub open spec fn expired(before: Seq<Slot>, after: Seq<Slot>, slot: int) -> bool {
    &&& 0 <= slot < before.len()
    &&& slot < after.len()
    &&& is_live(before[slot])
    &&& !is_live(after[slot])
}

#[derive(Debug)]
struct Entry {
    id: Vec<u8>,
    handles: usize,
    state: LockState,
}

impl Entry {
    spec fn model(self) -> Slot {
        Slot { id: self.id@, handles: self.handles as nat, state: self.state }
    }
}

spec fn table_of(entries: Seq<Entry>) -> Seq<Slot> {
    Seq::new(entries.len(), |i: int| entries[i].model())
}

/// The table of the primitives that a process has open, one per identifier.
///
/// An entry is made when the first handle for an identifier is counted, and
/// keeps its slot for good. Once its last owner has left it is stale: it
/// counts for nothing, and the next handle for the identifier takes it over
/// with a new primitive.
#[derive(Debug)]
pub struct Registry {
    entries: Vec<Entry>,
}

impl View for Registry {
    type V = Seq<Slot>;

    closed spec fn view(&self) -> Seq<Slot> {
        table_of(self.entries@)
    }
}

impl Default for Registry {
    /// An empty table.
    fn default() -> (registry: Registry)
        ensures
            registry@ == Seq::<Slot>::empty(),
    {
        Registry::new()
    }
}

fn same_bytes(left: &Vec<u8>, right: &[u8]) -> (same: bool)
    ensures
        same == (left@ == right@),
{
    if left.len() != right.len() {
        return false;
    }
    let mut at: usize = 0;
    while at < left.len()
        invariant
            left@.len() == right@.len(),
            at <= left@.len(),
            forall|k: int| 0 <= k < at ==> left@[k] == right@[k],
        decreases left@.len() - at,
    {
        if left[at] != right[at] {
            return false;
        }
        at = at + 1;
    }
    assert(left@ =~= right@);
    true
}

impl Registry {
    /// What holds of every registry: no identifier has two entries.
    #[verifier::type_invariant]
    pub open spec fn well_formed(self) -> bool {
        distinct_ids(self@)
    }

    /// An empty table.
    pub fn new() -> (registry: Registry)
        ensures
            registry@ == Seq::<Slot>::empty(),
    {
        Registry { entries: Vec::new() }
    }

    /// The number of entries, stale ones included.
    pub fn len(&self) -> (len: usize)
        ensures
            len == self@.len(),
    {
        self.entries.len()
    }

    /// Finds the entry of `id`.
    pub fn position(&self, id: &[u8]) -> (found: Option<usize>)
        ensures
            match found {
                Some(slot) => slot_of(self@, id@) == Some(slot as int),
                None => slot_of(self@, id@).is_none(),
            },
    {
        proof {
            use_type_invariant(self);
        }
        let mut at: usize = 0;
        while at < self.entries.len()
            invariant
                at <= self.entries@.len(),
                distinct_ids(self@),
                forall|k: int| 0 <= k < at ==> !is_slot_of(self@, id@, k),
            decreases self.entries@.len() - at,
        {
            if same_bytes(&self.entries[at].id, id) {
                assert(is_slot_of(self@, id@, at as int));
                return Some(at);
            }
            at = at + 1;
        }
        None
    }

    /// Moves the entries out, to be changed and put back.
    fn take_entries(&mut self) -> (entries: Vec<Entry>)
        ensures
            entries == old(self).entries,
            final(self).entries@.len() == 0,
    {
        let mut entries: Vec<Entry> = Vec::new();
        std::mem::swap(&mut self.entries, &mut entries);
        entries
    }

    /// Whether one more handle can be counted for `id`. The count of an entry
    /// is a machine word, and the functions that add a handle ask for this.
    pub fn has_room(&self, id: &[u8]) -> (room: bool)
        ensures
            room == can_attach(self@, id@),
    {
        match self.position(id) {
            Some(slot) => self.entries[slot].handles < usize::MAX,
            None => true,
        }
    }

    /// The state of the primitive at `slot`, if the table has such a slot.
    pub fn state(&self, slot: usize) -> (state: Option<LockState>)
        ensures
            state == if slot < self@.len() {
                Some(self@[slot as int].state)
            } else {
                None
            },
    {
        if slot < self.entries.len() {
            Some(self.entries[slot].state)
        } else {
            None
        }
    }

    /// The number of handles of the primitive at `slot`; none where the table
    /// has no such slot.
    pub fn handles(&self, slot: usize) -> (handles: usize)
        ensures
            handles == if slot < self@.len() {
                self@[slot as int].handles
            } else {
                0
            },
    {
        if slot < self.entries.len() {
            self.entries[slot].handles
        } else {
            0
        }
    }

    /// Whether the primitive at `slot` is open: a handle, a pending
    /// acquisition or a guard owns it.
    pub fn is_open(&self, slot: usize) -> (live: bool)
        ensures
            live == (slot < self@.len() && is_live(self@[slot as int])),
    {
        slot < self.entries.len() && (self.entries[slot].handles > 0 || self.entries[slot].state
            != LockState::Unlocked)
    }

    /// The handle count and the state of the entry at `slot`.
    pub(crate) fn entry(&self, slot: usize) -> (entry: (usize, LockState))
        requires
            slot < self@.len(),
        ensures
            entry.0 == self@[slot as int].handles,
            entry.1 == self@[slot as int].state,
    {
        (self.entries[slot].handles, self.entries[slot].state)
    }

    /// Rewrites the handle count and the state of the entry at `slot`.
    pub(crate) fn rewrite(&mut self, slot: usize, handles: usize, state: LockState)
        requires
            slot < old(self)@.len(),
        ensures
            final(self)@ == old(self)@.update(
                slot as int,
                Slot { handles: handles as nat, state, ..old(self)@[slot as int] },
            ),
    {
        proof {
            use_type_invariant(&*self);
        }
        let mut entries = self.take_entries();
        entries[slot].handles = handles;
        entries[slot].state = state;
        assert(table_of(entries@) =~= old(self)@.update(
            slot as int,
            Slot { handles: handles as nat, state, ..old(self)@[slot as int] },
        ));
        self.entries = entries;
    }

    /// Counts one more handle for `id`, in its entry or in a new one.
    pub(crate) fn attach(&mut self, id: &[u8]) -> (slot: usize)
        requires
            can_attach(old(self)@, id@),
        ensures
            slot == attached_slot(old(self)@, id@),
            final(self)@ == attached(old(self)@, id@),
    {
        proof {
            use_type_invariant(&*self);
        }
        match self.position(id) {
            Some(slot) => {
                let mut entries = self.take_entries();
                entries[slot].handles = entries[slot].handles + 1;
                assert(table_of(entries@) =~= attached(old(self)@, id@));
                self.entries = entries;
                slot
            },
            None => {
                let mut entries = self.take_entries();
                let slot = entries.len();
                entries.push(Entry { id: slice_to_vec(id), handles: 1, state: LockState::Unlocked });
                assert(table_of(entries@) =~= attached(old(self)@, id@));
                assert forall|k: int| 0 <= k < old(self)@.len() implies old(self)@[k].id != id@ by {
                    assert(!is_slot_of(old(self)@, id@, k));
                }
                self.entries = entries;
                slot
            },
        }
    }
}

} // verus!
