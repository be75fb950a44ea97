//! The shared-state store: one lock-protected slot per piece of live state.

use std::sync::Arc;
use std::sync::Mutex;
use vstd::prelude::*;

verus! {

/// `std::sync::Mutex`, carried as an opaque value.
#[verifier::external_type_specification]
#[verifier::external_body]
#[verifier::reject_recursive_types(T)]
pub struct ExMutex<T: ?Sized>(Mutex<T>);

/// `Mutex::new`: a fresh, unlocked mutex. Nothing is claimed of it.
pub assume_specification<T>[ Mutex::<T>::new ](t: T) -> (m: Mutex<T>)
;

/// `Arc::clone`: a second pointer to the same allocation, so to the same
/// mutex.
#[verifier::external_body]
fn clone_pointer<T>(cell: &Arc<Mutex<T>>) -> (other: Arc<Mutex<T>>)
    ensures
        other == *cell,
{
    Arc::clone(cell)
}

/// `Mutex::lock`, followed by an overwrite of the protected value and the
/// release of the guard. A poisoned lock is entered all the same: the value
/// is plain data and is overwritten whole. No guard leaves this function, so
/// the calling thread never holds the lock when it enters.
#[verifier::external_body]
fn lock_and_store<T>(cell: &Mutex<T>, value: T) {
    match cell.lock() {
        Ok(mut guard) => *guard = value,
        Err(poisoned) => *poisoned.into_inner() = value,
    }
}

/// `Mutex::try_lock`, followed by a copy of the protected value. `None` when
/// the lock is held elsewhere or poisoned. Which of the two outcomes comes
/// back depends on the other threads, so nothing is claimed of the result.
#[verifier::external_body]
fn try_lock_and_copy<T: Copy>(cell: &Mutex<T>) -> (seen: Option<T>) {
    match cell.try_lock() {
        Ok(guard) => Some(*guard),
        Err(_) => None,
    }
}

/// `Mutex::try_lock`, followed by `Option::take` on the protected value
/// under the same guard: what the slot held comes back, and where that was
/// an item, `None` is left in its place. `None`, and the slot untouched,
/// when the lock is held elsewhere or poisoned. Which of the outcomes comes
/// back depends on the other threads, so nothing is claimed of the result.
#[verifier::external_body]
fn try_lock_and_take<K>(cell: &Mutex<Option<K>>) -> (taken: Option<Option<K>>) {
    match cell.try_lock() {
        Ok(mut guard) => Some(guard.take()),
        Err(_) => None,
    }
}

/// A handle on one slot of the store.
///
/// Every task holds its own handle; all handles made from one another reach
/// the same slot. A handle keeps the ghost record of what was written
/// through it, oldest first.
#[verifier::reject_recursive_types(T)]
pub struct SharedSlot<T> {
    cell: Arc<Mutex<T>>,
    written: Ghost<Seq<T>>,
}

impl<T: Copy> SharedSlot<T> {
    /// The values written through this handle, oldest first.
    pub closed spec fn writes(&self) -> Seq<T> {
        self.written@
    }

    /// The lock that this handle reaches. Two handles reach the same slot
    /// exactly when this is the same for both.
    pub closed spec fn lock(&self) -> Mutex<T> {
        *self.cell
    }

    /// A slot that holds `initial`. The handle counts `initial` as its
    /// first write.
    pub fn new(initial: T) -> (slot: Self)
        ensures
            slot.writes() == seq![initial],
    {
        let written = Ghost(Seq::empty().push(initial));
        SharedSlot { cell: Arc::new(Mutex::new(initial)), written }
    }

    /// Another handle on the same slot, for another task.
    pub fn share(&self) -> (other: Self)
        ensures
            other.lock() == self.lock(),
            other.writes() == Seq::<T>::empty(),
    {
        let written = Ghost(Seq::empty());
        SharedSlot { cell: clone_pointer(&self.cell), written }
    }

    /// Waits for the lock, overwrites the slot with `value`, releases.
    pub fn replace(&mut self, value: T)
        ensures
            final(self).lock() == old(self).lock(),
            final(self).writes() == old(self).writes().push(value),
    {
        lock_and_store(&self.cell, value);
        self.written = Ghost(self.written@.push(value));
    }

    /// One attempt at the lock: a copy of the slot, or `None` when the lock
    /// is held.
    pub fn read_snapshot(&self) -> (seen: Option<T>) {
        try_lock_and_copy(&self.cell)
    }
}

/// What a take does to the record of the handle that made it: the store of
/// the empty value is recorded exactly when the take got an item.
pub open spec fn after_take<K>(writes: Seq<Option<K>>, taken: Option<Option<K>>) -> Seq<Option<K>> {
    if taken matches Some(Some(_)) {
        writes.push(None)
    } else {
        writes
    }
}

impl<K: Copy> SharedSlot<Option<K>> {
    /// One attempt at the lock that takes what the slot holds and leaves it
    /// empty, in one critical section.
    ///
    /// `None` when the lock is held: the slot is left as it was. `Some` of
    /// what the slot held when the lock was had. Where that was an item,
    /// the slot holds `None` from then on, so that the item is handed out
    /// once; where the slot was empty, it stays empty and the handle
    /// records no write.
    pub fn take_snapshot(&mut self) -> (taken: Option<Option<K>>)
        ensures
            final(self).lock() == old(self).lock(),
            final(self).writes() == after_take(old(self).writes(), taken),
    {
        let taken = try_lock_and_take(&self.cell);
        if let Some(Some(_)) = taken {
            self.written = Ghost(self.written@.push(None));
        }
        taken
    }
}

/// One operation on a slot, for reasoning about what its readers can see.
pub enum SlotOp<T> {
    /// A `replace` with this value.
    Replace(T),
    /// A snapshot attempt. `contended` says whether it found the lock held.
    Attempt { contended: bool },
    /// An attempt to take the value and leave `empty` in its place. For
    /// what the slot holds it is all one whether a take that finds `empty`
    /// stores it again or not; here it does.
    Take { contended: bool, empty: T },
}

impl<T> SlotOp<T> {
    /// The value that the operation puts into the slot, if it puts one.
    pub open spec fn stored(self) -> Option<T> {
        match self {
            SlotOp::Replace(value) => Some(value),
            SlotOp::Attempt { contended } => None,
            SlotOp::Take { contended, empty } => if contended {
                None
            } else {
                Some(empty)
            },
        }
    }

    /// Whether the operation reads the slot, and then whether it finds the
    /// lock held.
    pub open spec fn reads(self) -> Option<bool> {
        match self {
            SlotOp::Replace(value) => None,
            SlotOp::Attempt { contended } => Some(contended),
            SlotOp::Take { contended, empty } => Some(contended),
        }
    }
}

/// The values that a slot made with `initial` has held by the end of
/// `trace`, oldest first: `initial`, then every value stored.
pub open spec fn held_values<T>(initial: T, trace: Seq<SlotOp<T>>) -> Seq<T>
    decreases trace.len(),
{
    if trace.len() == 0 {
        seq![initial]
    } else {
        match trace.last().stored() {
            Some(value) => held_values(initial, trace.drop_last()).push(value),
            None => held_values(initial, trace.drop_last()),
        }
    }
}

/// What a reader gets at the end of `trace`: nothing where it finds the lock
/// held, else the value that the slot holds, whole.
pub open spec fn snapshot_after<T>(initial: T, trace: Seq<SlotOp<T>>, contended: bool) -> Option<T> {
    if contended {
        None
    } else {
        Some(held_values(initial, trace).last())
    }
}

/// A slot always holds something: its initial value at the least.
pub proof fn slot_is_never_empty<T>(initial: T, trace: Seq<SlotOp<T>>)
    ensures
        held_values(initial, trace).len() > 0,
        held_values(initial, trace)[0] == initial,
    decreases trace.len(),
{
    if trace.len() > 0 {
        slot_is_never_empty(initial, trace.drop_last());
    }
}

/// In every interleaving of replacements, snapshot attempts and takes, a
/// reader is either turned away or gets one value that was put into the
/// slot before it, and of those the latest. It never gets a value that was
/// not put there.
pub proof fn snapshot_shows_a_replaced_value<T>(initial: T, trace: Seq<SlotOp<T>>, at: int)
    requires
        0 <= at < trace.len(),
        trace[at].reads() is Some,
    ensures
        ({
            let before = trace.take(at);
            let contended = trace[at].reads()->0;
            match snapshot_after(initial, before, contended) {
                None => contended,
                Some(value) => {
                    &&& !contended
                    &&& held_values(initial, before).contains(value)
                    &&& value == held_values(initial, before).last()
                    &&& value == initial || exists|earlier: int|
                        0 <= earlier < at && trace[earlier].stored() == Some(value)
                },
            }
        }),
{
    let before = trace.take(at);
    slot_is_never_empty(initial, before);
    let held = held_values(initial, before);
    assert(held[held.len() - 1] == held.last());
    held_values_were_stored(initial, before, held.len() - 1);
    if held.last() != initial {
        let earlier = choose|earlier: int|
            0 <= earlier < before.len() && before[earlier].stored() == Some(held.last());
        assert(trace[earlier] == before[earlier]);
    }
}

/// Every value that a slot has held is its initial value or was stored
/// into it.
pub proof fn held_values_were_stored<T>(initial: T, trace: Seq<SlotOp<T>>, position: int)
    requires
        0 <= position < held_values(initial, trace).len(),
    ensures
        held_values(initial, trace)[position] == initial || exists|earlier: int|
            0 <= earlier < trace.len() && trace[earlier].stored() == Some(
                held_values(initial, trace)[position],
            ),
    decreases trace.len(),
{
    if trace.len() > 0 {
        let shorter = trace.drop_last();
        let value = held_values(initial, trace)[position];
        if position < held_values(initial, shorter).len() {
            held_values_were_stored(initial, shorter, position);
            if value != initial {
                let earlier = choose|earlier: int|
                    0 <= earlier < shorter.len() && shorter[earlier].stored() == Some(value);
                assert(trace[earlier] == shorter[earlier]);
            }
        } else {
            assert(trace[trace.len() - 1].stored() == Some(value));
        }
    }
}

/// Take and clear: a take that had the lock gets what the slot held and
/// leaves the slot empty, so that a second reader, with nothing replaced in
/// between, finds only the empty value.
pub proof fn take_leaves_the_slot_empty<T>(initial: T, trace: Seq<SlotOp<T>>, empty: T)
    ensures
        ({
            let taken = trace.push(SlotOp::Take { contended: false, empty });
            &&& snapshot_after(initial, taken, false) == Some(empty)
            &&& snapshot_after(initial, taken.push(SlotOp::Take { contended: false, empty }), false)
                == Some(empty)
        }),
{
    let taken = trace.push(SlotOp::Take { contended: false, empty });
    assert(taken.drop_last() == trace);
    let twice = taken.push(SlotOp::Take { contended: false, empty });
    assert(twice.drop_last() == taken);
}

} // verus!
