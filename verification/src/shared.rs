//! Shared, reference-counted ownership of values, for a single thread of
//! execution.
//!
//! A [`SharedStore`] holds the shared values. Each value lives in one slot
//! together with a count of the live co-owner handles ([`SharedRef`]) that
//! refer to it. [`SharedStore::construct`] stores a value and returns the
//! first handle (count one); [`SharedStore::clone_handle`] adds a co-owner
//! without copying the value; [`SharedStore::dispose`] consumes a handle and
//! decrements the count, and when the last handle goes, it removes the value
//! from the store and returns it to the caller for release. A handle is
//! neither `Clone` nor `Copy`, so the live-handle count of a slot is exactly
//! the number of handles that `construct` and `clone_handle` returned for it
//! and that `dispose` has not yet consumed.

use vstd::prelude::*;

verus! {

/// One storage slot: the shared value, while any co-owner is live, and the
/// number of live co-owner handles.
struct Slot<T> {
    value: Option<T>,
    count: u64,
}

/// A store of shared values, each owned jointly by the holders of its
/// handles.
pub struct SharedStore<T> {
    slots: Vec<Slot<T>>,
}

/// A co-owner handle for one value in a [`SharedStore`].
pub struct SharedRef {
    slot: usize,
}

impl SharedRef {
    /// The slot this handle refers to.
    pub closed spec fn id(self) -> int {
        self.slot as int
    }
}

/// Whether a disposal releases the shared value: exactly when it consumes
/// the last live handle.
pub open spec fn dispose_releases(live: nat) -> bool {
    live == 1
}

impl<T> SharedStore<T> {
    /// How many slots the store has ever allocated.
    pub closed spec fn num_slots(self) -> int {
        self.slots@.len() as int
    }

    /// The number of live handles for slot `i`.
    pub closed spec fn count(self, i: int) -> nat {
        self.slots@[i].count as nat
    }

    /// The value stored in slot `i`, or `None` once it has been released.
    pub closed spec fn stored(self, i: int) -> Option<T> {
        self.slots@[i].value
    }

    /// The store's invariant: a slot holds a value exactly while co-owners
    /// of it remain live.
    pub open spec fn wf(self) -> bool {
        forall|i: int|
            0 <= i < self.num_slots() ==> (self.count(i) == 0 <==> self.stored(i) is None)
    }

    /// Whether `r` is a live handle of this store.
    pub open spec fn valid(self, r: SharedRef) -> bool {
        &&& 0 <= r.id() < self.num_slots()
        &&& self.count(r.id()) >= 1
    }

    /// Returns an empty store.
    pub fn new() -> (s: SharedStore<T>)
        ensures
            s.wf(),
            s.num_slots() == 0,
    {
        SharedStore { slots: Vec::new() }
    }

    /// Stores `value` in a fresh slot and returns its first co-owner handle;
    /// the slot starts with a live-handle count of one. Slots of other
    /// handles are untouched.
    pub fn construct(&mut self, value: T) -> (r: SharedRef)
        requires
            old(self).wf(),
        ensures
            final(self).wf(),
            final(self).valid(r),
            r.id() == old(self).num_slots(),
            final(self).num_slots() == old(self).num_slots() + 1,
            final(self).count(r.id()) == 1,
            final(self).stored(r.id()) == Some(value),
            forall|j: int|
                0 <= j < old(self).num_slots() ==> final(self).count(j) == old(self).count(j)
                    && final(self).stored(j) == old(self).stored(j),
    {
        let slot = self.slots.len();
        self.slots.push(Slot { value: Some(value), count: 1 });
        proof {
            assert forall|i: int|
                0 <= i < self.num_slots() implies (self.count(i) == 0 <==> self.stored(i)
                is None) by {
                if i < old(self).num_slots() {
                    assert(self.slots@[i] == old(self).slots@[i]);
                    assert(old(self).count(i) == 0 <==> old(self).stored(i) is None);
                }
            }
        }
        SharedRef { slot }
    }

    /// Registers one more co-owner of the value `r` refers to and returns the
    /// new handle. Only the live-handle count changes: the value itself is
    /// never copied, and other slots are untouched.
    pub fn clone_handle(&mut self, r: &SharedRef) -> (r2: SharedRef)
        requires
            old(self).wf(),
            old(self).valid(*r),
            old(self).count(r.id()) < u64::MAX,
        ensures
            final(self).wf(),
            final(self).valid(r2),
            final(self).valid(*r),
            r2.id() == r.id(),
            final(self).num_slots() == old(self).num_slots(),
            final(self).count(r.id()) == old(self).count(r.id()) + 1,
            final(self).stored(r.id()) == old(self).stored(r.id()),
            forall|j: int|
                0 <= j < old(self).num_slots() && j != r.id() ==> final(self).count(j) == old(
                    self,
                ).count(j) && final(self).stored(j) == old(self).stored(j),
    {
        let i = r.slot;
        let c = self.slots[i].count;
        self.slots[i].count = c + 1;
        proof {
            assert forall|j: int|
                0 <= j < self.num_slots() implies (self.count(j) == 0 <==> self.stored(j)
                is None) by {
                if j != r.id() {
                    assert(self.slots@[j] == old(self).slots@[j]);
                    assert(old(self).count(j) == 0 <==> old(self).stored(j) is None);
                }
            }
        }
        SharedRef { slot: i }
    }

    /// Borrows the value that `r` co-owns.
    pub fn access(&self, r: &SharedRef) -> (v: &T)
        requires
            self.wf(),
            self.valid(*r),
        ensures
            self.stored(r.id()) == Some(*v),
    {
        self.slots[r.slot].value.as_ref().unwrap()
    }

    /// Consumes the handle `r` and decrements its slot's live-handle count.
    /// Exactly when `r` was the last live handle, the value leaves the store
    /// and is returned for release; otherwise the value stays in place,
    /// untouched. Other slots are untouched either way, so disposals of
    /// handles of different slots commute.
    pub fn dispose(&mut self, r: SharedRef) -> (released: Option<T>)
        requires
            old(self).wf(),
            old(self).valid(r),
        ensures
            final(self).wf(),
            final(self).num_slots() == old(self).num_slots(),
            final(self).count(r.id()) == old(self).count(r.id()) - 1,
            released == (if dispose_releases(old(self).count(r.id())) {
                old(self).stored(r.id())
            } else {
                None::<T>
            }),
            final(self).stored(r.id()) == (if dispose_releases(old(self).count(r.id())) {
                None::<T>
            } else {
                old(self).stored(r.id())
            }),
            forall|j: int|
                0 <= j < old(self).num_slots() && j != r.id() ==> final(self).count(j) == old(
                    self,
                ).count(j) && final(self).stored(j) == old(self).stored(j),
    {
        let i = r.slot;
        let c = self.slots[i].count;
        let released = if c == 1 {
            self.slots[i].count = 0;
            self.slots[i].value.take()
        } else {
            self.slots[i].count = c - 1;
            None
        };
        proof {
            assert forall|j: int|
                0 <= j < self.num_slots() implies (self.count(j) == 0 <==> self.stored(j)
                is None) by {
                if j != r.id() {
                    assert(self.slots@[j] == old(self).slots@[j]);
                    assert(old(self).count(j) == 0 <==> old(self).stored(j) is None);
                }
            }
        }
        released
    }
}

/// The number of live handles of a slot after `k` disposals of its handles,
/// starting from `n` live handles.
pub open spec fn count_after_disposals(n: nat, k: nat) -> nat
    recommends
        k <= n,
    decreases k,
{
    if k == 0 {
        n
    } else {
        (count_after_disposals(n, (k - 1) as nat) - 1) as nat
    }
}

/// How many of the first `k` disposals of a slot's handles release its
/// value, starting from `n` live handles.
pub open spec fn releases_among(n: nat, k: nat) -> nat
    recommends
        k <= n,
    decreases k,
{
    if k == 0 {
        0
    } else {
        releases_among(n, (k - 1) as nat) + if dispose_releases(
            count_after_disposals(n, (k - 1) as nat),
        ) {
            1nat
        } else {
            0nat
        }
    }
}

/// Law: starting from `n` live handles of one slot, the first `k` disposals
/// of them leave `n - k` live handles and release the shared value exactly
/// once if they include the last handle (`k == n`) and not at all otherwise.
/// In particular, disposing all `n` handles releases the value exactly once,
/// on the last disposal. Handles of one slot are interchangeable and
/// disposals of different slots leave each other's slots untouched, so this
/// holds for every order of disposal.
pub proof fn lemma_release_exactly_once(n: nat, k: nat)
    requires
        1 <= n,
        k <= n,
    ensures
        count_after_disposals(n, k) == n - k,
        releases_among(n, k) == if k == n {
            1nat
        } else {
            0nat
        },
    decreases k,
{
    if k > 0 {
        lemma_release_exactly_once(n, (k - 1) as nat);
    }
}

/// Law: no prefix of the disposals releases the value more than once, and
/// once every handle is gone the value is no longer held.
pub proof fn lemma_dispose_order_independent(n: nat, k: nat)
    requires
        1 <= n,
        k <= n,
    ensures
        releases_among(n, k) <= 1,
        count_after_disposals(n, n) == 0,
{
    lemma_release_exactly_once(n, k);
    lemma_release_exactly_once(n, n);
}

} // verus!
