//! Entity registry and sparse per-type component storage.
//!
//! Entity ids are generation-tagged: an id names a slot index plus the
//! generation the slot had when the entity was created.  Destroying an
//! entity bumps the slot's generation, so a held id of a destroyed entity
//! is detected as stale instead of silently reading a reused slot.
//!
//! Each store also carries a deferred-insert queue: systems that discover
//! entities while other storage is being iterated queue `(id, value)`
//! pairs, and the scene drains them at an explicit maintain point, never
//! during iteration.

use vstd::math::max;
use vstd::prelude::*;

verus! {

/// Generation-tagged entity identifier.
#[derive(Clone, Copy, PartialEq, Eq, Structural, Debug)]
pub struct EntityId {
    pub idx: usize,
    pub gen: u64,
}

/// Component access on an id whose entity was destroyed.
#[derive(Clone, Copy, PartialEq, Eq, Structural, Debug)]
pub enum StoreError {
    StaleEntity,
}

/// Mathematical model of a registry: one generation counter and one
/// liveness flag per slot, plus the indices free for reuse.
#[verifier::ext_equal]
pub ghost struct RegModel {
    pub gens: Seq<u64>,
    pub alive: Seq<bool>,
    pub free: Seq<usize>,
}

impl RegModel {
    /// Number of slots ever allocated.
    pub open spec fn cap(self) -> int {
        self.gens.len() as int
    }

    /// Slot `j` currently holds a live entity.
    pub open spec fn live_idx(self, j: int) -> bool {
        0 <= j < self.cap() && self.alive[j]
    }

    /// Id `id` names a live entity of the current generation.
    pub open spec fn live(self, id: EntityId) -> bool {
        self.live_idx(id.idx as int) && self.gens[id.idx as int] == id.gen
    }

    pub open spec fn wf(self) -> bool {
        &&& self.alive.len() == self.gens.len()
        &&& forall|k: int|
            0 <= k < self.free.len() ==> (#[trigger] self.free[k]) < self.gens.len()
                && !self.alive[self.free[k] as int]
        &&& forall|k1: int, k2: int|
            0 <= k1 < k2 < self.free.len() ==> self.free[k1] != self.free[k2]
    }
}

/// Entity id allocator: slot generations, liveness flags, and a free list
/// of destroyed slots available for reuse.
pub struct Registry {
    pub gens: Vec<u64>,
    pub alive: Vec<bool>,
    pub free: Vec<usize>,
}

impl View for Registry {
    type V = RegModel;

    open spec fn view(&self) -> RegModel {
        RegModel { gens: self.gens@, alive: self.alive@, free: self.free@ }
    }
}

impl Registry {
    pub fn new() -> (r: Self)
        ensures
            r@.wf(),
            r@.cap() == 0,
            r@.free.len() == 0,
    {
        Registry { gens: Vec::new(), alive: Vec::new(), free: Vec::new() }
    }

    /// Number of slots ever allocated.
    pub fn capacity(&self) -> (n: usize)
        ensures
            n as int == self@.cap(),
    {
        self.gens.len()
    }

    /// Whether `id` names a live entity of the current generation.
    pub fn is_live(&self, id: EntityId) -> (b: bool)
        requires
            self@.wf(),
        ensures
            b == self@.live(id),
    {
        id.idx < self.gens.len() && self.alive[id.idx] && self.gens[id.idx] == id.gen
    }

    /// Allocate a fresh entity: a destroyed slot is reused under its bumped
    /// generation, or a new slot is appended.  The returned id was not live
    /// before the call and is live after it; no other slot changes.
    pub fn create(&mut self) -> (id: EntityId)
        requires
            old(self)@.wf(),
        ensures
            final (self)@.wf(),
            final (self)@.live(id),
            !old(self)@.live(id),
            id.idx < final (self)@.cap(),
            old(self)@.cap() <= final (self)@.cap() <= old(self)@.cap() + 1,
            final (self)@.gens.len() == final (self)@.alive.len(),
            forall|j: int|
                0 <= j < old(self)@.cap() && j != id.idx ==> final (self)@.gens[j] == old(self)@.gens[j] && final (self)@.alive[j] == old(self)@.alive[j],
            !old(self)@.live_idx(id.idx as int),
            final (self)@.gens[id.idx as int] == id.gen,
            id.idx < old(self)@.cap() ==> final (self)@.cap() == old(self)@.cap() && old(self)@.gens[id.idx as int] == id.gen,
            final (self)@.free == (if id.idx < old(self)@.cap() {
                old(self)@.free.drop_last()
            } else {
                old(self)@.free
            }),
    {
        match self.free.pop() {
            Some(f) => {
                proof {
                    assert(old(self)@.free[old(self)@.free.len() - 1] == f);
                    assert(f < old(self)@.gens.len() && !old(self)@.alive[f as int]);
                }
                self.alive.set(f, true);
                EntityId { idx: f, gen: self.gens[f] }
            },
            None => {
                self.gens.push(0);
                self.alive.push(true);
                EntityId { idx: self.gens.len() - 1, gen: 0 }
            },
        }
    }

    /// Mark the entity dead and bump its slot's generation, so that the id
    /// is detected as stale from now on.  Fails on an id that is already
    /// stale.
    pub fn destroy(&mut self, id: EntityId) -> (r: Result<(), StoreError>)
        requires
            old(self)@.wf(),
        ensures
            final (self)@.wf(),
            r is Ok <==> old(self)@.live(id),
            r is Err ==> final (self)@ == old(self)@,
            r is Ok ==> {
                &&& final (self)@.cap() == old(self)@.cap()
                &&& !final (self)@.live_idx(id.idx as int)
                &&& final (self)@.gens[id.idx as int] == id.gen.wrapping_add(1)
                &&& forall|j: int|
                    0 <= j < old(self)@.cap() && j != id.idx ==> final (self)@.gens[j] == old(self)@.gens[j] && final (self)@.alive[j] == old(self)@.alive[j]
                &&& final (self)@.free == old(self)@.free.push(id.idx)
            },
    {
        if !self.is_live(id) {
            return Err(StoreError::StaleEntity);
        }
        proof {
            // A live index cannot be on the free list, whose entries are dead.
            assert forall|k: int| 0 <= k < self@.free.len() implies (#[trigger] self@.free[k])
                != id.idx by {
                assert(!self@.alive[self@.free[k] as int]);
            }
        }
        self.alive.set(id.idx, false);
        let g = self.gens[id.idx];
        self.gens.set(id.idx, g.wrapping_add(1));
        self.free.push(id.idx);
        Ok(())
    }
}

/// Mathematical model of a store: the dense slot array and the deferred
/// insert queue, in queue order.
#[verifier::ext_equal]
pub ghost struct StoreModel<T> {
    pub slots: Seq<Option<T>>,
    pub pending: Seq<(EntityId, T)>,
}

/// Sparse storage of one component type: at most one value per entity,
/// indexed by the entity's slot, plus this type's deferred-insert queue.
pub struct Store<T> {
    pub slots: Vec<Option<T>>,
    pub pending: Vec<(EntityId, T)>,
}

impl<T> View for Store<T> {
    type V = StoreModel<T>;

    open spec fn view(&self) -> StoreModel<T> {
        StoreModel { slots: self.slots@, pending: self.pending@ }
    }
}

impl<T> Store<T> {
    pub fn new() -> (s: Self)
        ensures
            s@.slots.len() == 0,
            s@.pending.len() == 0,
    {
        Store { slots: Vec::new(), pending: Vec::new() }
    }

    /// Grow the slot array with empty slots until it covers `cap` slots.
    pub fn grow_to(&mut self, cap: usize)
        ensures
            final (self)@.slots.len() == max(old(self)@.slots.len() as int, cap as int),
            forall|j: int|
                0 <= j < old(self)@.slots.len() ==> final (self)@.slots[j] == old(self)@.slots[j],
            forall|j: int|
                old(self)@.slots.len() <= j < final (self)@.slots.len() ==> final (self)@.slots[j] is None,
            final (self)@.pending == old(self)@.pending,
    {
        while self.slots.len() < cap
            invariant
                self@.slots.len() <= max(old(self)@.slots.len() as int, cap as int),
                forall|j: int|
                    0 <= j < old(self)@.slots.len() ==> self@.slots[j] == old(self)@.slots[j],
                forall|j: int|
                    old(self)@.slots.len() <= j < self@.slots.len() ==> self@.slots[j] is None,
                self@.pending == old(self)@.pending,
                old(self)@.slots.len() <= self@.slots.len(),
            decreases cap - self.slots.len(),
        {
            self.slots.push(None);
        }
    }

    /// The stored value for slot `j`, if any.
    pub fn get_at(&self, j: usize) -> (r: Option<&T>)
        requires
            j < self@.slots.len(),
        ensures
            match r {
                Some(v) => self@.slots[j as int] == Some(*v),
                None => self@.slots[j as int] is None,
            },
    {
        match &self.slots[j] {
            Some(v) => Some(v),
            None => None,
        }
    }

    /// Overwrite slot `j`.
    pub fn set_at(&mut self, j: usize, v: Option<T>)
        requires
            j < old(self)@.slots.len(),
        ensures
            final (self)@.slots == old(self)@.slots.update(j as int, v),
            final (self)@.pending == old(self)@.pending,
    {
        self.slots.set(j, v);
    }

    /// Queue a deferred insert; it is applied at the next maintain point.
    pub fn defer_insert(&mut self, id: EntityId, v: T)
        ensures
            final (self)@.slots == old(self)@.slots,
            final (self)@.pending == old(self)@.pending.push((id, v)),
    {
        self.pending.push((id, v));
    }

    /// Drain the deferred-insert queue into the slots, in queue order.
    /// Entries whose entity died since they were queued are dropped.
    pub fn maintain(&mut self, reg: &Registry)
        requires
            reg@.wf(),
            old(self)@.slots.len() == reg@.cap(),
        ensures
            final (self)@.slots == apply_pending(reg@, old(self)@.slots, old(self)@.pending),
            final (self)@.pending.len() == 0,
    {
        let ghost all = self.pending@;
        let mut rev: Vec<(EntityId, T)> = Vec::new();
        while self.pending.len() > 0
            invariant
                rev@.len() + self@.pending.len() == all.len(),
                self@.pending == all.take(self@.pending.len() as int),
                forall|k: int|
                    0 <= k < rev@.len() ==> rev@[k] == all[all.len() - 1 - k],
                self@.slots == old(self)@.slots,
            decreases self.pending.len(),
        {
            proof {
                assert(all.take(self@.pending.len() as int).last() == all[self@.pending.len()
                    - 1]);
                assert(all.take(self@.pending.len() as int).drop_last() =~= all.take(
                    self@.pending.len() - 1,
                ));
            }
            let p = self.pending.pop().unwrap();
            rev.push(p);
        }
        while rev.len() > 0
            invariant
                reg@.wf(),
                rev@.len() <= all.len(),
                forall|k: int|
                    0 <= k < rev@.len() ==> rev@[k] == all[all.len() - 1 - k],
                self@.slots == apply_pending(
                    reg@,
                    old(self)@.slots,
                    all.take(all.len() - rev@.len()),
                ),
                self@.slots.len() == reg@.cap(),
                self@.pending.len() == 0,
            decreases rev.len(),
        {
            let ghost done = all.len() - rev@.len();
            proof {
                assert(rev@.last() == all[done]);
                assert(all.take(done + 1).last() == all[done]);
                assert(all.take(done + 1).drop_last() =~= all.take(done));
            }
            let p = rev.pop().unwrap();
            if reg.is_live(p.0) {
                self.slots.set(p.0.idx, Some(p.1));
            }
        }
        proof {
            assert(all.take(all.len() as int) =~= all);
        }
    }
}

/// The slots after draining a deferred-insert queue in order: each entry
/// whose entity is still live overwrites its slot, the rest are dropped.
pub open spec fn apply_pending<T>(
    reg: RegModel,
    slots: Seq<Option<T>>,
    pending: Seq<(EntityId, T)>,
) -> Seq<Option<T>>
    decreases pending.len(),
{
    if pending.len() == 0 {
        slots
    } else {
        let rest = apply_pending(reg, slots, pending.drop_last());
        let id = pending.last().0;
        if reg.live(id) {
            rest.update(id.idx as int, Some(pending.last().1))
        } else {
            rest
        }
    }
}

/// Draining preserves the number of slots.
pub proof fn lemma_apply_pending_len<T>(
    reg: RegModel,
    slots: Seq<Option<T>>,
    pending: Seq<(EntityId, T)>,
)
    requires
        slots.len() == reg.cap(),
    ensures
        apply_pending(reg, slots, pending).len() == slots.len(),
    decreases pending.len(),
{
    if pending.len() > 0 {
        lemma_apply_pending_len(reg, slots, pending.drop_last());
    }
}

} // verus!
