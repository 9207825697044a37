//! A scene: one isolated entity-component world with its own input state,
//! pending-transition slot, particle emission queue and system pipeline.
//!
//! Scenes are the unit of push/pop on the scene stack.  Each scene
//! exclusively owns its registry and stores; no cross-scene sharing.

use vstd::prelude::*;
use crate::components::{Cursor, Effect, FPS, Hover, OnClick, Player, Rect, RectColor, Rotation,
    SceneKind, StateTransition, Text, Vel};
use crate::input::Input;
use crate::particles::{Particle, ParticleEngine};
use crate::pipeline::{SystemId, order_ok};
use crate::store::{EntityId, RegModel, Registry, Store, StoreError, StoreModel};

verus! {

/// Mathematical model of a whole scene.
#[verifier::ext_equal]
pub ghost struct SceneModel {
    pub reg: RegModel,
    pub rects: StoreModel<Rect>,
    pub colors: StoreModel<RectColor>,
    pub vels: StoreModel<Vel>,
    pub rots: StoreModel<Rotation>,
    pub texts: StoreModel<Text>,
    pub hovers: StoreModel<Hover>,
    pub clicks: StoreModel<OnClick>,
    pub players: StoreModel<Player>,
    pub cursors: StoreModel<Cursor>,
    pub fps_tags: StoreModel<FPS>,
    pub input: Input,
    pub transition: Option<StateTransition>,
    pub engine: Seq<Particle>,
    pub systems: Seq<SystemId>,
}

impl SceneModel {
    /// Number of entity slots ever allocated.
    pub open spec fn cap(self) -> int {
        self.reg.cap()
    }

    /// Slot `j` holds a live entity.
    pub open spec fn live(self, j: int) -> bool {
        self.reg.live_idx(j)
    }

    /// Every store covers every slot, the registry is well formed, and the
    /// pipeline is a valid schedule.
    pub open spec fn wf(self) -> bool {
        &&& self.reg.wf()
        &&& self.rects.slots.len() == self.cap()
        &&& self.colors.slots.len() == self.cap()
        &&& self.vels.slots.len() == self.cap()
        &&& self.rots.slots.len() == self.cap()
        &&& self.texts.slots.len() == self.cap()
        &&& self.hovers.slots.len() == self.cap()
        &&& self.clicks.slots.len() == self.cap()
        &&& self.players.slots.len() == self.cap()
        &&& self.cursors.slots.len() == self.cap()
        &&& self.fps_tags.slots.len() == self.cap()
        &&& order_ok(self.systems)
    }

    /// All component slots of both scenes agree except possibly at `j`;
    /// deferred queues agree.
    pub open spec fn stores_eq_except(self, other: SceneModel, j: int) -> bool {
        &&& forall|k: int|
            0 <= k < self.rects.slots.len() && k != j ==> {
                &&& #[trigger] self.rects.slots[k] == other.rects.slots[k]
                &&& self.colors.slots[k] == other.colors.slots[k]
                &&& self.vels.slots[k] == other.vels.slots[k]
                &&& self.rots.slots[k] == other.rots.slots[k]
                &&& self.texts.slots[k] == other.texts.slots[k]
                &&& self.hovers.slots[k] == other.hovers.slots[k]
                &&& self.clicks.slots[k] == other.clicks.slots[k]
                &&& self.players.slots[k] == other.players.slots[k]
                &&& self.cursors.slots[k] == other.cursors.slots[k]
                &&& self.fps_tags.slots[k] == other.fps_tags.slots[k]
            }
        &&& self.rects.pending == other.rects.pending
        &&& self.colors.pending == other.colors.pending
        &&& self.vels.pending == other.vels.pending
        &&& self.rots.pending == other.rots.pending
        &&& self.texts.pending == other.texts.pending
        &&& self.hovers.pending == other.hovers.pending
        &&& self.clicks.pending == other.clicks.pending
        &&& self.players.pending == other.players.pending
        &&& self.cursors.pending == other.cursors.pending
        &&& self.fps_tags.pending == other.fps_tags.pending
    }

    /// Input, transition slot, emission queue and pipeline agree.
    pub open spec fn misc_eq(self, other: SceneModel) -> bool {
        &&& self.input == other.input
        &&& self.transition == other.transition
        &&& self.engine == other.engine
        &&& self.systems == other.systems
    }

    /// No component value is stored at slot `j`.
    pub open spec fn empty_at(self, j: int) -> bool {
        &&& self.rects.slots[j] is None
        &&& self.colors.slots[j] is None
        &&& self.vels.slots[j] is None
        &&& self.rots.slots[j] is None
        &&& self.texts.slots[j] is None
        &&& self.hovers.slots[j] is None
        &&& self.clicks.slots[j] is None
        &&& self.players.slots[j] is None
        &&& self.cursors.slots[j] is None
        &&& self.fps_tags.slots[j] is None
    }

    /// No deferred insert is queued on any store.
    pub open spec fn no_pending(self) -> bool {
        &&& self.rects.pending.len() == 0
        &&& self.colors.pending.len() == 0
        &&& self.vels.pending.len() == 0
        &&& self.rots.pending.len() == 0
        &&& self.texts.pending.len() == 0
        &&& self.hovers.pending.len() == 0
        &&& self.clicks.pending.len() == 0
        &&& self.players.pending.len() == 0
        &&& self.cursors.pending.len() == 0
        &&& self.fps_tags.pending.len() == 0
    }
}

/// One entity-component world, plus the per-scene resources the systems
/// read and write: input state, the pending-transition slot, the particle
/// emission queue and the system pipeline.
pub struct Scene {
    pub reg: Registry,
    pub rects: Store<Rect>,
    pub colors: Store<RectColor>,
    pub vels: Store<Vel>,
    pub rots: Store<Rotation>,
    pub texts: Store<Text>,
    pub hovers: Store<Hover>,
    pub clicks: Store<OnClick>,
    pub players: Store<Player>,
    pub cursors: Store<Cursor>,
    pub fps_tags: Store<FPS>,
    pub input: Input,
    pub transition: Option<StateTransition>,
    pub engine: ParticleEngine,
    pub systems: Vec<SystemId>,
}

impl View for Scene {
    type V = SceneModel;

    open spec fn view(&self) -> SceneModel {
        SceneModel {
            reg: self.reg@,
            rects: self.rects@,
            colors: self.colors@,
            vels: self.vels@,
            rots: self.rots@,
            texts: self.texts@,
            hovers: self.hovers@,
            clicks: self.clicks@,
            players: self.players@,
            cursors: self.cursors@,
            fps_tags: self.fps_tags@,
            input: self.input,
            transition: self.transition,
            engine: self.engine@,
            systems: self.systems@,
        }
    }
}

impl Scene {
    /// A world with no entities, fresh input, no pending transition, an
    /// empty emission queue and the declared pipeline.
    pub fn empty() -> (s: Scene)
        ensures
            s@.wf(),
            s@.cap() == 0,
            s@.reg.free.len() == 0,
            s@.no_pending(),
            s@.input == Input::new_spec(),
            s@.transition is None,
            s@.engine.len() == 0,
    {
        Scene {
            reg: Registry::new(),
            rects: Store::new(),
            colors: Store::new(),
            vels: Store::new(),
            rots: Store::new(),
            texts: Store::new(),
            hovers: Store::new(),
            clicks: Store::new(),
            players: Store::new(),
            cursors: Store::new(),
            fps_tags: Store::new(),
            input: Input::new(),
            transition: None,
            engine: ParticleEngine::new(),
            systems: crate::pipeline::default_pipeline(),
        }
    }

    pub fn capacity(&self) -> (n: usize)
        ensures
            n as int == self@.cap(),
    {
        self.reg.capacity()
    }

    /// Whether `id` names a live entity of the current generation.
    pub fn is_live(&self, id: EntityId) -> (b: bool)
        requires
            self@.wf(),
        ensures
            b == self@.reg.live(id),
    {
        self.reg.is_live(id)
    }

    /// Create an entity with no components.  The new id was not live
    /// before the call; every other entity and all its components are
    /// untouched.
    pub fn spawn(&mut self) -> (id: EntityId)
        requires
            old(self)@.wf(),
        ensures
            final (self)@.wf(),
            final (self)@.reg.live(id),
            !old(self)@.reg.live(id),
            id.idx < final (self)@.cap(),
            old(self)@.cap() <= final (self)@.cap() <= old(self)@.cap() + 1,
            forall|j: int|
                0 <= j < old(self)@.cap() && j != id.idx ==> final (self)@.reg.gens[j] == old(
                    self,
                )@.reg.gens[j] && final (self)@.reg.alive[j] == old(self)@.reg.alive[j],
            old(self)@.stores_eq_except(final (self)@, id.idx as int),
            final (self)@.empty_at(id.idx as int),
            final (self)@.misc_eq(old(self)@),
            !old(self)@.reg.live_idx(id.idx as int),
            final (self)@.reg.free == (if id.idx < old(self)@.cap() {
                old(self)@.reg.free.drop_last()
            } else {
                old(self)@.reg.free
            }),
    {
        let id = self.reg.create();
        let cap = self.reg.capacity();
        self.rects.grow_to(cap);
        self.rects.set_at(id.idx, None);
        self.colors.grow_to(cap);
        self.colors.set_at(id.idx, None);
        self.vels.grow_to(cap);
        self.vels.set_at(id.idx, None);
        self.rots.grow_to(cap);
        self.rots.set_at(id.idx, None);
        self.texts.grow_to(cap);
        self.texts.set_at(id.idx, None);
        self.hovers.grow_to(cap);
        self.hovers.set_at(id.idx, None);
        self.clicks.grow_to(cap);
        self.clicks.set_at(id.idx, None);
        self.players.grow_to(cap);
        self.players.set_at(id.idx, None);
        self.cursors.grow_to(cap);
        self.cursors.set_at(id.idx, None);
        self.fps_tags.grow_to(cap);
        self.fps_tags.set_at(id.idx, None);
        id
    }

    /// Destroy the entity: its id becomes stale and every component it
    /// held is removed.  Fails on an id that is already stale.
    pub fn destroy(&mut self, id: EntityId) -> (r: Result<(), StoreError>)
        requires
            old(self)@.wf(),
        ensures
            final (self)@.wf(),
            r is Ok <==> old(self)@.reg.live(id),
            r is Err ==> final (self)@ == old(self)@,
            r is Ok ==> {
                &&& final (self)@.cap() == old(self)@.cap()
                &&& !final (self)@.reg.live_idx(id.idx as int)
                &&& forall|j: int|
                    0 <= j < old(self)@.cap() && j != id.idx ==> final (self)@.reg.gens[j] == old(
                        self,
                    )@.reg.gens[j] && final (self)@.reg.alive[j] == old(self)@.reg.alive[j]
                &&& old(self)@.stores_eq_except(final (self)@, id.idx as int)
                &&& final (self)@.empty_at(id.idx as int)
                &&& final (self)@.misc_eq(old(self)@)
            },
    {
        match self.reg.destroy(id) {
            Ok(()) => {
                self.rects.set_at(id.idx, None);
                self.colors.set_at(id.idx, None);
                self.vels.set_at(id.idx, None);
                self.rots.set_at(id.idx, None);
                self.texts.set_at(id.idx, None);
                self.hovers.set_at(id.idx, None);
                self.clicks.set_at(id.idx, None);
                self.players.set_at(id.idx, None);
                self.cursors.set_at(id.idx, None);
                self.fps_tags.set_at(id.idx, None);
                Ok(())
            },
            Err(e) => Err(e),
        }
    }

    /// Drain every store's deferred-insert queue into the live slots, in
    /// queue order.  This is the only point where deferred inserts become
    /// visible; entries for entities that died meanwhile are dropped.
    pub fn maintain(&mut self)
        requires
            old(self)@.wf(),
        ensures
            final (self)@.wf(),
            final (self)@.reg == old(self)@.reg,
            final (self)@.rects.slots == crate::store::apply_pending(
                old(self)@.reg,
                old(self)@.rects.slots,
                old(self)@.rects.pending,
            ),
            final (self)@.colors.slots == crate::store::apply_pending(
                old(self)@.reg,
                old(self)@.colors.slots,
                old(self)@.colors.pending,
            ),
            final (self)@.vels.slots == crate::store::apply_pending(
                old(self)@.reg,
                old(self)@.vels.slots,
                old(self)@.vels.pending,
            ),
            final (self)@.rots.slots == crate::store::apply_pending(
                old(self)@.reg,
                old(self)@.rots.slots,
                old(self)@.rots.pending,
            ),
            final (self)@.texts.slots == crate::store::apply_pending(
                old(self)@.reg,
                old(self)@.texts.slots,
                old(self)@.texts.pending,
            ),
            final (self)@.hovers.slots == crate::store::apply_pending(
                old(self)@.reg,
                old(self)@.hovers.slots,
                old(self)@.hovers.pending,
            ),
            final (self)@.clicks.slots == crate::store::apply_pending(
                old(self)@.reg,
                old(self)@.clicks.slots,
                old(self)@.clicks.pending,
            ),
            final (self)@.players.slots == crate::store::apply_pending(
                old(self)@.reg,
                old(self)@.players.slots,
                old(self)@.players.pending,
            ),
            final (self)@.cursors.slots == crate::store::apply_pending(
                old(self)@.reg,
                old(self)@.cursors.slots,
                old(self)@.cursors.pending,
            ),
            final (self)@.fps_tags.slots == crate::store::apply_pending(
                old(self)@.reg,
                old(self)@.fps_tags.slots,
                old(self)@.fps_tags.pending,
            ),
            final (self)@.no_pending(),
            final (self)@.input == old(self)@.input,
            final (self)@.transition == old(self)@.transition,
            final (self)@.engine == old(self)@.engine,
            final (self)@.systems == old(self)@.systems,
            final (self)@ == spec_maintain(old(self)@),
    {
        proof {
            crate::store::lemma_apply_pending_len(
                old(self)@.reg,
                old(self)@.rects.slots,
                old(self)@.rects.pending,
            );
            crate::store::lemma_apply_pending_len(
                old(self)@.reg,
                old(self)@.colors.slots,
                old(self)@.colors.pending,
            );
            crate::store::lemma_apply_pending_len(
                old(self)@.reg,
                old(self)@.vels.slots,
                old(self)@.vels.pending,
            );
            crate::store::lemma_apply_pending_len(
                old(self)@.reg,
                old(self)@.rots.slots,
                old(self)@.rots.pending,
            );
            crate::store::lemma_apply_pending_len(
                old(self)@.reg,
                old(self)@.texts.slots,
                old(self)@.texts.pending,
            );
            crate::store::lemma_apply_pending_len(
                old(self)@.reg,
                old(self)@.hovers.slots,
                old(self)@.hovers.pending,
            );
            crate::store::lemma_apply_pending_len(
                old(self)@.reg,
                old(self)@.clicks.slots,
                old(self)@.clicks.pending,
            );
            crate::store::lemma_apply_pending_len(
                old(self)@.reg,
                old(self)@.players.slots,
                old(self)@.players.pending,
            );
            crate::store::lemma_apply_pending_len(
                old(self)@.reg,
                old(self)@.cursors.slots,
                old(self)@.cursors.pending,
            );
            crate::store::lemma_apply_pending_len(
                old(self)@.reg,
                old(self)@.fps_tags.slots,
                old(self)@.fps_tags.pending,
            );
        }
        self.rects.maintain(&self.reg);
        self.colors.maintain(&self.reg);
        self.vels.maintain(&self.reg);
        self.rots.maintain(&self.reg);
        self.texts.maintain(&self.reg);
        self.hovers.maintain(&self.reg);
        self.clicks.maintain(&self.reg);
        self.players.maintain(&self.reg);
        self.cursors.maintain(&self.reg);
        self.fps_tags.maintain(&self.reg);
        proof {
            assert(self@ =~= spec_maintain(old(self)@));
        }
    }

    /// Give the entity this component value, replacing any previous one:
    /// at most one value per entity and component type.
    pub fn insert_rect(&mut self, id: EntityId, v: Rect) -> (r: Result<(), StoreError>)
        requires
            old(self)@.wf(),
        ensures
            final (self)@.wf(),
            r is Ok <==> old(self)@.reg.live(id),
            r is Err ==> final (self)@ == old(self)@,
            r is Ok ==> final (self)@ == (SceneModel {
                rects: StoreModel {
                    slots: old(self)@.rects.slots.update(id.idx as int, Some(v)),
                    pending: old(self)@.rects.pending,
                },
                ..old(self)@
            }),
    {
        if !self.reg.is_live(id) {
            return Err(StoreError::StaleEntity);
        }
        self.rects.set_at(id.idx, Some(v));
        Ok(())
    }

    /// The entity's component value, if it holds one; stale ids fail.
    pub fn get_rect(&self, id: EntityId) -> (r: Result<Option<Rect>, StoreError>)
        requires
            self@.wf(),
        ensures
            r is Ok <==> self@.reg.live(id),
            match r { Ok(o) => o == self@.rects.slots[id.idx as int], Err(e) => e == StoreError::StaleEntity },
    {
        if !self.reg.is_live(id) {
            return Err(StoreError::StaleEntity);
        }
        match self.rects.get_at(id.idx) {
            Some(v) => Ok(Some(*v)),
            None => Ok(None),
        }
    }

    /// Take the component away from the entity; stale ids fail.
    pub fn remove_rect(&mut self, id: EntityId) -> (r: Result<(), StoreError>)
        requires
            old(self)@.wf(),
        ensures
            final (self)@.wf(),
            r is Ok <==> old(self)@.reg.live(id),
            r is Err ==> final (self)@ == old(self)@,
            r is Ok ==> final (self)@ == (SceneModel {
                rects: StoreModel {
                    slots: old(self)@.rects.slots.update(id.idx as int, None),
                    pending: old(self)@.rects.pending,
                },
                ..old(self)@
            }),
    {
        if !self.reg.is_live(id) {
            return Err(StoreError::StaleEntity);
        }
        self.rects.set_at(id.idx, None);
        Ok(())
    }

    /// Give the entity this component value, replacing any previous one:
    /// at most one value per entity and component type.
    pub fn insert_color(&mut self, id: EntityId, v: RectColor) -> (r: Result<(), StoreError>)
        requires
            old(self)@.wf(),
        ensures
            final (self)@.wf(),
            r is Ok <==> old(self)@.reg.live(id),
            r is Err ==> final (self)@ == old(self)@,
            r is Ok ==> final (self)@ == (SceneModel {
                colors: StoreModel {
                    slots: old(self)@.colors.slots.update(id.idx as int, Some(v)),
                    pending: old(self)@.colors.pending,
                },
                ..old(self)@
            }),
    {
        if !self.reg.is_live(id) {
            return Err(StoreError::StaleEntity);
        }
        self.colors.set_at(id.idx, Some(v));
        Ok(())
    }

    /// The entity's component value, if it holds one; stale ids fail.
    pub fn get_color(&self, id: EntityId) -> (r: Result<Option<RectColor>, StoreError>)
        requires
            self@.wf(),
        ensures
            r is Ok <==> self@.reg.live(id),
            match r { Ok(o) => o == self@.colors.slots[id.idx as int], Err(e) => e == StoreError::StaleEntity },
    {
        if !self.reg.is_live(id) {
            return Err(StoreError::StaleEntity);
        }
        match self.colors.get_at(id.idx) {
            Some(v) => Ok(Some(*v)),
            None => Ok(None),
        }
    }

    /// Take the component away from the entity; stale ids fail.
    pub fn remove_color(&mut self, id: EntityId) -> (r: Result<(), StoreError>)
        requires
            old(self)@.wf(),
        ensures
            final (self)@.wf(),
            r is Ok <==> old(self)@.reg.live(id),
            r is Err ==> final (self)@ == old(self)@,
            r is Ok ==> final (self)@ == (SceneModel {
                colors: StoreModel {
                    slots: old(self)@.colors.slots.update(id.idx as int, None),
                    pending: old(self)@.colors.pending,
                },
                ..old(self)@
            }),
    {
        if !self.reg.is_live(id) {
            return Err(StoreError::StaleEntity);
        }
        self.colors.set_at(id.idx, None);
        Ok(())
    }

    /// Give the entity this component value, replacing any previous one:
    /// at most one value per entity and component type.
    pub fn insert_vel(&mut self, id: EntityId, v: Vel) -> (r: Result<(), StoreError>)
        requires
            old(self)@.wf(),
        ensures
            final (self)@.wf(),
            r is Ok <==> old(self)@.reg.live(id),
            r is Err ==> final (self)@ == old(self)@,
            r is Ok ==> final (self)@ == (SceneModel {
                vels: StoreModel {
                    slots: old(self)@.vels.slots.update(id.idx as int, Some(v)),
                    pending: old(self)@.vels.pending,
                },
                ..old(self)@
            }),
    {
        if !self.reg.is_live(id) {
            return Err(StoreError::StaleEntity);
        }
        self.vels.set_at(id.idx, Some(v));
        Ok(())
    }

    /// The entity's component value, if it holds one; stale ids fail.
    pub fn get_vel(&self, id: EntityId) -> (r: Result<Option<Vel>, StoreError>)
        requires
            self@.wf(),
        ensures
            r is Ok <==> self@.reg.live(id),
            match r { Ok(o) => o == self@.vels.slots[id.idx as int], Err(e) => e == StoreError::StaleEntity },
    {
        if !self.reg.is_live(id) {
            return Err(StoreError::StaleEntity);
        }
        match self.vels.get_at(id.idx) {
            Some(v) => Ok(Some(*v)),
            None => Ok(None),
        }
    }

    /// Take the component away from the entity; stale ids fail.
    pub fn remove_vel(&mut self, id: EntityId) -> (r: Result<(), StoreError>)
        requires
            old(self)@.wf(),
        ensures
            final (self)@.wf(),
            r is Ok <==> old(self)@.reg.live(id),
            r is Err ==> final (self)@ == old(self)@,
            r is Ok ==> final (self)@ == (SceneModel {
                vels: StoreModel {
                    slots: old(self)@.vels.slots.update(id.idx as int, None),
                    pending: old(self)@.vels.pending,
                },
                ..old(self)@
            }),
    {
        if !self.reg.is_live(id) {
            return Err(StoreError::StaleEntity);
        }
        self.vels.set_at(id.idx, None);
        Ok(())
    }

    /// Give the entity this component value, replacing any previous one:
    /// at most one value per entity and component type.
    pub fn insert_rot(&mut self, id: EntityId, v: Rotation) -> (r: Result<(), StoreError>)
        requires
            old(self)@.wf(),
        ensures
            final (self)@.wf(),
            r is Ok <==> old(self)@.reg.live(id),
            r is Err ==> final (self)@ == old(self)@,
            r is Ok ==> final (self)@ == (SceneModel {
                rots: StoreModel {
                    slots: old(self)@.rots.slots.update(id.idx as int, Some(v)),
                    pending: old(self)@.rots.pending,
                },
                ..old(self)@
            }),
    {
        if !self.reg.is_live(id) {
            return Err(StoreError::StaleEntity);
        }
        self.rots.set_at(id.idx, Some(v));
        Ok(())
    }

    /// The entity's component value, if it holds one; stale ids fail.
    pub fn get_rot(&self, id: EntityId) -> (r: Result<Option<Rotation>, StoreError>)
        requires
            self@.wf(),
        ensures
            r is Ok <==> self@.reg.live(id),
            match r { Ok(o) => o == self@.rots.slots[id.idx as int], Err(e) => e == StoreError::StaleEntity },
    {
        if !self.reg.is_live(id) {
            return Err(StoreError::StaleEntity);
        }
        match self.rots.get_at(id.idx) {
            Some(v) => Ok(Some(*v)),
            None => Ok(None),
        }
    }

    /// Take the component away from the entity; stale ids fail.
    pub fn remove_rot(&mut self, id: EntityId) -> (r: Result<(), StoreError>)
        requires
            old(self)@.wf(),
        ensures
            final (self)@.wf(),
            r is Ok <==> old(self)@.reg.live(id),
            r is Err ==> final (self)@ == old(self)@,
            r is Ok ==> final (self)@ == (SceneModel {
                rots: StoreModel {
                    slots: old(self)@.rots.slots.update(id.idx as int, None),
                    pending: old(self)@.rots.pending,
                },
                ..old(self)@
            }),
    {
        if !self.reg.is_live(id) {
            return Err(StoreError::StaleEntity);
        }
        self.rots.set_at(id.idx, None);
        Ok(())
    }

    /// Give the entity this component value, replacing any previous one:
    /// at most one value per entity and component type.
    pub fn insert_text(&mut self, id: EntityId, v: Text) -> (r: Result<(), StoreError>)
        requires
            old(self)@.wf(),
        ensures
            final (self)@.wf(),
            r is Ok <==> old(self)@.reg.live(id),
            r is Err ==> final (self)@ == old(self)@,
            r is Ok ==> final (self)@ == (SceneModel {
                texts: StoreModel {
                    slots: old(self)@.texts.slots.update(id.idx as int, Some(v)),
                    pending: old(self)@.texts.pending,
                },
                ..old(self)@
            }),
    {
        if !self.reg.is_live(id) {
            return Err(StoreError::StaleEntity);
        }
        self.texts.set_at(id.idx, Some(v));
        Ok(())
    }

    /// The entity's component value, if it holds one; stale ids fail.
    pub fn get_text(&self, id: EntityId) -> (r: Result<Option<&Text>, StoreError>)
        requires
            self@.wf(),
        ensures
            r is Ok <==> self@.reg.live(id),
            match r {
                Ok(o) => match o {
                    Some(v) => self@.texts.slots[id.idx as int] == Some(*v),
                    None => self@.texts.slots[id.idx as int] is None,
                },
                Err(e) => e == StoreError::StaleEntity,
            },
    {
        if !self.reg.is_live(id) {
            return Err(StoreError::StaleEntity);
        }
        match self.texts.get_at(id.idx) {
            Some(v) => Ok(Some(v)),
            None => Ok(None),
        }
    }

    /// Take the component away from the entity; stale ids fail.
    pub fn remove_text(&mut self, id: EntityId) -> (r: Result<(), StoreError>)
        requires
            old(self)@.wf(),
        ensures
            final (self)@.wf(),
            r is Ok <==> old(self)@.reg.live(id),
            r is Err ==> final (self)@ == old(self)@,
            r is Ok ==> final (self)@ == (SceneModel {
                texts: StoreModel {
                    slots: old(self)@.texts.slots.update(id.idx as int, None),
                    pending: old(self)@.texts.pending,
                },
                ..old(self)@
            }),
    {
        if !self.reg.is_live(id) {
            return Err(StoreError::StaleEntity);
        }
        self.texts.set_at(id.idx, None);
        Ok(())
    }

    /// Give the entity this component value, replacing any previous one:
    /// at most one value per entity and component type.
    pub fn insert_hover(&mut self, id: EntityId, v: Hover) -> (r: Result<(), StoreError>)
        requires
            old(self)@.wf(),
        ensures
            final (self)@.wf(),
            r is Ok <==> old(self)@.reg.live(id),
            r is Err ==> final (self)@ == old(self)@,
            r is Ok ==> final (self)@ == (SceneModel {
                hovers: StoreModel {
                    slots: old(self)@.hovers.slots.update(id.idx as int, Some(v)),
                    pending: old(self)@.hovers.pending,
                },
                ..old(self)@
            }),
    {
        if !self.reg.is_live(id) {
            return Err(StoreError::StaleEntity);
        }
        self.hovers.set_at(id.idx, Some(v));
        Ok(())
    }

    /// The entity's component value, if it holds one; stale ids fail.
    pub fn get_hover(&self, id: EntityId) -> (r: Result<Option<Hover>, StoreError>)
        requires
            self@.wf(),
        ensures
            r is Ok <==> self@.reg.live(id),
            match r { Ok(o) => o == self@.hovers.slots[id.idx as int], Err(e) => e == StoreError::StaleEntity },
    {
        if !self.reg.is_live(id) {
            return Err(StoreError::StaleEntity);
        }
        match self.hovers.get_at(id.idx) {
            Some(v) => Ok(Some(*v)),
            None => Ok(None),
        }
    }

    /// Take the component away from the entity; stale ids fail.
    pub fn remove_hover(&mut self, id: EntityId) -> (r: Result<(), StoreError>)
        requires
            old(self)@.wf(),
        ensures
            final (self)@.wf(),
            r is Ok <==> old(self)@.reg.live(id),
            r is Err ==> final (self)@ == old(self)@,
            r is Ok ==> final (self)@ == (SceneModel {
                hovers: StoreModel {
                    slots: old(self)@.hovers.slots.update(id.idx as int, None),
                    pending: old(self)@.hovers.pending,
                },
                ..old(self)@
            }),
    {
        if !self.reg.is_live(id) {
            return Err(StoreError::StaleEntity);
        }
        self.hovers.set_at(id.idx, None);
        Ok(())
    }

    /// Give the entity this component value, replacing any previous one:
    /// at most one value per entity and component type.
    pub fn insert_click(&mut self, id: EntityId, v: OnClick) -> (r: Result<(), StoreError>)
        requires
            old(self)@.wf(),
        ensures
            final (self)@.wf(),
            r is Ok <==> old(self)@.reg.live(id),
            r is Err ==> final (self)@ == old(self)@,
            r is Ok ==> final (self)@ == (SceneModel {
                clicks: StoreModel {
                    slots: old(self)@.clicks.slots.update(id.idx as int, Some(v)),
                    pending: old(self)@.clicks.pending,
                },
                ..old(self)@
            }),
    {
        if !self.reg.is_live(id) {
            return Err(StoreError::StaleEntity);
        }
        self.clicks.set_at(id.idx, Some(v));
        Ok(())
    }

    /// The entity's component value, if it holds one; stale ids fail.
    pub fn get_click(&self, id: EntityId) -> (r: Result<Option<OnClick>, StoreError>)
        requires
            self@.wf(),
        ensures
            r is Ok <==> self@.reg.live(id),
            match r { Ok(o) => o == self@.clicks.slots[id.idx as int], Err(e) => e == StoreError::StaleEntity },
    {
        if !self.reg.is_live(id) {
            return Err(StoreError::StaleEntity);
        }
        match self.clicks.get_at(id.idx) {
            Some(v) => Ok(Some(*v)),
            None => Ok(None),
        }
    }

    /// Take the component away from the entity; stale ids fail.
    pub fn remove_click(&mut self, id: EntityId) -> (r: Result<(), StoreError>)
        requires
            old(self)@.wf(),
        ensures
            final (self)@.wf(),
            r is Ok <==> old(self)@.reg.live(id),
            r is Err ==> final (self)@ == old(self)@,
            r is Ok ==> final (self)@ == (SceneModel {
                clicks: StoreModel {
                    slots: old(self)@.clicks.slots.update(id.idx as int, None),
                    pending: old(self)@.clicks.pending,
                },
                ..old(self)@
            }),
    {
        if !self.reg.is_live(id) {
            return Err(StoreError::StaleEntity);
        }
        self.clicks.set_at(id.idx, None);
        Ok(())
    }

    /// Give the entity this component value, replacing any previous one:
    /// at most one value per entity and component type.
    pub fn insert_player(&mut self, id: EntityId, v: Player) -> (r: Result<(), StoreError>)
        requires
            old(self)@.wf(),
        ensures
            final (self)@.wf(),
            r is Ok <==> old(self)@.reg.live(id),
            r is Err ==> final (self)@ == old(self)@,
            r is Ok ==> final (self)@ == (SceneModel {
                players: StoreModel {
                    slots: old(self)@.players.slots.update(id.idx as int, Some(v)),
                    pending: old(self)@.players.pending,
                },
                ..old(self)@
            }),
    {
        if !self.reg.is_live(id) {
            return Err(StoreError::StaleEntity);
        }
        self.players.set_at(id.idx, Some(v));
        Ok(())
    }

    /// The entity's component value, if it holds one; stale ids fail.
    pub fn get_player(&self, id: EntityId) -> (r: Result<Option<Player>, StoreError>)
        requires
            self@.wf(),
        ensures
            r is Ok <==> self@.reg.live(id),
            match r { Ok(o) => o == self@.players.slots[id.idx as int], Err(e) => e == StoreError::StaleEntity },
    {
        if !self.reg.is_live(id) {
            return Err(StoreError::StaleEntity);
        }
        match self.players.get_at(id.idx) {
            Some(v) => Ok(Some(*v)),
            None => Ok(None),
        }
    }

    /// Take the component away from the entity; stale ids fail.
    pub fn remove_player(&mut self, id: EntityId) -> (r: Result<(), StoreError>)
        requires
            old(self)@.wf(),
        ensures
            final (self)@.wf(),
            r is Ok <==> old(self)@.reg.live(id),
            r is Err ==> final (self)@ == old(self)@,
            r is Ok ==> final (self)@ == (SceneModel {
                players: StoreModel {
                    slots: old(self)@.players.slots.update(id.idx as int, None),
                    pending: old(self)@.players.pending,
                },
                ..old(self)@
            }),
    {
        if !self.reg.is_live(id) {
            return Err(StoreError::StaleEntity);
        }
        self.players.set_at(id.idx, None);
        Ok(())
    }

    /// Give the entity this component value, replacing any previous one:
    /// at most one value per entity and component type.
    pub fn insert_cursor(&mut self, id: EntityId, v: Cursor) -> (r: Result<(), StoreError>)
        requires
            old(self)@.wf(),
        ensures
            final (self)@.wf(),
            r is Ok <==> old(self)@.reg.live(id),
            r is Err ==> final (self)@ == old(self)@,
            r is Ok ==> final (self)@ == (SceneModel {
                cursors: StoreModel {
                    slots: old(self)@.cursors.slots.update(id.idx as int, Some(v)),
                    pending: old(self)@.cursors.pending,
                },
                ..old(self)@
            }),
    {
        if !self.reg.is_live(id) {
            return Err(StoreError::StaleEntity);
        }
        self.cursors.set_at(id.idx, Some(v));
        Ok(())
    }

    /// The entity's component value, if it holds one; stale ids fail.
    pub fn get_cursor(&self, id: EntityId) -> (r: Result<Option<Cursor>, StoreError>)
        requires
            self@.wf(),
        ensures
            r is Ok <==> self@.reg.live(id),
            match r { Ok(o) => o == self@.cursors.slots[id.idx as int], Err(e) => e == StoreError::StaleEntity },
    {
        if !self.reg.is_live(id) {
            return Err(StoreError::StaleEntity);
        }
        match self.cursors.get_at(id.idx) {
            Some(v) => Ok(Some(*v)),
            None => Ok(None),
        }
    }

    /// Take the component away from the entity; stale ids fail.
    pub fn remove_cursor(&mut self, id: EntityId) -> (r: Result<(), StoreError>)
        requires
            old(self)@.wf(),
        ensures
            final (self)@.wf(),
            r is Ok <==> old(self)@.reg.live(id),
            r is Err ==> final (self)@ == old(self)@,
            r is Ok ==> final (self)@ == (SceneModel {
                cursors: StoreModel {
                    slots: old(self)@.cursors.slots.update(id.idx as int, None),
                    pending: old(self)@.cursors.pending,
                },
                ..old(self)@
            }),
    {
        if !self.reg.is_live(id) {
            return Err(StoreError::StaleEntity);
        }
        self.cursors.set_at(id.idx, None);
        Ok(())
    }

    /// Give the entity this component value, replacing any previous one:
    /// at most one value per entity and component type.
    pub fn insert_fps(&mut self, id: EntityId, v: FPS) -> (r: Result<(), StoreError>)
        requires
            old(self)@.wf(),
        ensures
            final (self)@.wf(),
            r is Ok <==> old(self)@.reg.live(id),
            r is Err ==> final (self)@ == old(self)@,
            r is Ok ==> final (self)@ == (SceneModel {
                fps_tags: StoreModel {
                    slots: old(self)@.fps_tags.slots.update(id.idx as int, Some(v)),
                    pending: old(self)@.fps_tags.pending,
                },
                ..old(self)@
            }),
    {
        if !self.reg.is_live(id) {
            return Err(StoreError::StaleEntity);
        }
        self.fps_tags.set_at(id.idx, Some(v));
        Ok(())
    }

    /// The entity's component value, if it holds one; stale ids fail.
    pub fn get_fps(&self, id: EntityId) -> (r: Result<Option<FPS>, StoreError>)
        requires
            self@.wf(),
        ensures
            r is Ok <==> self@.reg.live(id),
            match r { Ok(o) => o == self@.fps_tags.slots[id.idx as int], Err(e) => e == StoreError::StaleEntity },
    {
        if !self.reg.is_live(id) {
            return Err(StoreError::StaleEntity);
        }
        match self.fps_tags.get_at(id.idx) {
            Some(v) => Ok(Some(*v)),
            None => Ok(None),
        }
    }

    /// Take the component away from the entity; stale ids fail.
    pub fn remove_fps(&mut self, id: EntityId) -> (r: Result<(), StoreError>)
        requires
            old(self)@.wf(),
        ensures
            final (self)@.wf(),
            r is Ok <==> old(self)@.reg.live(id),
            r is Err ==> final (self)@ == old(self)@,
            r is Ok ==> final (self)@ == (SceneModel {
                fps_tags: StoreModel {
                    slots: old(self)@.fps_tags.slots.update(id.idx as int, None),
                    pending: old(self)@.fps_tags.pending,
                },
                ..old(self)@
            }),
    {
        if !self.reg.is_live(id) {
            return Err(StoreError::StaleEntity);
        }
        self.fps_tags.set_at(id.idx, None);
        Ok(())
    }

    /// Queue a deferred insert of this component; it becomes visible only
    /// at the next maintain point, never during iteration.
    pub fn defer_rect(&mut self, id: EntityId, v: Rect)
        ensures
            final (self)@ == (SceneModel {
                rects: StoreModel {
                    slots: old(self)@.rects.slots,
                    pending: old(self)@.rects.pending.push((id, v)),
                },
                ..old(self)@
            }),
    {
        self.rects.defer_insert(id, v);
    }

    /// Queue a deferred insert of this component; it becomes visible only
    /// at the next maintain point, never during iteration.
    pub fn defer_color(&mut self, id: EntityId, v: RectColor)
        ensures
            final (self)@ == (SceneModel {
                colors: StoreModel {
                    slots: old(self)@.colors.slots,
                    pending: old(self)@.colors.pending.push((id, v)),
                },
                ..old(self)@
            }),
    {
        self.colors.defer_insert(id, v);
    }

    /// Queue a deferred insert of this component; it becomes visible only
    /// at the next maintain point, never during iteration.
    pub fn defer_vel(&mut self, id: EntityId, v: Vel)
        ensures
            final (self)@ == (SceneModel {
                vels: StoreModel {
                    slots: old(self)@.vels.slots,
                    pending: old(self)@.vels.pending.push((id, v)),
                },
                ..old(self)@
            }),
    {
        self.vels.defer_insert(id, v);
    }
}


/// The ASCII bytes of the menu button's label.
pub open spec fn levelp_label() -> Seq<u8> {
    seq![76u8, 101u8, 118u8, 101u8, 108u8, 112u8]
}

/// What `Scene::menu` builds: a pointer-tracking cursor and one button
/// that recolors on hover and pushes the level scene on click.
pub open spec fn menu_post(s: SceneModel) -> bool {
    &&& s.wf()
    &&& s.cap() == 2
    &&& s.live(0) && s.live(1)
    &&& s.reg.free.len() == 0
    &&& s.no_pending()
    &&& s.input == Input::new_spec()
    &&& s.transition is None
    &&& s.engine.len() == 0
    &&& s.cursors.slots[0] is Some
    &&& s.rects.slots[0] == Some(Rect { x: 0, y: 0, w: 5, h: 5 })
    &&& s.colors.slots[0] == Some(RectColor { r: 255, g: 255, b: 255, a: 255 })
    &&& s.players.slots[0] is None
    &&& s.hovers.slots[0] is None
    &&& s.clicks.slots[0] is None
    &&& s.vels.slots[0] is None
    &&& s.rots.slots[0] is None
    &&& s.texts.slots[0] is None
    &&& s.fps_tags.slots[0] is None
    &&& s.rects.slots[1] == Some(Rect { x: 860, y: 200, w: 100, h: 50 })
    &&& s.colors.slots[1] == Some(RectColor { r: 255, g: 0, b: 0, a: 255 })
    &&& s.clicks.slots[1] == Some(OnClick { effect: Effect::Push(SceneKind::Level) })
    &&& s.hovers.slots[1] == Some(
        Hover {
            on_enter: Effect::SetColorRgb(255, 255, 255),
            on_leave: Effect::SetColorRgb(255, 0, 0),
            hovering: false,
        },
    )
    &&& (s.texts.slots[1] matches Some(t) && t.text@ == levelp_label() && t.scale == 1 && t.loc_x
        == 865 && t.loc_y == 235)
    &&& s.cursors.slots[1] is None
    &&& s.players.slots[1] is None
    &&& s.vels.slots[1] is None
    &&& s.rots.slots[1] is None
    &&& s.fps_tags.slots[1] is None
}

/// What `Scene::level` builds: a player facing along the positive x-axis,
/// a cursor, and two drifting rectangles.
pub open spec fn level_post(s: SceneModel) -> bool {
    &&& s.wf()
    &&& s.cap() == 4
    &&& s.live(0) && s.live(1) && s.live(2) && s.live(3)
    &&& s.reg.free.len() == 0
    &&& s.no_pending()
    &&& s.input == Input::new_spec()
    &&& s.transition is None
    &&& s.engine.len() == 0
    &&& s.players.slots[0] is Some
    &&& s.rots.slots[0] == Some(Rotation { dx: 1, dy: 0 })
    &&& s.vels.slots[0] == Some(Vel { x: 0, y: 0 })
    &&& s.rects.slots[0] == Some(Rect { x: 0, y: 0, w: 25, h: 25 })
    &&& s.colors.slots[0] == Some(RectColor { r: 255, g: 0, b: 0, a: 255 })
    &&& s.cursors.slots[0] is None
    &&& s.cursors.slots[1] is Some
    &&& s.vels.slots[1] == Some(Vel { x: 0, y: 0 })
    &&& s.rects.slots[1] == Some(Rect { x: 0, y: 1, w: 5, h: 5 })
    &&& s.colors.slots[1] == Some(RectColor { r: 255, g: 255, b: 255, a: 255 })
    &&& s.players.slots[1] is None
    &&& s.rots.slots[1] is None
    &&& s.vels.slots[2] == Some(Vel { x: 1, y: 0 })
    &&& s.rects.slots[2] == Some(Rect { x: 0, y: 1, w: 5, h: 5 })
    &&& s.colors.slots[2] == Some(RectColor { r: 255, g: 0, b: 0, a: 255 })
    &&& s.players.slots[2] is None
    &&& s.cursors.slots[2] is None
    &&& s.rots.slots[2] is None
    &&& s.vels.slots[3] == Some(Vel { x: 0, y: 2 })
    &&& s.rects.slots[3] == Some(Rect { x: 0, y: 1, w: 5, h: 5 })
    &&& s.colors.slots[3] == Some(RectColor { r: 255, g: 0, b: 0, a: 255 })
    &&& s.players.slots[3] is None
    &&& s.cursors.slots[3] is None
    &&& s.rots.slots[3] is None
    &&& forall|j: int|
        0 <= j < 4 ==> #[trigger] s.hovers.slots[j] is None && s.clicks.slots[j] is None
            && s.texts.slots[j] is None && s.fps_tags.slots[j] is None
}

/// What a push transition of each kind builds.
pub open spec fn kind_post(kind: SceneKind, s: SceneModel) -> bool {
    match kind {
        SceneKind::Menu => menu_post(s),
        SceneKind::Level => level_post(s),
    }
}

impl Scene {
    /// The menu scene: a cursor entity and a button that recolors on
    /// hover and pushes the level scene on click.
    #[verifier::rlimit(100)]
    pub fn menu() -> (s: Scene)
        ensures
            menu_post(s@),
    {
        let mut s = Scene::empty();
        let cursor = s.spawn();
        match s.insert_cursor(cursor, Cursor) {
            _ => {},
        }
        match s.insert_rect(cursor, Rect { x: 0, y: 0, w: 5, h: 5 }) {
            _ => {},
        }
        match s.insert_color(cursor, RectColor { r: 255, g: 255, b: 255, a: 255 }) {
            _ => {},
        }
        let ghost snap_a = s@;
        let button = s.spawn();
        proof {
            assert(s@.rects.slots[0] == snap_a.rects.slots[0]);
        }
        match s.insert_rect(button, Rect { x: 860, y: 200, w: 100, h: 50 }) {
            _ => {},
        }
        match s.insert_color(button, RectColor { r: 255, g: 0, b: 0, a: 255 }) {
            _ => {},
        }
        let mut label: Vec<u8> = Vec::new();
        label.push(76);
        label.push(101);
        label.push(118);
        label.push(101);
        label.push(108);
        label.push(112);
        proof {
            assert(label@ =~= levelp_label());
        }
        match s.insert_text(button, Text { text: label, scale: 1, loc_x: 865, loc_y: 235 }) {
            _ => {},
        }
        match s.insert_click(button, OnClick { effect: Effect::Push(SceneKind::Level) }) {
            _ => {},
        }
        match s.insert_hover(
            button,
            Hover::new(Effect::SetColorRgb(255, 255, 255), Effect::SetColorRgb(255, 0, 0)),
        ) {
            _ => {},
        }
        s
    }

    /// The level scene: a player, a cursor and two drifting rectangles.
    #[verifier::rlimit(100)]
    pub fn level() -> (s: Scene)
        ensures
            level_post(s@),
    {
        let mut s = Scene::empty();
        let player = s.spawn();
        match s.insert_player(player, Player) {
            _ => {},
        }
        match s.insert_rot(player, Rotation { dx: 1, dy: 0 }) {
            _ => {},
        }
        match s.insert_vel(player, Vel { x: 0, y: 0 }) {
            _ => {},
        }
        match s.insert_rect(player, Rect { x: 0, y: 0, w: 25, h: 25 }) {
            _ => {},
        }
        match s.insert_color(player, RectColor { r: 255, g: 0, b: 0, a: 255 }) {
            _ => {},
        }
        let ghost snap_a = s@;
        let cursor = s.spawn();
        proof {
            assert(s@.rects.slots[0] == snap_a.rects.slots[0]);
        }
        match s.insert_cursor(cursor, Cursor) {
            _ => {},
        }
        match s.insert_vel(cursor, Vel { x: 0, y: 0 }) {
            _ => {},
        }
        match s.insert_rect(cursor, Rect { x: 0, y: 1, w: 5, h: 5 }) {
            _ => {},
        }
        match s.insert_color(cursor, RectColor { r: 255, g: 255, b: 255, a: 255 }) {
            _ => {},
        }
        let ghost snap_b = s@;
        let drift_a = s.spawn();
        proof {
            assert(s@.rects.slots[0] == snap_b.rects.slots[0]);
            assert(s@.rects.slots[1] == snap_b.rects.slots[1]);
        }
        match s.insert_vel(drift_a, Vel { x: 1, y: 0 }) {
            _ => {},
        }
        match s.insert_rect(drift_a, Rect { x: 0, y: 1, w: 5, h: 5 }) {
            _ => {},
        }
        match s.insert_color(drift_a, RectColor { r: 255, g: 0, b: 0, a: 255 }) {
            _ => {},
        }
        let ghost snap_c = s@;
        let drift_b = s.spawn();
        proof {
            assert(s@.rects.slots[0] == snap_c.rects.slots[0]);
            assert(s@.rects.slots[1] == snap_c.rects.slots[1]);
            assert(s@.rects.slots[2] == snap_c.rects.slots[2]);
        }
        match s.insert_vel(drift_b, Vel { x: 0, y: 2 }) {
            _ => {},
        }
        match s.insert_rect(drift_b, Rect { x: 0, y: 1, w: 5, h: 5 }) {
            _ => {},
        }
        match s.insert_color(drift_b, RectColor { r: 255, g: 0, b: 0, a: 255 }) {
            _ => {},
        }
        s
    }

    /// Build the scene a push transition of this kind asks for.
    pub fn from_kind(kind: SceneKind) -> (s: Scene)
        ensures
            kind_post(kind, s@),
    {
        match kind {
            SceneKind::Menu => Scene::menu(),
            SceneKind::Level => Scene::level(),
        }
    }
}

/// The scene after its maintain point: every deferred-insert queue
/// drained into the live slots, in queue order.
pub open spec fn spec_maintain(m: SceneModel) -> SceneModel {
    SceneModel {
        rects: StoreModel {
            slots: crate::store::apply_pending(m.reg, m.rects.slots, m.rects.pending),
            pending: Seq::empty(),
        },
        colors: StoreModel {
            slots: crate::store::apply_pending(m.reg, m.colors.slots, m.colors.pending),
            pending: Seq::empty(),
        },
        vels: StoreModel {
            slots: crate::store::apply_pending(m.reg, m.vels.slots, m.vels.pending),
            pending: Seq::empty(),
        },
        rots: StoreModel {
            slots: crate::store::apply_pending(m.reg, m.rots.slots, m.rots.pending),
            pending: Seq::empty(),
        },
        texts: StoreModel {
            slots: crate::store::apply_pending(m.reg, m.texts.slots, m.texts.pending),
            pending: Seq::empty(),
        },
        hovers: StoreModel {
            slots: crate::store::apply_pending(m.reg, m.hovers.slots, m.hovers.pending),
            pending: Seq::empty(),
        },
        clicks: StoreModel {
            slots: crate::store::apply_pending(m.reg, m.clicks.slots, m.clicks.pending),
            pending: Seq::empty(),
        },
        players: StoreModel {
            slots: crate::store::apply_pending(m.reg, m.players.slots, m.players.pending),
            pending: Seq::empty(),
        },
        cursors: StoreModel {
            slots: crate::store::apply_pending(m.reg, m.cursors.slots, m.cursors.pending),
            pending: Seq::empty(),
        },
        fps_tags: StoreModel {
            slots: crate::store::apply_pending(m.reg, m.fps_tags.slots, m.fps_tags.pending),
            pending: Seq::empty(),
        },
        ..m
    }
}

} // verus!
