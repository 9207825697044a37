//! The system pipeline: a fixed, declared-once list of systems with
//! explicit dependency edges, run once per tick against the active scene.
//!
//! Any order consistent with the declared edges is acceptable; with the
//! two scheduled systems and the one edge between them, exactly one order
//! exists, which also gives determinism across runs.

use vstd::prelude::*;
use crate::particles::Particle;
use crate::physics::spec_physics;
use crate::scene::{Scene, SceneModel};
use crate::systems::{ParticleSystem, emits_ok};

verus! {

/// The systems the scheduler dispatches.  The interaction system is not
/// scheduled here: it always runs first, before the pipeline is consulted.
#[derive(Clone, Copy, PartialEq, Eq, Structural, Debug)]
pub enum SystemId {
    /// Integrates velocity into position and updates facing.
    Physics,
    /// Emits particle descriptors while the pointer button is held.
    Particles,
}

/// Declared dependency edges: `after` lists `before` as a prerequisite.
/// The particle emitter reads the positions the physics step wrote.
pub open spec fn depends_on(after: SystemId, before: SystemId) -> bool {
    after is Particles && before is Physics
}

/// The system `x` is somewhere in the schedule.
pub open spec fn appears(s: Seq<SystemId>, x: SystemId) -> bool {
    exists|i: int| 0 <= i < s.len() && #[trigger] s[i] == x
}

/// A schedule is valid when it holds every declared system, none twice,
/// and no system runs before one of its prerequisites.
pub open spec fn order_ok(s: Seq<SystemId>) -> bool {
    &&& appears(s, SystemId::Physics)
    &&& appears(s, SystemId::Particles)
    &&& forall|i: int, j: int| 0 <= i < j < s.len() ==> #[trigger] s[i] != #[trigger] s[j]
    &&& forall|i: int, j: int| 0 <= i < j < s.len() ==> !depends_on(#[trigger] s[i], #[trigger] s[j])
}

/// The one schedule consistent with the declared edges.
pub proof fn lemma_order_pinned(s: Seq<SystemId>)
    requires
        order_ok(s),
    ensures
        s =~= seq![SystemId::Physics, SystemId::Particles],
{
    let ip = choose|i: int| 0 <= i < s.len() && #[trigger] s[i] == SystemId::Physics;
    let iq = choose|i: int| 0 <= i < s.len() && #[trigger] s[i] == SystemId::Particles;
    assert(ip != iq);
    if s.len() >= 3 {
        assert(s[0] is Physics || s[0] is Particles);
        assert(s[1] is Physics || s[1] is Particles);
        assert(s[2] is Physics || s[2] is Particles);
        assert(false);
    }
    assert(s.len() == 2);
    if s[0] is Particles {
        assert(s[ip] is Physics);
        assert(depends_on(s[0], s[1]));
        assert(false);
    }
    assert(s[0] is Physics || s[0] is Particles);
    assert(s[iq] is Particles);
}

/// Build the declared pipeline: physics first, then the particle emitter,
/// which depends on it.
pub fn default_pipeline() -> (s: Vec<SystemId>)
    ensures
        order_ok(s@),
        s@ =~= seq![SystemId::Physics, SystemId::Particles],
{
    let mut s: Vec<SystemId> = Vec::new();
    s.push(SystemId::Physics);
    s.push(SystemId::Particles);
    proof {
        assert(s@[0] == SystemId::Physics && s@[1] == SystemId::Particles);
        assert(appears(s@, SystemId::Physics));
        assert(appears(s@, SystemId::Particles));
    }
    s
}

/// How one tick of the scheduled pipeline relates the scene before to
/// the scene after: skipped entirely when a transition is already
/// pending, otherwise physics runs first and then the particle emitter,
/// whose random draws make it a relation rather than a function.
pub open spec fn systems_rel(m: SceneModel, m2: SceneModel) -> bool {
    if m.transition is Some {
        m2 == m
    } else {
        let mi = spec_physics(m);
        if mi.input.mouse.left_down {
            exists|ps: Seq<Particle>|
                {
                    &&& #[trigger] emits_ok(mi, mi.cap(), ps)
                    &&& m2 == (SceneModel { engine: mi.engine + ps, ..mi })
                }
        } else {
            m2 == mi
        }
    }
}

/// Each scheduled system touches exactly the stores it declares: the
/// physics step writes rectangles and facings only, and the particle
/// emitter appends to the emission queue only (its contract in
/// `ParticleSystem::run` says so directly).  Sequential dispatch of
/// systems with disjoint declared write sets stands in for per-store
/// locking.
pub proof fn lemma_physics_writes_declared(m: SceneModel)
    ensures
        spec_physics(m) == (SceneModel {
            rects: spec_physics(m).rects,
            rots: spec_physics(m).rots,
            ..m
        }),
{
}

/// Dispatch the scheduled systems against the scene, in pipeline order.
/// If the scene's pending-transition slot is already occupied before
/// invocation, nothing runs at all and the scene is untouched.
#[verifier::loop_isolation(false)]
pub fn run_systems(scene: &mut Scene, emitter: &mut ParticleSystem)
    requires
        old(scene)@.wf(),
    ensures
        final (scene)@.wf(),
        systems_rel(old(scene)@, final (scene)@),
{
    if scene.transition.is_some() {
        return ;
    }
    let ghost m = old(scene)@;
    proof {
        lemma_order_pinned(m.systems);
    }
    let n = scene.systems.len();
    let mut i: usize = 0;
    while i < n
        invariant
            i <= n,
            n == 2,
            scene@.wf(),
            scene@.systems == m.systems,
            i == 0 ==> scene@ == m,
            i == 1 ==> scene@ == spec_physics(m),
            i == 2 ==> systems_rel(m, scene@),
        decreases n - i,
    {
        let sys = scene.systems[i];
        match sys {
            SystemId::Physics => {
                crate::physics::physics_run(scene);
            },
            SystemId::Particles => {
                emitter.run(scene);
                proof {
                    assert(systems_rel(m, scene@));
                }
            },
        }
        i = i + 1;
    }
}

} // verus!

