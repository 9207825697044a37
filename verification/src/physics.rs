//! The physics system: per-tick velocity integration and facing update.
//!
//! Integration adds the velocity once per tick, not scaled by elapsed
//! wall-clock time: ticks are assumed uniform.  Positions saturate at the
//! coordinate range instead of wrapping.  After integration, each
//! player-tagged entity's facing is set to the vector from its center to
//! the tracked cursor's center; the render layer turns that vector into
//! an angle.

use vstd::prelude::*;
use crate::components::{Rect, Rotation, rect_center_x, rect_center_y};
use crate::scene::{Scene, SceneModel};
use crate::store::StoreModel;

verus! {

/// Entity `j` is integrated: live, with a rectangle and a velocity.
pub open spec fn phys_subject(m: SceneModel, j: int) -> bool {
    &&& m.live(j)
    &&& 0 <= j < m.rects.slots.len()
    &&& m.rects.slots[j] is Some
    &&& 0 <= j < m.vels.slots.len()
    &&& m.vels.slots[j] is Some
}

/// Entity `j`'s rectangle after one integration step.
pub open spec fn phys_rect_raw(m: SceneModel, j: int) -> Option<Rect> {
    if phys_subject(m, j) {
        let r = m.rects.slots[j].unwrap();
        let v = m.vels.slots[j].unwrap();
        Some(
            Rect {
                x: crate::clip(r.x + v.x) as i32,
                y: crate::clip(r.y + v.y) as i32,
                w: r.w,
                h: r.h,
            },
        )
    } else {
        m.rects.slots[j]
    }
}

/// The scene after velocity integration.
pub open spec fn spec_integrate(m: SceneModel) -> SceneModel {
    SceneModel {
        rects: StoreModel {
            slots: Seq::new(m.rects.slots.len(), |j: int| phys_rect_raw(m, j)),
            pending: m.rects.pending,
        },
        ..m
    }
}

/// Index of the last live cursor-tagged entity with a rectangle below
/// `j`; the reference cursor when several exist.
pub open spec fn last_cursor_below(m: SceneModel, j: int) -> Option<int>
    decreases j,
{
    if j <= 0 {
        None
    } else if crate::interact::cursor_subject(m, j - 1) {
        Some(j - 1)
    } else {
        last_cursor_below(m, j - 1)
    }
}

pub open spec fn last_cursor(m: SceneModel) -> Option<int> {
    last_cursor_below(m, m.cap())
}

/// Entity `j` gets a facing update: a live player with both a rectangle
/// and a facing component.
pub open spec fn face_subject(m: SceneModel, j: int) -> bool {
    &&& m.live(j)
    &&& 0 <= j < m.rects.slots.len()
    &&& m.rects.slots[j] is Some
    &&& 0 <= j < m.players.slots.len()
    &&& m.players.slots[j] is Some
    &&& 0 <= j < m.rots.slots.len()
    &&& m.rots.slots[j] is Some
}

/// Entity `j`'s facing after the update: the vector from its center to
/// the cursor's center, or unchanged when no cursor exists.
pub open spec fn face_raw(m: SceneModel, j: int) -> Option<Rotation> {
    if face_subject(m, j) && last_cursor(m) is Some {
        let c = m.rects.slots[last_cursor(m).unwrap()].unwrap();
        let p = m.rects.slots[j].unwrap();
        Some(
            Rotation {
                dx: crate::clip(rect_center_x(c) - rect_center_x(p)) as i32,
                dy: crate::clip(rect_center_y(c) - rect_center_y(p)) as i32,
            },
        )
    } else {
        m.rots.slots[j]
    }
}

/// The scene after the facing update.
pub open spec fn spec_face(m: SceneModel) -> SceneModel {
    SceneModel {
        rots: StoreModel {
            slots: Seq::new(m.rots.slots.len(), |j: int| face_raw(m, j)),
            pending: m.rots.pending,
        },
        ..m
    }
}

/// The whole physics tick: integration, then facing on the integrated
/// positions.
pub open spec fn spec_physics(m: SceneModel) -> SceneModel {
    spec_face(spec_integrate(m))
}

/// Run the physics system: the result is exactly `spec_physics` of the
/// starting state.
#[verifier::loop_isolation(false)]
#[verifier::rlimit(60)]
pub fn physics_run(scene: &mut Scene)
    requires
        old(scene)@.wf(),
    ensures
        final (scene)@ == spec_physics(old(scene)@),
        final (scene)@.wf(),
{
    let ghost m = old(scene)@;
    let cap = scene.capacity();

    // Integration.
    let mut j: usize = 0;
    while j < cap
        invariant
            j <= cap,
            scene@.reg == m.reg,
            scene@.colors == m.colors,
            scene@.vels == m.vels,
            scene@.rots == m.rots,
            scene@.texts == m.texts,
            scene@.hovers == m.hovers,
            scene@.clicks == m.clicks,
            scene@.players == m.players,
            scene@.cursors == m.cursors,
            scene@.fps_tags == m.fps_tags,
            scene@.input == m.input,
            scene@.transition == m.transition,
            scene@.engine == m.engine,
            scene@.systems == m.systems,
            scene@.rects.pending == m.rects.pending,
            scene@.rects.slots.len() == cap,
            forall|k: int| 0 <= k < j ==> scene@.rects.slots[k] == phys_rect_raw(m, k),
            forall|k: int| j <= k < cap ==> scene@.rects.slots[k] == m.rects.slots[k],
        decreases cap - j,
    {
        let is_alive = scene.reg.alive[j];
        if is_alive {
            let r_opt = match scene.rects.get_at(j) {
                Some(r) => Some(*r),
                None => None,
            };
            let v_opt = match scene.vels.get_at(j) {
                Some(v) => Some(*v),
                None => None,
            };
            if let (Some(r), Some(v)) = (r_opt, v_opt) {
                let nx = crate::clip_i64(r.x as i64 + v.x as i64);
                let ny = crate::clip_i64(r.y as i64 + v.y as i64);
                scene.rects.set_at(j, Some(Rect { x: nx, y: ny, w: r.w, h: r.h }));
            }
        }
        j = j + 1;
    }
    proof {
        assert(scene@.rects.slots =~= spec_integrate(m).rects.slots);
        assert(scene@ =~= spec_integrate(m));
    }
    let ghost mi = spec_integrate(m);

    // Locate the reference cursor on the integrated positions.
    let mut cursor_rect: Option<Rect> = None;
    let mut j: usize = 0;
    while j < cap
        invariant
            j <= cap,
            scene@ == mi,
            match last_cursor_below(mi, j as int) {
                Some(k) => cursor_rect == Some(mi.rects.slots[k].unwrap()),
                None => cursor_rect is None,
            },
        decreases cap - j,
    {
        let is_alive = scene.reg.alive[j];
        if is_alive {
            let is_cursor = match scene.cursors.get_at(j) {
                Some(_) => true,
                None => false,
            };
            if is_cursor {
                let r_opt = match scene.rects.get_at(j) {
                    Some(r) => Some(*r),
                    None => None,
                };
                if let Some(r) = r_opt {
                    cursor_rect = Some(r);
                }
            }
        }
        j = j + 1;
    }

    // Facing toward the cursor.
    let mut j: usize = 0;
    while j < cap
        invariant
            j <= cap,
            scene@.reg == mi.reg,
            scene@.rects == mi.rects,
            scene@.colors == mi.colors,
            scene@.vels == mi.vels,
            scene@.texts == mi.texts,
            scene@.hovers == mi.hovers,
            scene@.clicks == mi.clicks,
            scene@.players == mi.players,
            scene@.cursors == mi.cursors,
            scene@.fps_tags == mi.fps_tags,
            scene@.input == mi.input,
            scene@.transition == mi.transition,
            scene@.engine == mi.engine,
            scene@.systems == mi.systems,
            scene@.rots.pending == mi.rots.pending,
            scene@.rots.slots.len() == cap,
            match last_cursor(mi) {
                Some(k) => cursor_rect == Some(mi.rects.slots[k].unwrap()),
                None => cursor_rect is None,
            },
            forall|k: int| 0 <= k < j ==> scene@.rots.slots[k] == face_raw(mi, k),
            forall|k: int| j <= k < cap ==> scene@.rots.slots[k] == mi.rots.slots[k],
        decreases cap - j,
    {
        let is_alive = scene.reg.alive[j];
        if is_alive {
            let is_player = match scene.players.get_at(j) {
                Some(_) => true,
                None => false,
            };
            let has_rot = match scene.rots.get_at(j) {
                Some(_) => true,
                None => false,
            };
            let r_opt = match scene.rects.get_at(j) {
                Some(r) => Some(*r),
                None => None,
            };
            if is_player && has_rot {
                if let (Some(p), Some(c)) = (r_opt, cursor_rect) {
                    let pc = p.get_center();
                    let cc = c.get_center();
                    let dx = crate::clip_i64(cc.0 as i64 - pc.0 as i64);
                    let dy = crate::clip_i64(cc.1 as i64 - pc.1 as i64);
                    scene.rots.set_at(j, Some(Rotation { dx, dy }));
                }
            }
        }
        j = j + 1;
    }
    proof {
        assert(scene@.rots.slots =~= spec_face(mi).rots.slots);
        assert(scene@ =~= spec_face(mi));
    }
}

/// The physics tick keeps the scene's shape: same registry, same store
/// lengths, same velocities.
pub proof fn lemma_physics_shape(m: SceneModel)
    requires
        m.wf(),
    ensures
        spec_physics(m).wf(),
        spec_physics(m).reg == m.reg,
        spec_physics(m).vels == m.vels,
        spec_physics(m).rects.slots.len() == m.rects.slots.len(),
{
}

/// One integration step in full: every entity with both a rectangle and
/// a velocity moves by exactly its velocity (the delta is per tick, not
/// scaled by wall-clock time), its extent is unchanged, and no velocity
/// changes.
pub proof fn lemma_physics_tick(m: SceneModel, j: int)
    requires
        m.wf(),
        phys_subject(m, j),
        i32::MIN <= m.rects.slots[j].unwrap().x + m.vels.slots[j].unwrap().x <= i32::MAX,
        i32::MIN <= m.rects.slots[j].unwrap().y + m.vels.slots[j].unwrap().y <= i32::MAX,
    ensures
        spec_physics(m).rects.slots[j] == Some(
            Rect {
                x: (m.rects.slots[j].unwrap().x + m.vels.slots[j].unwrap().x) as i32,
                y: (m.rects.slots[j].unwrap().y + m.vels.slots[j].unwrap().y) as i32,
                w: m.rects.slots[j].unwrap().w,
                h: m.rects.slots[j].unwrap().h,
            },
        ),
        spec_physics(m).vels == m.vels,
{
}

/// The scene after `n` physics ticks.
pub open spec fn iter_physics(m: SceneModel, n: nat) -> SceneModel
    decreases n,
{
    if n == 0 {
        m
    } else {
        spec_physics(iter_physics(m, (n - 1) as nat))
    }
}

/// Integration is additive: an entity with a constant velocity moves by
/// exactly `n` times that velocity over `n` ticks, as long as the final
/// position stays in coordinate range (interior positions then lie
/// between the endpoints and cannot saturate).
pub proof fn lemma_physics_additive(m: SceneModel, j: int, n: nat)
    requires
        m.wf(),
        phys_subject(m, j),
        i32::MIN <= m.rects.slots[j].unwrap().x + n * m.vels.slots[j].unwrap().x <= i32::MAX,
        i32::MIN <= m.rects.slots[j].unwrap().y + n * m.vels.slots[j].unwrap().y <= i32::MAX,
    ensures
        iter_physics(m, n).wf(),
        iter_physics(m, n).vels == m.vels,
        iter_physics(m, n).reg == m.reg,
        iter_physics(m, n).rects.slots.len() == m.rects.slots.len(),
        iter_physics(m, n).rects.slots[j] == Some(
            Rect {
                x: (m.rects.slots[j].unwrap().x + n * m.vels.slots[j].unwrap().x) as i32,
                y: (m.rects.slots[j].unwrap().y + n * m.vels.slots[j].unwrap().y) as i32,
                w: m.rects.slots[j].unwrap().w,
                h: m.rects.slots[j].unwrap().h,
            },
        ),
    decreases n,
{
    let r = m.rects.slots[j].unwrap();
    let v = m.vels.slots[j].unwrap();
    if n == 0 {
        assert(iter_physics(m, 0).rects.slots[j] == Some(
            Rect { x: (r.x + 0 * v.x) as i32, y: (r.y + 0 * v.y) as i32, w: r.w, h: r.h },
        ));
    } else {
        let k = (n - 1) as nat;
        assert(i32::MIN <= r.x + k * v.x <= i32::MAX && i32::MIN <= r.y + k * v.y <= i32::MAX)
            by (nonlinear_arith)
            requires
                i32::MIN <= r.x <= i32::MAX,
                i32::MIN <= r.y <= i32::MAX,
                i32::MIN <= r.x + n * v.x <= i32::MAX,
                i32::MIN <= r.y + n * v.y <= i32::MAX,
                k == n - 1,
                n >= 1;
        lemma_physics_additive(m, j, k);
        let mk = iter_physics(m, k);
        lemma_physics_shape(mk);
        assert(phys_subject(mk, j));
        assert(spec_physics(mk).rects.slots[j] == phys_rect_raw(spec_integrate(mk), j)
            || spec_physics(mk).rects.slots[j] == spec_integrate(mk).rects.slots[j]);
        assert(spec_integrate(mk).rects.slots[j] == phys_rect_raw(mk, j));
        assert(k * v.x + v.x == n * v.x && k * v.y + v.y == n * v.y) by (nonlinear_arith)
            requires
                k == n - 1,
                n >= 1;
    }
}

} // verus!
