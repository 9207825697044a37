//! The debug overlay: a frame-rate readout entity, re-attached on every
//! scene transition and refreshed once per tick.
//!
//! The wall clock is owned by the bootstrap collaborator, which hands a
//! nanosecond timestamp in; the overlay derives frames per second from
//! the distance to the previous tick's timestamp and writes its decimal
//! digits into the label of every entity tagged with `FPS`.

use vstd::prelude::*;
use crate::components::{FPS, Rect, RectColor, Text};
use crate::scene::{Scene, SceneModel};
use crate::store::EntityId;

verus! {

/// Decimal digits of `n`, as ASCII bytes, most significant first.
pub open spec fn spec_digits(n: nat) -> Seq<u8>
    decreases n,
{
    if n < 10 {
        seq![(48 + n) as u8]
    } else {
        spec_digits(n / 10).push((48 + n % 10) as u8)
    }
}

/// Render `n` in decimal ASCII.
pub fn u64_digits(n: u64) -> (d: Vec<u8>)
    ensures
        d@ == spec_digits(n as nat),
{
    let ghost all = spec_digits(n as nat);
    let mut rev: Vec<u8> = Vec::new();
    let mut x = n;
    while x >= 10
        invariant
            rev@.len() < all.len(),
            forall|k: int| 0 <= k < rev@.len() ==> rev@[k] == all[all.len() - 1 - k],
            spec_digits(x as nat) == all.take(all.len() - rev@.len()),
        decreases x,
    {
        proof {
            let r = rev@.len() as int;
            assert(spec_digits(x as nat) == spec_digits((x as nat) / 10).push(
                (48 + (x as nat) % 10) as u8,
            ));
            assert(all.take(all.len() - r).last() == all[all.len() - r - 1]);
            assert(all.take(all.len() - r).drop_last() =~= all.take(all.len() - r - 1));
        }
        let d = (x % 10) as u8 + 48;
        rev.push(d);
        x = x / 10;
    }
    proof {
        let r = rev@.len() as int;
        assert(spec_digits(x as nat) == seq![(48 + x as nat) as u8]);
        assert(all.take(all.len() - r).len() == 1);
        assert(all.take(all.len() - r)[0] == all[all.len() - r - 1]);
    }
    let d = x as u8 + 48;
    rev.push(d);
    let mut out: Vec<u8> = Vec::new();
    while rev.len() > 0
        invariant
            out@.len() + rev@.len() == all.len(),
            out@ == all.take(out@.len() as int),
            forall|k: int| 0 <= k < rev@.len() ==> rev@[k] == all[all.len() - 1 - k],
        decreases rev.len(),
    {
        let p = rev.pop().unwrap();
        out.push(p);
        proof {
            assert(out@ =~= all.take(out@.len() as int));
        }
    }
    proof {
        assert(out@ =~= all);
    }
    out
}

/// Frames per second derived from two tick timestamps in nanoseconds:
/// zero when time stood still or ran backwards.
pub open spec fn fps_of(last: u64, now: u64) -> nat {
    let delta: nat = if now > last {
        (now - last) as nat
    } else {
        0
    };
    if delta == 0 {
        0
    } else {
        (1000000000 as nat) / delta
    }
}

/// Entity `j` carries the frame-rate readout: live, tagged, labelled.
pub open spec fn fps_subject(m: SceneModel, j: int) -> bool {
    &&& m.live(j)
    &&& 0 <= j < m.fps_tags.slots.len()
    &&& m.fps_tags.slots[j] is Some
    &&& 0 <= j < m.texts.slots.len()
    &&& m.texts.slots[j] is Some
}

/// Entity `j`'s label after a refresh that measured `fps`.
pub open spec fn refresh_text_ok(m: SceneModel, m2: SceneModel, fps: nat, j: int) -> bool {
    if fps_subject(m, j) {
        m2.texts.slots[j] matches Some(t) && {
            let t0 = m.texts.slots[j].unwrap();
            &&& t.text@ == spec_digits(fps)
            &&& t.scale == t0.scale
            &&& t.loc_x == t0.loc_x
            &&& t.loc_y == t0.loc_y
        }
    } else {
        m2.texts.slots[j] == m.texts.slots[j]
    }
}

/// How a refresh relates the scene before to the scene after: only the
/// labels of tagged entities change, to the digits of the measured rate.
pub open spec fn refresh_rel(m: SceneModel, m2: SceneModel, fps: nat) -> bool {
    &&& m2 == (SceneModel { texts: m2.texts, ..m })
    &&& m2.texts.pending == m.texts.pending
    &&& m2.texts.slots.len() == m.texts.slots.len()
    &&& forall|j: int| 0 <= j < m.texts.slots.len() ==> #[trigger] refresh_text_ok(m, m2, fps, j)
}

/// What attaching the overlay adds to a scene: one fresh entity holding
/// the tag, an empty label anchored at the bottom-right corner, and the
/// readout's backing rectangle and color; nothing else changes.  The
/// slot held no live entity before, so nothing pre-existing is replaced.
pub open spec fn attach_post(m: SceneModel, m2: SceneModel, id: EntityId) -> bool {
    &&& m2.reg.live(id)
    &&& !m.reg.live(id)
    &&& !m.reg.live_idx(id.idx as int)
    &&& id.idx < m2.cap()
    &&& m.cap() <= m2.cap() <= m.cap() + 1
    &&& forall|j: int|
        0 <= j < m.cap() && j != id.idx ==> m2.reg.gens[j] == m.reg.gens[j] && m2.reg.alive[j]
            == m.reg.alive[j]
    &&& m.stores_eq_except(m2, id.idx as int)
    &&& m2.misc_eq(m)
    &&& m2.fps_tags.slots[id.idx as int] is Some
    &&& m2.rects.slots[id.idx as int] == Some(
        Rect {
            x: (crate::SCREEN_WIDTH - 50) as i32,
            y: (crate::SCREEN_HEIGHT - 50) as i32,
            w: 50,
            h: 50,
        },
    )
    &&& m2.colors.slots[id.idx as int] == Some(RectColor { r: 0, g: 0, b: 255, a: 255 })
    &&& (m2.texts.slots[id.idx as int] matches Some(t) && t.text@.len() == 0 && t.scale == 1
        && t.loc_x == crate::SCREEN_WIDTH - 50 && t.loc_y == crate::SCREEN_HEIGHT)
    &&& m2.hovers.slots[id.idx as int] is None
    &&& m2.clicks.slots[id.idx as int] is None
    &&& m2.players.slots[id.idx as int] is None
    &&& m2.cursors.slots[id.idx as int] is None
    &&& m2.vels.slots[id.idx as int] is None
    &&& m2.rots.slots[id.idx as int] is None
}

/// The overlay subsystem: remembers the previous tick's timestamp.
pub struct Overlay {
    pub last_frame: u64,
}

impl Overlay {
    pub fn new(now: u64) -> (o: Self)
        ensures
            o.last_frame == now,
    {
        Overlay { last_frame: now }
    }

    /// Create the frame-rate readout entity in the scene and restart the
    /// frame clock; done on every scene transition, for the scene that
    /// becomes active.
    pub fn attach(&mut self, scene: &mut Scene, now: u64) -> (id: EntityId)
        requires
            old(scene)@.wf(),
        ensures
            final (self).last_frame == now,
            final (scene)@.wf(),
            attach_post(old(scene)@, final (scene)@, id),
    {
        let id = scene.spawn();
        match scene.insert_fps(id, FPS) {
            _ => {},
        }
        match scene.insert_text(
            id,
            Text {
                text: Vec::new(),
                scale: 1,
                loc_x: crate::SCREEN_WIDTH - 50,
                loc_y: crate::SCREEN_HEIGHT,
            },
        ) {
            _ => {},
        }
        match scene.insert_rect(
            id,
            Rect { x: crate::SCREEN_WIDTH - 50, y: crate::SCREEN_HEIGHT - 50, w: 50, h: 50 },
        ) {
            _ => {},
        }
        match scene.insert_color(id, RectColor { r: 0, g: 0, b: 255, a: 255 }) {
            _ => {},
        }
        self.last_frame = now;
        id
    }

    /// Measure the frame rate against the previous tick's timestamp and
    /// write its digits into every tagged entity's label.
    #[verifier::loop_isolation(false)]
    pub fn run(&mut self, scene: &mut Scene, now: u64)
        requires
            old(scene)@.wf(),
        ensures
            final (self).last_frame == now,
            final (scene)@.wf(),
            refresh_rel(old(scene)@, final (scene)@, fps_of(old(self).last_frame, now)),
    {
        let ghost m = old(scene)@;
        let delta = if now > self.last_frame {
            now - self.last_frame
        } else {
            0
        };
        let fps: u64 = if delta == 0 {
            0
        } else {
            1000000000 / delta
        };
        proof {
            assert(fps as nat == fps_of(old(self).last_frame, now));
        }
        self.last_frame = now;
        let cap = scene.capacity();
        let mut j: usize = 0;
        while j < cap
            invariant
                j <= cap,
                scene@ == (SceneModel { texts: scene@.texts, ..m }),
                scene@.texts.pending == m.texts.pending,
                scene@.texts.slots.len() == cap,
                forall|k: int| 0 <= k < j ==> #[trigger] refresh_text_ok(m, scene@, fps as nat, k),
                forall|k: int| j <= k < cap ==> scene@.texts.slots[k] == m.texts.slots[k],
            decreases cap - j,
        {
            let ghost pre = scene@;
            let is_alive = scene.reg.alive[j];
            if is_alive {
                let is_tagged = match scene.fps_tags.get_at(j) {
                    Some(_) => true,
                    None => false,
                };
                if is_tagged {
                    let meta = match scene.texts.get_at(j) {
                        Some(t) => Some((t.scale, t.loc_x, t.loc_y)),
                        None => None,
                    };
                    if let Some((scale, loc_x, loc_y)) = meta {
                        let d = u64_digits(fps);
                        scene.texts.set_at(j, Some(Text { text: d, scale, loc_x, loc_y }));
                    }
                }
            }
            proof {
                assert forall|k: int| 0 <= k < j + 1 implies #[trigger] refresh_text_ok(
                    m,
                    scene@,
                    fps as nat,
                    k,
                ) by {
                    if k < j {
                        assert(refresh_text_ok(m, pre, fps as nat, k));
                        assert(scene@.texts.slots[k] == pre.texts.slots[k]);
                    }
                }
            }
            j = j + 1;
        }
    }
}

} // verus!
