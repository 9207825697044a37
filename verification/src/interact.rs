//! The interaction system: hover/click edge detection, cursor tracking
//! and key-driven player velocity, run first in every tick.
//!
//! Per tick, in order: (1) every entity with a rectangle and hover
//! behavior is tested against the pointer with inclusive bounds, firing
//! the enter effect on the false-to-true edge of the latch and the leave
//! effect on the true-to-false edge; the first effect that raises a
//! transition is recorded and stops all further processing.  (2) If no
//! transition was raised and the "just pressed" flag is set, the flag is
//! consumed and every entity with a rectangle and click behavior under
//! the pointer fires in turn, until one raises a transition.  (3) The
//! cursor-tagged rectangles are centered on the pointer.  (4) Player
//! velocity is set from the held directional keys.

use vstd::prelude::*;
use crate::components::{Effect, Hover, Rect, RectColor, StateTransition, effect_transition,
    spec_inside};
use crate::input::{Input, Keyboard, Mouse};
use crate::scene::{Scene, SceneModel};
use crate::store::StoreModel;

verus! {

/// Pixels per tick contributed by a held directional key.
pub const PLAYER_SPEED: i32 = 5;

/// Pointer abscissa of the scene's input state.
pub open spec fn ptr_x(m: SceneModel) -> int {
    m.input.mouse.x as int
}

/// Pointer ordinate of the scene's input state.
pub open spec fn ptr_y(m: SceneModel) -> int {
    m.input.mouse.y as int
}

/// Entity `j` takes part in hover detection.
pub open spec fn hover_subject(m: SceneModel, j: int) -> bool {
    &&& m.live(j)
    &&& 0 <= j < m.rects.slots.len()
    &&& m.rects.slots[j] is Some
    &&& 0 <= j < m.hovers.slots.len()
    &&& m.hovers.slots[j] is Some
}

/// The effect entity `j`'s hover behavior fires this tick: the enter
/// effect on the false-to-true edge of the latch, the leave effect on the
/// true-to-false edge, nothing while the latch is unchanged.
pub open spec fn hover_fired(m: SceneModel, j: int) -> Option<Effect> {
    if hover_subject(m, j) {
        let r = m.rects.slots[j].unwrap();
        let h = m.hovers.slots[j].unwrap();
        let ins = spec_inside(r, ptr_x(m), ptr_y(m));
        if ins && !h.hovering {
            Some(h.on_enter)
        } else if !ins && h.hovering {
            Some(h.on_leave)
        } else {
            None
        }
    } else {
        None
    }
}

/// The transition entity `j`'s hover step raises, if any.
pub open spec fn hover_trans(m: SceneModel, j: int) -> Option<StateTransition> {
    match hover_fired(m, j) {
        Some(e) => effect_transition(e),
        None => None,
    }
}

/// First index at or after `j` whose hover step raises a transition.
pub open spec fn first_hover_trans_from(m: SceneModel, j: int) -> Option<int>
    decreases m.cap() - j,
{
    if j < 0 || j >= m.cap() {
        None
    } else if hover_trans(m, j) is Some {
        Some(j)
    } else {
        first_hover_trans_from(m, j + 1)
    }
}

pub open spec fn first_hover_trans(m: SceneModel) -> Option<int> {
    first_hover_trans_from(m, 0)
}

/// Entity `j` is reached by the hover pass before it short-circuits.
pub open spec fn hover_processed(m: SceneModel, j: int) -> bool {
    match first_hover_trans(m) {
        None => true,
        Some(k) => j <= k,
    }
}

/// The latch entity `j` ends the hover step with: equal to the
/// containment test, for subjects.
pub open spec fn hover_latch_raw(m: SceneModel, j: int) -> Option<Hover> {
    if hover_subject(m, j) {
        let r = m.rects.slots[j].unwrap();
        let h = m.hovers.slots[j].unwrap();
        let ins = spec_inside(r, ptr_x(m), ptr_y(m));
        Some(Hover { on_enter: h.on_enter, on_leave: h.on_leave, hovering: ins })
    } else {
        m.hovers.slots[j]
    }
}

/// Entity `j`'s fill color after its hover step: a fired recolor effect
/// replaces the rgb channels and keeps alpha; an entity without a color
/// is skipped as a no-op.
pub open spec fn hover_color_raw(m: SceneModel, j: int) -> Option<RectColor> {
    match hover_fired(m, j) {
        Some(Effect::SetColorRgb(rr, gg, bb)) => match m.colors.slots[j] {
            Some(c) => Some(RectColor { r: rr, g: gg, b: bb, a: c.a }),
            None => None,
        },
        _ => m.colors.slots[j],
    }
}

/// The scene after the hover pass: latches and colors updated up to the
/// short-circuit point, the first raised transition recorded.
pub open spec fn spec_hover_pass(m: SceneModel) -> SceneModel {
    SceneModel {
        hovers: StoreModel {
            slots: Seq::new(
                m.hovers.slots.len(),
                |j: int|
                    if hover_processed(m, j) {
                        hover_latch_raw(m, j)
                    } else {
                        m.hovers.slots[j]
                    },
            ),
            pending: m.hovers.pending,
        },
        colors: StoreModel {
            slots: Seq::new(
                m.colors.slots.len(),
                |j: int|
                    if hover_processed(m, j) {
                        hover_color_raw(m, j)
                    } else {
                        m.colors.slots[j]
                    },
            ),
            pending: m.colors.pending,
        },
        transition: match first_hover_trans(m) {
            Some(k) => hover_trans(m, k),
            None => m.transition,
        },
        ..m
    }
}

/// Entity `j` is a click candidate: live, rectangle and click behavior
/// present, pointer inside.
pub open spec fn click_subject(m: SceneModel, j: int) -> bool {
    &&& m.live(j)
    &&& 0 <= j < m.rects.slots.len()
    &&& m.rects.slots[j] is Some
    &&& 0 <= j < m.clicks.slots.len()
    &&& m.clicks.slots[j] is Some
    &&& spec_inside(m.rects.slots[j].unwrap(), ptr_x(m), ptr_y(m))
}

/// The transition entity `j`'s click raises, if it is a candidate.
pub open spec fn click_trans(m: SceneModel, j: int) -> Option<StateTransition> {
    if click_subject(m, j) {
        effect_transition(m.clicks.slots[j].unwrap().effect)
    } else {
        None
    }
}

/// First index at or after `j` whose click raises a transition.
pub open spec fn first_click_trans_from(m: SceneModel, j: int) -> Option<int>
    decreases m.cap() - j,
{
    if j < 0 || j >= m.cap() {
        None
    } else if click_trans(m, j) is Some {
        Some(j)
    } else {
        first_click_trans_from(m, j + 1)
    }
}

pub open spec fn first_click_trans(m: SceneModel) -> Option<int> {
    first_click_trans_from(m, 0)
}

/// Entity `j` is reached by the click pass before it short-circuits.
pub open spec fn click_processed(m: SceneModel, j: int) -> bool {
    match first_click_trans(m) {
        None => true,
        Some(k) => j <= k,
    }
}

/// Entity `j`'s fill color after its click step.
pub open spec fn click_color_raw(m: SceneModel, j: int) -> Option<RectColor> {
    if click_subject(m, j) {
        match m.clicks.slots[j].unwrap().effect {
            Effect::SetColorRgb(rr, gg, bb) => match m.colors.slots[j] {
                Some(c) => Some(RectColor { r: rr, g: gg, b: bb, a: c.a }),
                None => None,
            },
            _ => m.colors.slots[j],
        }
    } else {
        m.colors.slots[j]
    }
}

/// The scene after the click pass: the "just pressed" flag is consumed,
/// every candidate up to the short-circuit point fires, and the first
/// raised transition is recorded.
pub open spec fn spec_click_pass(m: SceneModel) -> SceneModel {
    SceneModel {
        colors: StoreModel {
            slots: Seq::new(
                m.colors.slots.len(),
                |j: int|
                    if click_processed(m, j) {
                        click_color_raw(m, j)
                    } else {
                        m.colors.slots[j]
                    },
            ),
            pending: m.colors.pending,
        },
        transition: match first_click_trans(m) {
            Some(k) => click_trans(m, k),
            None => m.transition,
        },
        input: Input {
            mouse: Mouse { left_tap: false, ..m.input.mouse },
            ..m.input
        },
        ..m
    }
}

/// Entity `j` is a cursor-tagged entity with a rectangle.
pub open spec fn cursor_subject(m: SceneModel, j: int) -> bool {
    &&& m.live(j)
    &&& 0 <= j < m.rects.slots.len()
    &&& m.rects.slots[j] is Some
    &&& 0 <= j < m.cursors.slots.len()
    &&& m.cursors.slots[j] is Some
}

/// Entity `j`'s rectangle after cursor tracking: centered on the pointer.
pub open spec fn cursor_rect_raw(m: SceneModel, j: int) -> Option<Rect> {
    if cursor_subject(m, j) {
        let r = m.rects.slots[j].unwrap();
        Some(
            Rect {
                x: crate::clip(ptr_x(m) - r.w / 2) as i32,
                y: crate::clip(ptr_y(m) - r.h / 2) as i32,
                w: r.w,
                h: r.h,
            },
        )
    } else {
        m.rects.slots[j]
    }
}

/// The scene after cursor tracking.
pub open spec fn spec_cursor_pass(m: SceneModel) -> SceneModel {
    SceneModel {
        rects: StoreModel {
            slots: Seq::new(m.rects.slots.len(), |j: int| cursor_rect_raw(m, j)),
            pending: m.rects.pending,
        },
        ..m
    }
}

/// The velocity the held directional keys dictate: opposing keys override
/// each other (down and right win), neither held zeroes the axis.
pub open spec fn key_vel(k: Keyboard) -> crate::components::Vel {
    crate::components::Vel {
        x: if k.d {
            PLAYER_SPEED
        } else if k.a {
            (-PLAYER_SPEED) as i32
        } else {
            0
        },
        y: if k.s {
            PLAYER_SPEED
        } else if k.w {
            (-PLAYER_SPEED) as i32
        } else {
            0
        },
    }
}

/// Entity `j` is a player-tagged entity with a velocity.
pub open spec fn vel_subject(m: SceneModel, j: int) -> bool {
    &&& m.live(j)
    &&& 0 <= j < m.vels.slots.len()
    &&& m.vels.slots[j] is Some
    &&& 0 <= j < m.players.slots.len()
    &&& m.players.slots[j] is Some
}

/// The scene after key-driven velocity assignment.
pub open spec fn spec_vel_pass(m: SceneModel) -> SceneModel {
    SceneModel {
        vels: StoreModel {
            slots: Seq::new(
                m.vels.slots.len(),
                |j: int|
                    if vel_subject(m, j) {
                        Some(key_vel(m.input.keyboard))
                    } else {
                        m.vels.slots[j]
                    },
            ),
            pending: m.vels.pending,
        },
        ..m
    }
}

/// The whole interaction tick.  A transition raised in the hover pass
/// stops everything after it; one raised in the click pass stops cursor
/// tracking and velocity assignment.
pub open spec fn spec_interact(m: SceneModel) -> SceneModel {
    let m1 = spec_hover_pass(m);
    if first_hover_trans(m) is Some {
        m1
    } else {
        let m2 = if m.input.mouse.left_tap {
            spec_click_pass(m1)
        } else {
            m1
        };
        if m.input.mouse.left_tap && first_click_trans(m1) is Some {
            m2
        } else {
            spec_vel_pass(spec_cursor_pass(m2))
        }
    }
}

/// Run the interaction system against the scene.  The result is exactly
/// `spec_interact` of the starting state: edge-triggered hover effects,
/// at most one consumed click per press, cursor tracking and key-driven
/// velocity, with the first raised transition recorded and everything
/// after it skipped.
#[verifier::loop_isolation(false)]
#[verifier::rlimit(60)]
pub fn update_input(scene: &mut Scene)
    requires
        old(scene)@.wf(),
    ensures
        final (scene)@ == spec_interact(old(scene)@),
        final (scene)@.wf(),
{
    let ghost m = old(scene)@;
    let cap = scene.capacity();
    let px = scene.input.mouse.x;
    let py = scene.input.mouse.y;

    // Step 1: hover edge detection.
    let mut j: usize = 0;
    while j < cap
        invariant
            j <= cap,
            scene@.reg == m.reg,
            scene@.rects == m.rects,
            scene@.vels == m.vels,
            scene@.rots == m.rots,
            scene@.texts == m.texts,
            scene@.clicks == m.clicks,
            scene@.players == m.players,
            scene@.cursors == m.cursors,
            scene@.fps_tags == m.fps_tags,
            scene@.input == m.input,
            scene@.transition == m.transition,
            scene@.engine == m.engine,
            scene@.systems == m.systems,
            scene@.hovers.pending == m.hovers.pending,
            scene@.colors.pending == m.colors.pending,
            scene@.hovers.slots.len() == cap,
            scene@.colors.slots.len() == cap,
            forall|k: int| 0 <= k < j ==> hover_trans(m, k) is None,
            forall|k: int| 0 <= k < j ==> scene@.hovers.slots[k] == hover_latch_raw(m, k),
            forall|k: int| j <= k < cap ==> scene@.hovers.slots[k] == m.hovers.slots[k],
            forall|k: int| 0 <= k < j ==> scene@.colors.slots[k] == hover_color_raw(m, k),
            forall|k: int| j <= k < cap ==> scene@.colors.slots[k] == m.colors.slots[k],
        decreases cap - j,
    {
        let is_alive = scene.reg.alive[j];
        if is_alive {
            let r_opt = match scene.rects.get_at(j) {
                Some(r) => Some(*r),
                None => None,
            };
            let h_opt = match scene.hovers.get_at(j) {
                Some(h) => Some(*h),
                None => None,
            };
            match (r_opt, h_opt) {
                (Some(r), Some(h)) => {
                    proof {
                        assert(hover_subject(m, j as int));
                    }
                    let ins = r.contains(px, py);
                    let mut h2 = h;
                    let fired = if ins {
                        h2.on_hover()
                    } else {
                        h2.off_hover()
                    };
                    scene.hovers.set_at(j, Some(h2));
                    proof {
                        assert(fired == hover_fired(m, j as int));
                        assert(scene@.hovers.slots[j as int] == hover_latch_raw(m, j as int));
                    }
                    match fired {
                        Some(Effect::SetColorRgb(rr, gg, bb)) => {
                            let c_opt = match scene.colors.get_at(j) {
                                Some(c) => Some(*c),
                                None => None,
                            };
                            if let Some(c) = c_opt {
                                scene.colors.set_at(
                                    j,
                                    Some(RectColor { r: rr, g: gg, b: bb, a: c.a }),
                                );
                            }
                        },
                        Some(Effect::Push(kind)) => {
                            scene.transition = Some(StateTransition::Push(kind));
                            proof {
                                lemma_first_hover_some(m, 0, j as int);
                                assert(scene@.hovers.slots =~= spec_hover_pass(m).hovers.slots);
                                assert(scene@.colors.slots =~= spec_hover_pass(m).colors.slots);
                                assert(scene@ =~= spec_hover_pass(m));
                            }
                            return ;
                        },
                        Some(Effect::Pop) => {
                            scene.transition = Some(StateTransition::Pop);
                            proof {
                                lemma_first_hover_some(m, 0, j as int);
                                assert(scene@.hovers.slots =~= spec_hover_pass(m).hovers.slots);
                                assert(scene@.colors.slots =~= spec_hover_pass(m).colors.slots);
                                assert(scene@ =~= spec_hover_pass(m));
                            }
                            return ;
                        },
                        _ => {},
                    }
                },
                _ => {
                    proof {
                        assert(!hover_subject(m, j as int));
                    }
                },
            }
        } else {
            proof {
                assert(!hover_subject(m, j as int));
            }
        }
        j = j + 1;
    }
    proof {
        lemma_first_hover_none(m, 0);
        assert(scene@.hovers.slots =~= spec_hover_pass(m).hovers.slots);
        assert(scene@.colors.slots =~= spec_hover_pass(m).colors.slots);
        assert(scene@ =~= spec_hover_pass(m));
    }
    let ghost m1 = spec_hover_pass(m);

    // Step 2: click dispatch, if a press is pending.
    if scene.input.mouse.left_tap {
        let mut j: usize = 0;
        while j < cap
            invariant
                j <= cap,
                scene@.reg == m1.reg,
                scene@.rects == m1.rects,
                scene@.vels == m1.vels,
                scene@.rots == m1.rots,
                scene@.texts == m1.texts,
                scene@.hovers == m1.hovers,
                scene@.clicks == m1.clicks,
                scene@.players == m1.players,
                scene@.cursors == m1.cursors,
                scene@.fps_tags == m1.fps_tags,
                scene@.input == m1.input,
                scene@.transition == m1.transition,
                scene@.engine == m1.engine,
                scene@.systems == m1.systems,
                scene@.colors.pending == m1.colors.pending,
                scene@.colors.slots.len() == cap,
                forall|k: int| 0 <= k < j ==> click_trans(m1, k) is None,
                forall|k: int| 0 <= k < j ==> scene@.colors.slots[k] == click_color_raw(m1, k),
                forall|k: int| j <= k < cap ==> scene@.colors.slots[k] == m1.colors.slots[k],
            decreases cap - j,
        {
            let is_alive = scene.reg.alive[j];
            if is_alive {
                let r_opt = match scene.rects.get_at(j) {
                    Some(r) => Some(*r),
                    None => None,
                };
                let c_opt = match scene.clicks.get_at(j) {
                    Some(c) => Some(*c),
                    None => None,
                };
                match (r_opt, c_opt) {
                    (Some(r), Some(ck)) => {
                        if r.contains(px, py) {
                            proof {
                                assert(click_subject(m1, j as int));
                            }
                            match ck.effect {
                                Effect::SetColorRgb(rr, gg, bb) => {
                                    let col_opt = match scene.colors.get_at(j) {
                                        Some(c) => Some(*c),
                                        None => None,
                                    };
                                    if let Some(c) = col_opt {
                                        scene.colors.set_at(
                                            j,
                                            Some(RectColor { r: rr, g: gg, b: bb, a: c.a }),
                                        );
                                    }
                                },
                                Effect::Push(kind) => {
                                    scene.transition = Some(StateTransition::Push(kind));
                                    scene.input.mouse.left_tap = false;
                                    proof {
                                        lemma_first_click_some(m1, 0, j as int);
                                        assert(scene@.colors.slots =~= spec_click_pass(
                                            m1,
                                        ).colors.slots);
                                        assert(scene@ =~= spec_click_pass(m1));
                                    }
                                    return ;
                                },
                                Effect::Pop => {
                                    scene.transition = Some(StateTransition::Pop);
                                    scene.input.mouse.left_tap = false;
                                    proof {
                                        lemma_first_click_some(m1, 0, j as int);
                                        assert(scene@.colors.slots =~= spec_click_pass(
                                            m1,
                                        ).colors.slots);
                                        assert(scene@ =~= spec_click_pass(m1));
                                    }
                                    return ;
                                },
                                Effect::Keep => {},
                            }
                        } else {
                            proof {
                                assert(!click_subject(m1, j as int));
                            }
                        }
                    },
                    _ => {
                        proof {
                            assert(!click_subject(m1, j as int));
                        }
                    },
                }
            } else {
                proof {
                    assert(!click_subject(m1, j as int));
                }
            }
            j = j + 1;
        }
        scene.input.mouse.left_tap = false;
        proof {
            lemma_first_click_none(m1, 0);
            assert(scene@.colors.slots =~= spec_click_pass(m1).colors.slots);
            assert(scene@ =~= spec_click_pass(m1));
        }
    }
    let ghost m2 = if m.input.mouse.left_tap {
        spec_click_pass(m1)
    } else {
        m1
    };
    proof {
        assert(scene@ =~= m2);
    }

    // Step 3: cursor rectangles track the pointer, centered.
    let mut j: usize = 0;
    while j < cap
        invariant
            j <= cap,
            scene@.reg == m2.reg,
            scene@.colors == m2.colors,
            scene@.vels == m2.vels,
            scene@.rots == m2.rots,
            scene@.texts == m2.texts,
            scene@.hovers == m2.hovers,
            scene@.clicks == m2.clicks,
            scene@.players == m2.players,
            scene@.cursors == m2.cursors,
            scene@.fps_tags == m2.fps_tags,
            scene@.input == m2.input,
            scene@.transition == m2.transition,
            scene@.engine == m2.engine,
            scene@.systems == m2.systems,
            scene@.rects.pending == m2.rects.pending,
            scene@.rects.slots.len() == cap,
            forall|k: int| 0 <= k < j ==> scene@.rects.slots[k] == cursor_rect_raw(m2, k),
            forall|k: int| j <= k < cap ==> scene@.rects.slots[k] == m2.rects.slots[k],
        decreases cap - j,
    {
        let is_alive = scene.reg.alive[j];
        if is_alive {
            let r_opt = match scene.rects.get_at(j) {
                Some(r) => Some(*r),
                None => None,
            };
            let is_cursor = match scene.cursors.get_at(j) {
                Some(_) => true,
                None => false,
            };
            if is_cursor {
                if let Some(r) = r_opt {
                    let nx = crate::clip_i64(px as i64 - (r.w / 2) as i64);
                    let ny = crate::clip_i64(py as i64 - (r.h / 2) as i64);
                    scene.rects.set_at(j, Some(Rect { x: nx, y: ny, w: r.w, h: r.h }));
                }
            }
        }
        j = j + 1;
    }
    proof {
        assert(scene@.rects.slots =~= spec_cursor_pass(m2).rects.slots);
        assert(scene@ =~= spec_cursor_pass(m2));
    }
    let ghost m3 = spec_cursor_pass(m2);

    // Step 4: player velocity from the held directional keys.
    let kb = scene.input.keyboard;
    let vnew = crate::components::Vel {
        x: if kb.d {
            PLAYER_SPEED
        } else if kb.a {
            -PLAYER_SPEED
        } else {
            0
        },
        y: if kb.s {
            PLAYER_SPEED
        } else if kb.w {
            -PLAYER_SPEED
        } else {
            0
        },
    };
    proof {
        assert(vnew == key_vel(m3.input.keyboard));
    }
    let mut j: usize = 0;
    while j < cap
        invariant
            j <= cap,
            scene@.reg == m3.reg,
            scene@.rects == m3.rects,
            scene@.colors == m3.colors,
            scene@.rots == m3.rots,
            scene@.texts == m3.texts,
            scene@.hovers == m3.hovers,
            scene@.clicks == m3.clicks,
            scene@.players == m3.players,
            scene@.cursors == m3.cursors,
            scene@.fps_tags == m3.fps_tags,
            scene@.input == m3.input,
            scene@.transition == m3.transition,
            scene@.engine == m3.engine,
            scene@.systems == m3.systems,
            scene@.vels.pending == m3.vels.pending,
            scene@.vels.slots.len() == cap,
            forall|k: int|
                0 <= k < j ==> scene@.vels.slots[k] == (if vel_subject(m3, k) {
                    Some(key_vel(m3.input.keyboard))
                } else {
                    m3.vels.slots[k]
                }),
            forall|k: int| j <= k < cap ==> scene@.vels.slots[k] == m3.vels.slots[k],
        decreases cap - j,
    {
        let is_alive = scene.reg.alive[j];
        if is_alive {
            let is_player = match scene.players.get_at(j) {
                Some(_) => true,
                None => false,
            };
            let has_vel = match scene.vels.get_at(j) {
                Some(_) => true,
                None => false,
            };
            if is_player && has_vel {
                scene.vels.set_at(j, Some(vnew));
            }
        }
        j = j + 1;
    }
    proof {
        assert(scene@.vels.slots =~= spec_vel_pass(m3).vels.slots);
        assert(scene@ =~= spec_vel_pass(m3));
        assert(scene@ =~= spec_interact(m));
    }
}

pub proof fn lemma_first_hover_none(m: SceneModel, j: int)
    requires
        0 <= j <= m.cap(),
        forall|k: int| j <= k < m.cap() ==> hover_trans(m, k) is None,
    ensures
        first_hover_trans_from(m, j) is None,
    decreases m.cap() - j,
{
    if j < m.cap() {
        lemma_first_hover_none(m, j + 1);
    }
}

pub proof fn lemma_first_hover_some(m: SceneModel, j: int, k: int)
    requires
        0 <= j <= k < m.cap(),
        forall|i: int| j <= i < k ==> hover_trans(m, i) is None,
        hover_trans(m, k) is Some,
    ensures
        first_hover_trans_from(m, j) == Some(k),
    decreases k - j,
{
    if j < k {
        lemma_first_hover_some(m, j + 1, k);
    }
}

pub proof fn lemma_first_click_none(m: SceneModel, j: int)
    requires
        0 <= j <= m.cap(),
        forall|k: int| j <= k < m.cap() ==> click_trans(m, k) is None,
    ensures
        first_click_trans_from(m, j) is None,
    decreases m.cap() - j,
{
    if j < m.cap() {
        lemma_first_click_none(m, j + 1);
    }
}

pub proof fn lemma_first_click_some(m: SceneModel, j: int, k: int)
    requires
        0 <= j <= k < m.cap(),
        forall|i: int| j <= i < k ==> click_trans(m, i) is None,
        click_trans(m, k) is Some,
    ensures
        first_click_trans_from(m, j) == Some(k),
    decreases k - j,
{
    if j < k {
        lemma_first_click_some(m, j + 1, k);
    }
}

/// A found first hover transition really is one.
pub proof fn lemma_first_hover_is_trans(m: SceneModel, j: int)
    requires
        first_hover_trans_from(m, j) is Some,
    ensures
        hover_trans(m, first_hover_trans_from(m, j).unwrap()) is Some,
    decreases m.cap() - j,
{
    if !(j < 0 || j >= m.cap()) {
        if hover_trans(m, j) is Some {
        } else {
            lemma_first_hover_is_trans(m, j + 1);
        }
    }
}

/// A found first click transition really is one.
pub proof fn lemma_first_click_is_trans(m: SceneModel, j: int)
    requires
        first_click_trans_from(m, j) is Some,
    ensures
        click_trans(m, first_click_trans_from(m, j).unwrap()) is Some,
    decreases m.cap() - j,
{
    if !(j < 0 || j >= m.cap()) {
        if click_trans(m, j) is Some {
        } else {
            lemma_first_click_is_trans(m, j + 1);
        }
    }
}

/// Hover-enter fires exactly once: if the latch is down and the pointer
/// is inside the rectangle at the start of the tick, the enter effect
/// fires and the latch rises; a repeated tick with the pointer still
/// inside fires nothing.
pub proof fn lemma_hover_enter_once(m: SceneModel, j: int)
    requires
        m.wf(),
        hover_subject(m, j),
        !m.hovers.slots[j].unwrap().hovering,
        spec_inside(m.rects.slots[j].unwrap(), ptr_x(m), ptr_y(m)),
        hover_processed(m, j),
    ensures
        hover_fired(m, j) == Some(m.hovers.slots[j].unwrap().on_enter),
        spec_interact(m).hovers.slots[j].unwrap().hovering,
        spec_interact(m).hovers.slots[j] is Some,
{
    let m1 = spec_interact(m);
    assert(m1.hovers == spec_hover_pass(m).hovers);
    assert(spec_hover_pass(m).hovers.slots[j] == hover_latch_raw(m, j));
}

/// With the latch already up and the pointer still inside, the hover
/// step fires nothing: the latch alone decides the edge.
pub proof fn lemma_hover_enter_not_refired(m: SceneModel, j: int)
    requires
        m.wf(),
        hover_subject(m, j),
        m.hovers.slots[j].unwrap().hovering,
        spec_inside(m.rects.slots[j].unwrap(), ptr_x(m), ptr_y(m)),
    ensures
        hover_fired(m, j) is None,
{
}

/// Hover-leave fires exactly once per exit: with the latch up and the
/// pointer outside, the leave effect fires and the latch falls; while
/// the pointer stays outside afterwards, nothing fires again, however
/// many ticks pass.
pub proof fn lemma_hover_leave_once(m: SceneModel, j: int)
    requires
        m.wf(),
        hover_subject(m, j),
        m.hovers.slots[j].unwrap().hovering,
        !spec_inside(m.rects.slots[j].unwrap(), ptr_x(m), ptr_y(m)),
        hover_processed(m, j),
    ensures
        hover_fired(m, j) == Some(m.hovers.slots[j].unwrap().on_leave),
        spec_interact(m).hovers.slots[j] is Some,
        !spec_interact(m).hovers.slots[j].unwrap().hovering,
{
    let m1 = spec_interact(m);
    assert(m1.hovers == spec_hover_pass(m).hovers);
    assert(spec_hover_pass(m).hovers.slots[j] == hover_latch_raw(m, j));
}

/// With the latch already down and the pointer outside, nothing fires.
pub proof fn lemma_hover_leave_not_refired(m: SceneModel, j: int)
    requires
        m.wf(),
        hover_subject(m, j),
        !m.hovers.slots[j].unwrap().hovering,
        !spec_inside(m.rects.slots[j].unwrap(), ptr_x(m), ptr_y(m)),
    ensures
        hover_fired(m, j) is None,
{
}

/// The "just pressed" flag is consumed by the tick that reads it: when
/// no hover transition pre-empts the click pass, the flag is down after
/// the tick, whether or not the button is still held.
pub proof fn lemma_press_consumed(m: SceneModel)
    requires
        m.wf(),
        m.input.mouse.left_tap,
        first_hover_trans(m) is None,
    ensures
        !spec_interact(m).input.mouse.left_tap,
{
    let m1 = spec_hover_pass(m);
    let m2 = spec_click_pass(m1);
    if first_click_trans(m1) is Some {
        assert(spec_interact(m) == m2);
    } else {
        assert(spec_interact(m) == spec_vel_pass(spec_cursor_pass(m2)));
    }
}

/// A held button without a new press evaluates no click: with the flag
/// down, the tick skips the click pass entirely, so ticks between a
/// press and its release dispatch at most one click in total.
pub proof fn lemma_no_press_no_click(m: SceneModel)
    requires
        m.wf(),
        !m.input.mouse.left_tap,
    ensures
        !spec_interact(m).input.mouse.left_tap,
        first_hover_trans(m) is None ==> spec_interact(m) == spec_vel_pass(
            spec_cursor_pass(spec_hover_pass(m)),
        ),
{
}

} // verus!
