//! The scene stack manager: an ordered stack of scenes, event routing to
//! the active scene, and one full tick per update.
//!
//! Per tick, for the active (top) scene: the interaction system runs
//! first, always; the remaining pipeline runs only if no transition is
//! pending; then the overlay refresh, then the maintain point, and
//! finally any transition is applied.  The overlay is re-bound on every
//! transition: a push builds the new scene eagerly and attaches the
//! overlay to it; a pop destroys the top scene and attaches the overlay
//! to the scene it exposes.
//! An empty stack is the signal that the surrounding application should
//! terminate; this core only reports it.

use vstd::prelude::*;
use crate::components::{SceneKind, StateTransition};
use crate::input::{Input, Key, Keyboard, Mouse, spec_set_key};
use crate::interact::spec_interact;
use crate::overlay::{Overlay, attach_post, fps_of, refresh_rel};
use crate::pipeline::systems_rel;
use crate::scene::{Scene, SceneModel, kind_post, spec_maintain};
use crate::store::EntityId;
use crate::systems::ParticleSystem;

verus! {

/// The keys the event pump reports to the game.
#[derive(Clone, Copy, PartialEq, Eq, Structural, Debug)]
pub enum GameKey {
    W,
    A,
    S,
    D,
    Escape,
    Other,
}

/// The whole simulation: the scene stack, the overlay subsystem and the
/// particle emitter with its generator.
pub struct Game {
    pub stack: Vec<Scene>,
    pub overlay: Overlay,
    pub emitter: ParticleSystem,
}

/// The active scene's state after a key event is routed to it.
pub open spec fn key_event_model(m: SceneModel, key: GameKey, pressed: bool) -> SceneModel {
    match key {
        GameKey::W => SceneModel {
            input: Input { keyboard: spec_set_key(m.input.keyboard, Key::W, pressed), ..m.input },
            ..m
        },
        GameKey::A => SceneModel {
            input: Input { keyboard: spec_set_key(m.input.keyboard, Key::A, pressed), ..m.input },
            ..m
        },
        GameKey::S => SceneModel {
            input: Input { keyboard: spec_set_key(m.input.keyboard, Key::S, pressed), ..m.input },
            ..m
        },
        GameKey::D => SceneModel {
            input: Input { keyboard: spec_set_key(m.input.keyboard, Key::D, pressed), ..m.input },
            ..m
        },
        GameKey::Escape => if pressed {
            SceneModel { transition: Some(StateTransition::Pop), ..m }
        } else {
            m
        },
        GameKey::Other => m,
    }
}

/// How one tick relates the active scene's state before to its state
/// after, and to the transition taken out of it: interaction, then the
/// pipeline unless a transition is pending, then the overlay refresh,
/// then the maintain point, with the transition slot emptied.
pub open spec fn tick_rel(
    m0: SceneModel,
    m1: SceneModel,
    t: Option<StateTransition>,
    lf: u64,
    now: u64,
) -> bool {
    exists|sb: SceneModel, sc: SceneModel|
        {
            &&& #[trigger] systems_rel(spec_interact(m0), sb)
            &&& #[trigger] refresh_rel(sb, sc, fps_of(lf, now))
            &&& t == sc.transition
            &&& m1 == spec_maintain(SceneModel { transition: None, ..sc })
        }
}

/// How one tick relates the whole stack before to the stack after: the
/// top scene is ticked, and the transition it produced pushes a freshly
/// built scene, pops the top scene, or leaves the stack's shape alone.
/// The overlay is re-attached on every transition, to the scene that
/// becomes active: the pushed scene, or the scene a pop exposes.
pub open spec fn tick_outcome(
    pre: Seq<SceneModel>,
    post: Seq<SceneModel>,
    lf: u64,
    now: u64,
) -> bool {
    let n = pre.len() as int;
    exists|m1: SceneModel, t: Option<StateTransition>|
        {
            &&& #[trigger] tick_rel(pre[n - 1], m1, t, lf, now)
            &&& match t {
                None => post == pre.update(n - 1, m1),
                Some(StateTransition::Pop) => {
                    &&& post.len() == n - 1
                    &&& n == 1 ==> post == pre.drop_last()
                    &&& n >= 2 ==> {
                        &&& post.take(n - 2) == pre.take(n - 2)
                        &&& exists|id: EntityId|
                            #[trigger] attach_post(pre[n - 2], post[n - 2], id)
                    }
                },
                Some(StateTransition::Push(k)) => {
                    &&& post.len() == n + 1
                    &&& post.take(n) == pre.update(n - 1, m1)
                    &&& exists|base: SceneModel, id: EntityId|
                        #[trigger] attach_post(base, post[n], id) && kind_post(k, base)
                },
            }
        }
}

impl Game {
    /// The stack as a sequence of scene models, bottom first.
    pub open spec fn models(self) -> Seq<SceneModel> {
        self.stack@.map_values(|s: Scene| s@)
    }

    pub open spec fn wf(self) -> bool {
        forall|i: int| 0 <= i < self.models().len() ==> (#[trigger] self.models()[i]).wf()
    }

    /// A fresh game: the menu scene with the overlay attached, alone on
    /// the stack.
    pub fn new(now: u64) -> (g: Game)
        ensures
            g.wf(),
            g.models().len() == 1,
            g.overlay.last_frame == now,
            exists|base: SceneModel, id: EntityId|
                #[trigger] attach_post(base, g.models()[0], id) && crate::scene::menu_post(base),
    {
        let mut menu = Scene::menu();
        let mut overlay = Overlay::new(now);
        let ghost base = menu@;
        let _ = overlay.attach(&mut menu, now);
        let mut stack: Vec<Scene> = Vec::new();
        stack.push(menu);
        let g = Game { stack, overlay, emitter: ParticleSystem::new() };
        proof {
            assert(g.models()[0] == g.stack@[0]@);
        }
        g
    }

    /// Run the interaction system against the active scene; a no-op on an
    /// empty stack.
    pub fn update_input(&mut self)
        requires
            old(self).wf(),
        ensures
            final (self).wf(),
            final (self).overlay == old(self).overlay,
            old(self).models().len() == 0 ==> final (self).models() == old(self).models(),
            old(self).models().len() > 0 ==> final (self).models() == old(self).models().update(
                old(self).models().len() - 1,
                spec_interact(old(self).models().last()),
            ),
    {
        match self.stack.pop() {
            Some(mut scene) => {
                crate::interact::update_input(&mut scene);
                self.stack.push(scene);
                proof {
                    assert(self.models() =~= old(self).models().update(
                        old(self).models().len() - 1,
                        spec_interact(old(self).models().last()),
                    ));
                }
            },
            None => {},
        }
    }

    /// Route a key event to the active scene: the directional keys update
    /// the held state, a pressed escape requests a pop.
    pub fn key_event(&mut self, key: GameKey, pressed: bool)
        requires
            old(self).wf(),
        ensures
            final (self).wf(),
            final (self).overlay == old(self).overlay,
            old(self).models().len() == 0 ==> final (self).models() == old(self).models(),
            old(self).models().len() > 0 ==> final (self).models() == old(self).models().update(
                old(self).models().len() - 1,
                key_event_model(old(self).models().last(), key, pressed),
            ),
    {
        match self.stack.pop() {
            Some(mut scene) => {
                match key {
                    GameKey::W => scene.input.set_key(Key::W, pressed),
                    GameKey::A => scene.input.set_key(Key::A, pressed),
                    GameKey::S => scene.input.set_key(Key::S, pressed),
                    GameKey::D => scene.input.set_key(Key::D, pressed),
                    GameKey::Escape => if pressed {
                        scene.transition = Some(StateTransition::Pop);
                    },
                    GameKey::Other => {},
                }
                self.stack.push(scene);
                proof {
                    assert(self.models() =~= old(self).models().update(
                        old(self).models().len() - 1,
                        key_event_model(old(self).models().last(), key, pressed),
                    ));
                }
            },
            None => {},
        }
    }

    /// Route a pointer move to the active scene.
    pub fn mouse_movement(&mut self, x: i32, y: i32)
        requires
            old(self).wf(),
        ensures
            final (self).wf(),
            final (self).overlay == old(self).overlay,
            old(self).models().len() == 0 ==> final (self).models() == old(self).models(),
            old(self).models().len() > 0 ==> final (self).models() == old(self).models().update(
                old(self).models().len() - 1,
                ({
                    let m = old(self).models().last();
                    SceneModel { input: Input { mouse: Mouse { x, y, ..m.input.mouse }, ..m.input }, ..m }
                }),
            ),
    {
        match self.stack.pop() {
            Some(mut scene) => {
                scene.input.set_pointer(x, y);
                self.stack.push(scene);
                proof {
                    let m = old(self).models().last();
                    assert(self.models() =~= old(self).models().update(
                        old(self).models().len() - 1,
                        SceneModel {
                            input: Input { mouse: Mouse { x, y, ..m.input.mouse }, ..m.input },
                            ..m
                        },
                    ));
                }
            },
            None => {},
        }
    }

    /// Route a left-button event to the active scene: a press raises the
    /// edge flag and the held flag, a release clears only the held flag.
    pub fn mouse_button_down_event(&mut self, left: bool, pressed: bool)
        requires
            old(self).wf(),
        ensures
            final (self).wf(),
            final (self).overlay == old(self).overlay,
            old(self).models().len() == 0 || !left ==> final (self).models() == old(self).models(),
            old(self).models().len() > 0 && left ==> final (self).models() == old(self).models().update(
                old(self).models().len() - 1,
                ({
                    let m = old(self).models().last();
                    let mo = if pressed {
                        Mouse { left_tap: true, left_down: true, ..m.input.mouse }
                    } else {
                        Mouse { left_down: false, ..m.input.mouse }
                    };
                    SceneModel { input: Input { mouse: mo, ..m.input }, ..m }
                }),
            ),
    {
        if !left {
            return ;
        }
        match self.stack.pop() {
            Some(mut scene) => {
                if pressed {
                    scene.input.press_left();
                } else {
                    scene.input.release_left();
                }
                self.stack.push(scene);
                proof {
                    let m = old(self).models().last();
                    let mo = if pressed {
                        Mouse { left_tap: true, left_down: true, ..m.input.mouse }
                    } else {
                        Mouse { left_down: false, ..m.input.mouse }
                    };
                    assert(self.models() =~= old(self).models().update(
                        old(self).models().len() - 1,
                        SceneModel { input: Input { mouse: mo, ..m.input }, ..m },
                    ));
                }
            },
            None => {},
        }
    }

    /// One full tick of the active scene, then apply the transition it
    /// produced.  Returns the exit signal: the stack was already empty.
    pub fn update(&mut self, now: u64) -> (exit: bool)
        requires
            old(self).wf(),
        ensures
            final (self).wf(),
            exit == (old(self).models().len() == 0),
            old(self).models().len() == 0 ==> final (self).models() == old(self).models()
                && final (self).overlay == old(self).overlay,
            old(self).models().len() > 0 ==> tick_outcome(
                old(self).models(),
                final (self).models(),
                old(self).overlay.last_frame,
                now,
            ) && final (self).overlay.last_frame == now,
    {
        let ghost pre = old(self).models();
        let mut scene = match self.stack.pop() {
            Some(s) => s,
            None => {
                return true;
            },
        };
        proof {
            assert(scene@ == pre[pre.len() - 1]);
            assert(pre[pre.len() - 1].wf());
        }
        crate::interact::update_input(&mut scene);
        crate::pipeline::run_systems(&mut scene, &mut self.emitter);
        let ghost sb = scene@;
        self.overlay.run(&mut scene, now);
        let ghost sc = scene@;
        let t = scene.transition;
        scene.transition = None;
        proof {
            assert(scene@ == (SceneModel { transition: None, ..sc }));
        }
        scene.maintain();
        let ghost m1 = scene@;
        self.stack.push(scene);
        proof {
            assert(tick_rel(pre[pre.len() - 1], m1, t, old(self).overlay.last_frame, now));
            assert(self.models() =~= pre.update(pre.len() - 1, m1));
        }
        match t {
            None => {},
            Some(StateTransition::Pop) => {
                self.stack.pop();
                proof {
                    assert(self.models() =~= pre.drop_last());
                }
                match self.stack.pop() {
                    Some(mut exposed) => {
                        proof {
                            assert(exposed@ == pre[pre.len() - 2]);
                            assert(pre[pre.len() - 2].wf());
                        }
                        let oid = self.overlay.attach(&mut exposed, now);
                        self.stack.push(exposed);
                        proof {
                            assert(self.models().take(pre.len() - 2) =~= pre.take(
                                pre.len() - 2,
                            ));
                            assert(self.models()[pre.len() - 2] == self.stack@[pre.len() - 2]@);
                            assert(attach_post(
                                pre[pre.len() - 2],
                                self.models()[pre.len() - 2],
                                oid,
                            ));
                            assert(self.models()[pre.len() - 2].wf());
                        }
                    },
                    None => {},
                }
            },
            Some(StateTransition::Push(kind)) => {
                let mut fresh = Scene::from_kind(kind);
                let ghost base = fresh@;
                let _ = self.overlay.attach(&mut fresh, now);
                self.stack.push(fresh);
                proof {
                    assert(self.models().take(pre.len() as int) =~= pre.update(
                        pre.len() - 1,
                        m1,
                    ));
                    assert(self.models()[pre.len() as int] == self.stack@[pre.len() as int]@);
                }
            },
        }
        proof {
            let n = pre.len() as int;
            assert forall|i: int| 0 <= i < self.models().len() implies (
            #[trigger] self.models()[i]).wf() by {
                match t {
                    None => {
                        if i < n - 1 {
                            assert(self.models()[i] == pre[i]);
                            assert(pre[i].wf());
                        }
                    },
                    Some(StateTransition::Pop) => {
                        if pre.len() >= 2 && i < n - 2 {
                            assert(self.models()[i] == self.models().take(n - 2)[i]);
                            assert(self.models()[i] == pre[i]);
                            assert(pre[i].wf());
                        }
                    },
                    Some(StateTransition::Push(_)) => {
                        if i < n - 1 {
                            assert(self.models()[i] == self.models().take(n)[i]);
                            assert(self.models()[i] == pre[i]);
                            assert(pre[i].wf());
                        } else if i == n - 1 {
                            assert(self.models()[i] == self.models().take(n)[i]);
                        }
                    },
                }
            }
        }
        false
    }
}

/// A pending transition is surfaced exactly once: the tick hands it to
/// the stack manager and leaves the scene's slot empty, so no later
/// tick can surface the same request again.
pub proof fn lemma_transition_surfaced_once(
    m0: SceneModel,
    m1: SceneModel,
    t: Option<StateTransition>,
    lf: u64,
    now: u64,
)
    requires
        tick_rel(m0, m1, t, lf, now),
    ensures
        m1.transition is None,
{
    let (sb, sc) = choose|sb: SceneModel, sc: SceneModel|
        {
            &&& #[trigger] systems_rel(spec_interact(m0), sb)
            &&& #[trigger] refresh_rel(sb, sc, fps_of(lf, now))
            &&& t == sc.transition
            &&& m1 == spec_maintain(SceneModel { transition: None, ..sc })
        };
}

/// Pipeline skip: when the interaction system raises a transition
/// during a tick, the physics system's writes are observably absent —
/// every rectangle ends the tick exactly where it started (interaction
/// itself also skips cursor tracking once a transition is raised, and a
/// tick with nothing queued maintains nothing into the rectangles).
pub proof fn lemma_pipeline_skip(
    m0: SceneModel,
    m1: SceneModel,
    t: Option<StateTransition>,
    lf: u64,
    now: u64,
) -> (raised: Option<StateTransition>)
    requires
        m0.wf(),
        m0.rects.pending.len() == 0,
        crate::interact::first_hover_trans(m0) is Some || (m0.input.mouse.left_tap
            && crate::interact::first_click_trans(crate::interact::spec_hover_pass(m0)) is Some),
        tick_rel(m0, m1, t, lf, now),
    ensures
        m1.rects.slots == m0.rects.slots,
        t is Some,
{
    let sa = spec_interact(m0);
    let (sb, sc) = choose|sb: SceneModel, sc: SceneModel|
        {
            &&& #[trigger] systems_rel(spec_interact(m0), sb)
            &&& #[trigger] refresh_rel(sb, sc, fps_of(lf, now))
            &&& t == sc.transition
            &&& m1 == spec_maintain(SceneModel { transition: None, ..sc })
        };
    if crate::interact::first_hover_trans(m0) is Some {
        crate::interact::lemma_first_hover_is_trans(m0, 0);
        assert(sa == crate::interact::spec_hover_pass(m0));
    } else {
        let h = crate::interact::spec_hover_pass(m0);
        crate::interact::lemma_first_click_is_trans(h, 0);
        assert(sa == crate::interact::spec_click_pass(h));
    }
    assert(sa.rects == m0.rects);
    assert(sa.transition is Some);
    assert(sb == sa);
    assert(sc.rects == sb.rects);
    assert(m1.rects.slots == crate::store::apply_pending(
        sc.reg,
        sc.rects.slots,
        sc.rects.pending,
    ));
    t
}

} // verus!
