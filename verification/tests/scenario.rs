use scene_core::components::{Cursor, Effect, Hover, OnClick, Player, Rect, RectColor, Rotation,
    SceneKind, Vel};
use scene_core::game::{Game, GameKey};
use scene_core::overlay::Overlay;
use scene_core::scene::Scene;
use scene_core::systems::ParticleSystem;

/// A stack holding the given scene alone, with the overlay bound to it.
fn game_with(mut scene: Scene) -> Game {
    let mut overlay = Overlay::new(0);
    overlay.attach(&mut scene, 0);
    Game { stack: vec![scene], overlay, emitter: ParticleSystem::new() }
}

#[test]
fn button_click_pushes_level_scene() {
    // One button entity, plus a cursor entity tracking the pointer.
    let mut s = Scene::empty();
    let cursor = s.spawn();
    s.insert_cursor(cursor, Cursor).unwrap();
    s.insert_rect(cursor, Rect { x: 0, y: 0, w: 5, h: 5 }).unwrap();
    let button = s.spawn();
    s.insert_rect(button, Rect { x: 710, y: 200, w: 100, h: 50 }).unwrap();
    s.insert_color(button, RectColor { r: 255, g: 0, b: 0, a: 255 }).unwrap();
    s.insert_hover(
        button,
        Hover::new(Effect::SetColorRgb(255, 255, 255), Effect::SetColorRgb(255, 0, 0)),
    )
    .unwrap();
    s.insert_click(button, OnClick { effect: Effect::Push(SceneKind::Level) }).unwrap();
    let mut g = game_with(s);

    // Pointer moves over the button: the next tick enters the hover and
    // the recolor effect fires.
    g.mouse_movement(750, 210);
    assert!(!g.update(1));
    let top = g.stack.last().unwrap();
    let c = top.get_color(button).unwrap().unwrap();
    assert_eq!((c.r, c.g, c.b), (255, 255, 255));
    assert!(top.get_hover(button).unwrap().unwrap().hovering);
    assert_eq!(g.stack.len(), 1);

    // Press: the next tick fires the click, records the push, skips the
    // pipeline, and the stack grows from 1 to 2 scenes.
    g.mouse_button_down_event(true, true);
    assert!(!g.update(2));
    assert_eq!(g.stack.len(), 2);
    let level = g.stack.last().unwrap();
    // The pushed scene is the level: player, cursor, two drifting
    // rectangles, plus the overlay entity re-bound to it.
    assert_eq!(level.capacity(), 5);
    let fps_count = (0..level.fps_tags.slots.len())
        .filter(|&j| level.fps_tags.slots[j].is_some())
        .count();
    assert_eq!(fps_count, 1);
    let player_count = (0..level.players.slots.len())
        .filter(|&j| level.players.slots[j].is_some())
        .count();
    assert_eq!(player_count, 1);
}

#[test]
fn pipeline_skipped_when_transition_fires() {
    // A hover effect raises a transition while another entity is moving:
    // the physics write must be observably absent for that tick.
    let mut s = Scene::empty();
    let trigger = s.spawn();
    s.insert_rect(trigger, Rect { x: 0, y: 0, w: 10, h: 10 }).unwrap();
    s.insert_hover(trigger, Hover::new(Effect::Push(SceneKind::Level), Effect::Keep)).unwrap();
    let mover = s.spawn();
    s.insert_rect(mover, Rect { x: 0, y: 0, w: 4, h: 4 }).unwrap();
    s.insert_vel(mover, Vel { x: 7, y: 0 }).unwrap();
    let mut g = game_with(s);
    g.mouse_movement(5, 5);
    assert!(!g.update(1));
    assert_eq!(g.stack.len(), 2);
    let old_scene = &g.stack[0];
    let r = old_scene.get_rect(mover).unwrap().unwrap();
    assert_eq!((r.x, r.y), (0, 0));

    // Without a transition the same scene does integrate.
    let mut s2 = Scene::empty();
    let mover2 = s2.spawn();
    s2.insert_rect(mover2, Rect { x: 0, y: 0, w: 4, h: 4 }).unwrap();
    s2.insert_vel(mover2, Vel { x: 7, y: 0 }).unwrap();
    let mut g2 = game_with(s2);
    assert!(!g2.update(1));
    let r2 = g2.stack[0].get_rect(mover2).unwrap().unwrap();
    assert_eq!((r2.x, r2.y), (7, 0));
}

#[test]
fn held_button_emits_one_particle_per_tick() {
    // Player centered at (100, 100), held for three consecutive ticks
    // with no movement: exactly three descriptors, drained once each.
    let mut s = Scene::empty();
    let p = s.spawn();
    s.insert_player(p, Player).unwrap();
    s.insert_rect(p, Rect { x: 88, y: 88, w: 25, h: 25 }).unwrap();
    s.insert_rot(p, Rotation { dx: 1, dy: 0 }).unwrap();
    s.insert_vel(p, Vel { x: 0, y: 0 }).unwrap();
    let mut g = game_with(s);
    g.mouse_button_down_event(true, true);
    assert!(!g.update(1));
    assert!(!g.update(2));
    assert!(!g.update(3));
    let top = g.stack.last_mut().unwrap();
    assert_eq!(top.engine.particles.len(), 3);
    for q in &top.engine.particles {
        assert_eq!((q.x, q.y), (100, 100));
    }
    let drained = top.engine.drain();
    assert_eq!(drained.len(), 3);
    assert_eq!(top.engine.drain().len(), 0);
}

#[test]
fn escape_pops_the_active_scene() {
    let mut g = game_with(Scene::empty());
    g.key_event(GameKey::Escape, true);
    assert!(!g.update(1));
    assert_eq!(g.stack.len(), 0);
    // An empty stack signals that the application should exit.
    assert!(g.update(2));
}

#[test]
fn menu_scene_holds_cursor_and_button() {
    let s = Scene::from_kind(SceneKind::Menu);
    assert_eq!(s.capacity(), 2);
    assert!(s.cursors.slots[0].is_some());
    assert_eq!(
        s.clicks.slots[1].as_ref().map(|c| c.effect),
        Some(Effect::Push(SceneKind::Level))
    );
    assert_eq!(s.texts.slots[1].as_ref().unwrap().text, b"Levelp".to_vec());
    assert_eq!(s.rects.slots[1], Some(Rect { x: 860, y: 200, w: 100, h: 50 }));
}

#[test]
fn pending_press_survives_hover_transition() {
    // A hover transition pre-empts the click pass, so the edge flag is
    // left pending for the scene it belongs to.
    let mut s = Scene::empty();
    let trigger = s.spawn();
    s.insert_rect(trigger, Rect { x: 0, y: 0, w: 10, h: 10 }).unwrap();
    s.insert_hover(trigger, Hover::new(Effect::Push(SceneKind::Level), Effect::Keep)).unwrap();
    let mut g = game_with(s);
    g.mouse_movement(5, 5);
    g.mouse_button_down_event(true, true);
    assert!(!g.update(1));
    assert_eq!(g.stack.len(), 2);
    assert!(g.stack[0].input.mouse.left_tap);
}

#[test]
fn level_scene_holds_four_entities() {
    let s = Scene::from_kind(SceneKind::Level);
    assert_eq!(s.capacity(), 4);
    assert!(s.players.slots[0].is_some());
    assert_eq!(s.rots.slots[0], Some(Rotation { dx: 1, dy: 0 }));
    assert!(s.cursors.slots[1].is_some());
    assert_eq!(s.vels.slots[2], Some(Vel { x: 1, y: 0 }));
    assert_eq!(s.vels.slots[3], Some(Vel { x: 0, y: 2 }));
}

#[test]
fn game_update_input_runs_interaction_on_top_scene() {
    let mut s = Scene::empty();
    let e = s.spawn();
    s.insert_cursor(e, Cursor).unwrap();
    s.insert_rect(e, Rect { x: 0, y: 0, w: 8, h: 8 }).unwrap();
    let mut g = game_with(s);
    g.mouse_movement(50, 60);
    g.update_input();
    let r = g.stack.last().unwrap().get_rect(e).unwrap().unwrap();
    assert_eq!((r.x, r.y), (46, 56));
}

#[test]
fn pop_rebinds_overlay_to_exposed_scene() {
    // The overlay is re-attached on every transition: after a pop, the
    // exposed scene gains a fresh readout entity and the frame clock is
    // restarted at the tick's timestamp.
    let mut bottom = Scene::empty();
    let mut overlay = Overlay::new(0);
    overlay.attach(&mut bottom, 0);
    let top = Scene::empty();
    let mut g = Game { stack: vec![bottom, top], overlay, emitter: ParticleSystem::new() };
    g.key_event(GameKey::Escape, true);
    assert!(!g.update(9));
    assert_eq!(g.stack.len(), 1);
    let exposed = g.stack.last().unwrap();
    let fps_count = (0..exposed.fps_tags.slots.len())
        .filter(|&j| exposed.fps_tags.slots[j].is_some())
        .count();
    assert_eq!(fps_count, 2);
    assert_eq!(g.overlay.last_frame, 9);
}
