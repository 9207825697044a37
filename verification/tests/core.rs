use scene_core::components::{Cursor, Effect, Hover, OnClick, Player, Rect, RectColor, Rotation, Vel};
use scene_core::input::Key;
use scene_core::interact::update_input;
use scene_core::overlay::{u64_digits, Overlay};
use scene_core::particles::{Particle, ParticleEngine, RingBuffer};
use scene_core::physics::physics_run;
use scene_core::scene::Scene;
use scene_core::store::StoreError;
use scene_core::systems::{isqrt64, scaled_dir, ParticleSystem};
use scene_core::MAX_PARTICLES;

/// A scene holding one entity with a rectangle, a fill color and a hover
/// behavior that recolors on enter and on leave.
fn hover_scene() -> (Scene, scene_core::store::EntityId) {
    let mut s = Scene::empty();
    let e = s.spawn();
    s.insert_rect(e, Rect { x: 10, y: 10, w: 20, h: 20 }).unwrap();
    s.insert_color(e, RectColor { r: 200, g: 0, b: 0, a: 255 }).unwrap();
    s.insert_hover(e, Hover::new(Effect::SetColorRgb(1, 2, 3), Effect::SetColorRgb(9, 9, 9)))
        .unwrap();
    (s, e)
}

#[test]
fn hover_enter_fires_exactly_once() {
    let (mut s, e) = hover_scene();
    s.input.set_pointer(15, 15);
    update_input(&mut s);
    let c = s.get_color(e).unwrap().unwrap();
    assert_eq!((c.r, c.g, c.b, c.a), (1, 2, 3, 255));
    assert!(s.get_hover(e).unwrap().unwrap().hovering);
    // Repeat the tick with the pointer still inside: the enter effect
    // must not fire again.
    s.insert_color(e, RectColor { r: 77, g: 77, b: 77, a: 255 }).unwrap();
    update_input(&mut s);
    let c = s.get_color(e).unwrap().unwrap();
    assert_eq!((c.r, c.g, c.b), (77, 77, 77));
    assert!(s.get_hover(e).unwrap().unwrap().hovering);
}

#[test]
fn hover_leave_fires_exactly_once() {
    let (mut s, e) = hover_scene();
    s.input.set_pointer(15, 15);
    update_input(&mut s);
    s.input.set_pointer(500, 500);
    update_input(&mut s);
    let c = s.get_color(e).unwrap().unwrap();
    assert_eq!((c.r, c.g, c.b), (9, 9, 9));
    assert!(!s.get_hover(e).unwrap().unwrap().hovering);
    // Stay outside for two more ticks: nothing fires again.
    s.insert_color(e, RectColor { r: 55, g: 55, b: 55, a: 255 }).unwrap();
    update_input(&mut s);
    update_input(&mut s);
    let c = s.get_color(e).unwrap().unwrap();
    assert_eq!((c.r, c.g, c.b), (55, 55, 55));
}

#[test]
fn inclusive_bounds_containment() {
    let r = Rect::new(10, 20, 30, 40);
    assert!(r.contains(10, 20));
    assert!(r.contains(40, 60));
    assert!(!r.contains(9, 20));
    assert!(!r.contains(41, 60));
    assert_eq!(r.get_center(), (25, 40));
}

#[test]
fn press_evaluated_at_most_once() {
    let mut s = Scene::empty();
    let e = s.spawn();
    s.insert_rect(e, Rect { x: 0, y: 0, w: 100, h: 100 }).unwrap();
    s.insert_color(e, RectColor { r: 200, g: 0, b: 0, a: 255 }).unwrap();
    s.insert_click(e, OnClick { effect: Effect::SetColorRgb(4, 5, 6) }).unwrap();
    s.input.set_pointer(50, 50);
    // Press once, then hold the button over three ticks before releasing:
    // exactly one click evaluation happens.
    s.input.press_left();
    update_input(&mut s);
    let c = s.get_color(e).unwrap().unwrap();
    assert_eq!((c.r, c.g, c.b), (4, 5, 6));
    assert!(!s.input.mouse.left_tap);
    assert!(s.input.mouse.left_down);
    s.insert_color(e, RectColor { r: 200, g: 0, b: 0, a: 255 }).unwrap();
    update_input(&mut s);
    update_input(&mut s);
    s.input.release_left();
    update_input(&mut s);
    let c = s.get_color(e).unwrap().unwrap();
    assert_eq!((c.r, c.g, c.b), (200, 0, 0));
}

#[test]
fn physics_integration_is_additive() {
    let mut s = Scene::empty();
    let e = s.spawn();
    s.insert_rect(e, Rect { x: 0, y: 0, w: 4, h: 4 }).unwrap();
    s.insert_vel(e, Vel { x: 1, y: 0 }).unwrap();
    for _ in 0..5 {
        physics_run(&mut s);
    }
    let r = s.get_rect(e).unwrap().unwrap();
    assert_eq!(r.x, 5);
    assert_eq!(r.y, 0);
}

#[test]
fn ring_buffer_wraparound_keeps_most_recent() {
    let mut b = RingBuffer::new();
    let k = 3usize;
    let total = MAX_PARTICLES + k;
    let mut batch: Vec<Particle> = Vec::with_capacity(total);
    for i in 0..total {
        let mut p = Particle::zeroed();
        p.x = i as i32;
        batch.push(p);
    }
    b.write_all(&batch);
    // The buffer holds exactly the most recent MAX_PARTICLES descriptors
    // in emission order, starting at the cursor (the oldest slot).
    assert_eq!(b.next, k);
    for i in 0..MAX_PARTICLES {
        let pos = (b.next + i) % MAX_PARTICLES;
        assert_eq!(b.slots[pos].x, (k + i) as i32);
    }
}

#[test]
fn particle_queue_delivers_exactly_once() {
    let mut e = ParticleEngine::new();
    for i in 0..4 {
        let mut p = Particle::zeroed();
        p.x = i;
        e.create_particle(p);
    }
    let drained = e.drain();
    assert_eq!(drained.len(), 4);
    for (i, p) in drained.iter().enumerate() {
        assert_eq!(p.x, i as i32);
    }
    assert_eq!(e.drain().len(), 0);
}

#[test]
fn stale_entity_access_fails() {
    let mut s = Scene::empty();
    let e = s.spawn();
    s.insert_rect(e, Rect { x: 1, y: 2, w: 3, h: 4 }).unwrap();
    s.destroy(e).unwrap();
    assert_eq!(s.get_rect(e), Err(StoreError::StaleEntity));
    assert_eq!(s.insert_rect(e, Rect { x: 0, y: 0, w: 0, h: 0 }), Err(StoreError::StaleEntity));
    assert_eq!(s.destroy(e), Err(StoreError::StaleEntity));
}

#[test]
fn generation_tag_detects_reuse() {
    let mut s = Scene::empty();
    let a = s.spawn();
    s.insert_rect(a, Rect { x: 7, y: 7, w: 7, h: 7 }).unwrap();
    s.destroy(a).unwrap();
    let b = s.spawn();
    // The slot is reused under a new generation: the old id stays stale
    // and none of its components leak into the new entity.
    assert_eq!(a.idx, b.idx);
    assert_ne!(a.gen, b.gen);
    assert!(!s.is_live(a));
    assert!(s.is_live(b));
    assert_eq!(s.get_rect(b).unwrap(), None);
    assert_eq!(s.get_rect(a), Err(StoreError::StaleEntity));
}

#[test]
fn deferred_insert_visible_only_after_maintain() {
    let mut s = Scene::empty();
    let e = s.spawn();
    s.defer_rect(e, Rect { x: 9, y: 9, w: 9, h: 9 });
    assert_eq!(s.get_rect(e).unwrap(), None);
    update_input(&mut s);
    assert_eq!(s.get_rect(e).unwrap(), None);
    s.maintain();
    assert_eq!(s.get_rect(e).unwrap(), Some(Rect { x: 9, y: 9, w: 9, h: 9 }));
}

#[test]
fn deferred_insert_for_destroyed_entity_is_dropped() {
    let mut s = Scene::empty();
    let e = s.spawn();
    let keep = s.spawn();
    s.defer_rect(e, Rect { x: 1, y: 1, w: 1, h: 1 });
    s.defer_rect(keep, Rect { x: 2, y: 2, w: 2, h: 2 });
    s.destroy(e).unwrap();
    s.maintain();
    assert_eq!(s.get_rect(e), Err(StoreError::StaleEntity));
    assert_eq!(s.get_rect(keep).unwrap(), Some(Rect { x: 2, y: 2, w: 2, h: 2 }));
}

#[test]
fn cursor_rect_tracks_pointer_centered() {
    let mut s = Scene::empty();
    let e = s.spawn();
    s.insert_cursor(e, Cursor).unwrap();
    s.insert_rect(e, Rect { x: 0, y: 0, w: 5, h: 5 }).unwrap();
    s.input.set_pointer(100, 200);
    update_input(&mut s);
    let r = s.get_rect(e).unwrap().unwrap();
    assert_eq!((r.x, r.y), (98, 198));
}

#[test]
fn held_keys_dictate_player_velocity() {
    let mut s = Scene::empty();
    let e = s.spawn();
    s.insert_player(e, Player).unwrap();
    s.insert_vel(e, Vel { x: 3, y: 3 }).unwrap();
    s.input.set_key(Key::W, true);
    s.input.set_key(Key::D, true);
    update_input(&mut s);
    assert_eq!(s.get_vel(e).unwrap(), Some(Vel { x: 5, y: -5 }));
    // Opposing keys override each other: down and right win.
    s.input.set_key(Key::S, true);
    update_input(&mut s);
    assert_eq!(s.get_vel(e).unwrap(), Some(Vel { x: 5, y: 5 }));
    // No key held zeroes the axis.
    s.input.set_key(Key::W, false);
    s.input.set_key(Key::S, false);
    s.input.set_key(Key::D, false);
    update_input(&mut s);
    assert_eq!(s.get_vel(e).unwrap(), Some(Vel { x: 0, y: 0 }));
}

#[test]
fn facing_points_from_player_to_cursor() {
    let mut s = Scene::empty();
    let p = s.spawn();
    s.insert_player(p, Player).unwrap();
    s.insert_rect(p, Rect { x: 0, y: 0, w: 10, h: 10 }).unwrap();
    s.insert_rot(p, Rotation { dx: 1, dy: 0 }).unwrap();
    let c = s.spawn();
    s.insert_cursor(c, Cursor).unwrap();
    s.insert_rect(c, Rect { x: 100, y: 40, w: 10, h: 10 }).unwrap();
    physics_run(&mut s);
    // Player center (5, 5), cursor center (105, 45).
    assert_eq!(s.get_rot(p).unwrap(), Some(Rotation { dx: 100, dy: 40 }));
}

#[test]
fn integer_square_root_exact() {
    assert_eq!(isqrt64(0), 0);
    assert_eq!(isqrt64(1), 1);
    assert_eq!(isqrt64(24), 4);
    assert_eq!(isqrt64(25), 5);
    assert_eq!(isqrt64(26), 5);
    assert_eq!(isqrt64(u64::MAX), 4294967295);
}

#[test]
fn scaled_direction_values() {
    assert_eq!(scaled_dir(0, 0, 5), (5, 0));
    assert_eq!(scaled_dir(1, 0, 5), (5, 0));
    assert_eq!(scaled_dir(0, 1, 5), (0, 5));
    assert_eq!(scaled_dir(3, 4, 5), (3, 4));
    assert_eq!(scaled_dir(-3, -4, 5), (-3, -4));
    assert_eq!(scaled_dir(1, 1, 5), (5, 5));
}

#[test]
fn decimal_digits_render() {
    assert_eq!(u64_digits(0), b"0".to_vec());
    assert_eq!(u64_digits(7), b"7".to_vec());
    assert_eq!(u64_digits(1234), b"1234".to_vec());
    assert_eq!(u64_digits(1000000000), b"1000000000".to_vec());
}

#[test]
fn overlay_writes_frame_rate_digits() {
    let mut s = Scene::empty();
    let mut overlay = Overlay::new(0);
    let id = overlay.attach(&mut s, 0);
    assert!(s.get_fps(id).unwrap().is_some());
    overlay.run(&mut s, 500_000_000);
    let t = s.get_text(id).unwrap().unwrap();
    assert_eq!(t.text, b"2".to_vec());
    assert_eq!(overlay.last_frame, 500_000_000);
}

#[test]
fn emitted_particles_match_contract() {
    let mut s = Scene::empty();
    let p = s.spawn();
    s.insert_player(p, Player).unwrap();
    s.insert_rect(p, Rect { x: 88, y: 88, w: 25, h: 25 }).unwrap();
    s.insert_rot(p, Rotation { dx: 1, dy: 0 }).unwrap();
    s.input.press_left();
    let mut emitter = ParticleSystem::new();
    emitter.run(&mut s);
    assert_eq!(s.engine.particles.len(), 1);
    let q = &s.engine.particles[0];
    // Fired from the player's center along its facing, give or take the
    // random perturbation of one pixel per axis.
    assert_eq!((q.x, q.y), (100, 100));
    assert!((4..=6).contains(&q.vx));
    assert!((-1..=1).contains(&q.vy));
    assert_eq!((q.w, q.h), (4, 4));
    assert_eq!((q.ax, q.ay), (0, 0));
    assert_eq!(q.life, 1200);
    assert_eq!(q.color.a, 255);
    // Button not held: nothing is emitted.
    s.input.release_left();
    emitter.run(&mut s);
    assert_eq!(s.engine.particles.len(), 1);
}

#[test]
fn remove_takes_component_away() {
    let mut s = Scene::empty();
    let e = s.spawn();
    s.insert_vel(e, Vel { x: 1, y: 2 }).unwrap();
    assert_eq!(s.get_vel(e).unwrap(), Some(Vel { x: 1, y: 2 }));
    s.remove_vel(e).unwrap();
    assert_eq!(s.get_vel(e).unwrap(), None);
}

#[test]
fn hover_without_color_is_a_silent_no_op() {
    let mut s = Scene::empty();
    let e = s.spawn();
    s.insert_rect(e, Rect { x: 0, y: 0, w: 10, h: 10 }).unwrap();
    s.insert_hover(e, Hover::new(Effect::SetColorRgb(1, 2, 3), Effect::Keep)).unwrap();
    s.input.set_pointer(5, 5);
    update_input(&mut s);
    assert!(s.get_hover(e).unwrap().unwrap().hovering);
    assert_eq!(s.get_color(e).unwrap(), None);
}

#[test]
fn empty_scene_tick_is_a_no_op() {
    let mut s = Scene::empty();
    update_input(&mut s);
    physics_run(&mut s);
    s.maintain();
    assert_eq!(s.capacity(), 0);
    assert!(s.transition.is_none());
}

#[test]
fn ring_buffer_batches_compose() {
    let mut split = RingBuffer::new();
    let mut whole = RingBuffer::new();
    let mut first: Vec<Particle> = Vec::new();
    let mut second: Vec<Particle> = Vec::new();
    let mut all: Vec<Particle> = Vec::new();
    for i in 0..40 {
        let mut p = Particle::zeroed();
        p.y = i;
        if i < 15 {
            first.push(p);
        } else {
            second.push(p);
        }
        all.push(p);
    }
    split.write_all(&first);
    split.write_all(&second);
    whole.write_all(&all);
    assert_eq!(split.next, whole.next);
    assert_eq!(split.slots, whole.slots);
}

#[test]
fn consume_moves_queue_into_ring() {
    let mut e = ParticleEngine::new();
    for i in 0..5 {
        let mut p = Particle::zeroed();
        p.x = 100 + i;
        e.create_particle(p);
    }
    let mut b = RingBuffer::new();
    b.consume(&mut e);
    assert_eq!(e.particles.len(), 0);
    assert_eq!(b.next, 5);
    for i in 0..5 {
        assert_eq!(b.slots[i].x, 100 + i as i32);
    }
}
