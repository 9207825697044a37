//! Component value types stored per entity, plus the scene-transition
//! request that interaction effects can raise.
//!
//! All quantities are integers: positions and velocities are pixel counts,
//! colors are 8-bit channels.  Angles are kept as the facing vector they
//! are derived from; turning that vector into radians is floating-point
//! work owned by the render layer.

use vstd::prelude::*;

verus! {

/// Axis-aligned bounding rectangle; `x`, `y` is the top-left corner.
#[derive(Clone, Copy, PartialEq, Eq, Structural, Debug)]
pub struct Rect {
    pub x: i32,
    pub y: i32,
    pub w: u32,
    pub h: u32,
}

/// Center abscissa of a rectangle, saturated to coordinate range.
pub open spec fn rect_center_x(r: Rect) -> int {
    crate::clip(r.x + r.w / 2)
}

/// Center ordinate of a rectangle, saturated to coordinate range.
pub open spec fn rect_center_y(r: Rect) -> int {
    crate::clip(r.y + r.h / 2)
}

/// Inclusive-bounds pointer containment test.
pub open spec fn spec_inside(r: Rect, px: int, py: int) -> bool {
    &&& r.x <= px
    &&& px <= r.x + r.w
    &&& r.y <= py
    &&& py <= r.y + r.h
}

impl Rect {
    pub fn new(x: i32, y: i32, w: u32, h: u32) -> (r: Self)
        ensures
            r == (Rect { x, y, w, h }),
    {
        Rect { x, y, w, h }
    }

    /// Center of the rectangle, saturated to coordinate range.
    pub fn get_center(&self) -> (c: (i32, i32))
        ensures
            c.0 as int == rect_center_x(*self),
            c.1 as int == rect_center_y(*self),
    {
        let cx = crate::clip_i64(self.x as i64 + (self.w / 2) as i64);
        let cy = crate::clip_i64(self.y as i64 + (self.h / 2) as i64);
        (cx, cy)
    }

    /// Inclusive-bounds containment of the point `(px, py)`.
    pub fn contains(&self, px: i32, py: i32) -> (b: bool)
        ensures
            b == spec_inside(*self, px as int, py as int),
    {
        let x = self.x as i64;
        let y = self.y as i64;
        px as i64 >= x && px as i64 <= x + self.w as i64 && py as i64 >= y && py as i64 <= y
            + self.h as i64
    }
}

/// Fill color, four 8-bit channels.
#[derive(Clone, Copy, PartialEq, Eq, Structural, Debug)]
pub struct RectColor {
    pub r: u8,
    pub g: u8,
    pub b: u8,
    pub a: u8,
}

impl RectColor {
    pub fn new(r: u8, g: u8, b: u8, a: u8) -> (c: Self)
        ensures
            c == (RectColor { r, g, b, a }),
    {
        RectColor { r, g, b, a }
    }
}

/// Per-tick velocity in pixels.
#[derive(Clone, Copy, PartialEq, Eq, Structural, Debug)]
pub struct Vel {
    pub x: i32,
    pub y: i32,
}

/// Facing direction of an entity, as the vector from its center toward the
/// tracked cursor.  The render layer derives the angle as `atan2(dy, dx)`.
#[derive(Clone, Copy, PartialEq, Eq, Structural, Debug)]
pub struct Rotation {
    pub dx: i32,
    pub dy: i32,
}

/// Marker for the player-controlled entity.
#[derive(Clone, Copy, PartialEq, Eq, Structural, Debug)]
pub struct Player;

/// Marker for the entity whose rectangle tracks the pointer.
#[derive(Clone, Copy, PartialEq, Eq, Structural, Debug)]
pub struct Cursor;

/// Marker for the frame-rate overlay entity.
#[derive(Clone, Copy, PartialEq, Eq, Structural, Debug)]
pub struct FPS;

/// A text label: ASCII bytes plus a scale and an anchor point.
#[derive(Clone)]
pub struct Text {
    pub text: Vec<u8>,
    pub scale: u32,
    pub loc_x: i32,
    pub loc_y: i32,
}

/// Which scene a push transition builds.
#[derive(Clone, Copy, PartialEq, Eq, Structural, Debug)]
pub enum SceneKind {
    Menu,
    Level,
}

/// Request to change the active scene, honored at the end of the tick.
#[derive(Clone, Copy, PartialEq, Eq, Structural, Debug)]
pub enum StateTransition {
    Push(SceneKind),
    Pop,
}

/// One of the fixed interaction effects a hover or click can raise.
#[derive(Clone, Copy, PartialEq, Eq, Structural, Debug)]
pub enum Effect {
    /// Leave the scene unchanged.
    Keep,
    /// Replace the red, green and blue channels of the entity's own fill
    /// color, keeping its alpha.
    SetColorRgb(u8, u8, u8),
    /// Request that a newly built scene be pushed onto the stack.
    Push(SceneKind),
    /// Request that the active scene be popped off the stack.
    Pop,
}

/// The transition, if any, that an effect raises.
pub open spec fn effect_transition(e: Effect) -> Option<StateTransition> {
    match e {
        Effect::Push(k) => Some(StateTransition::Push(k)),
        Effect::Pop => Some(StateTransition::Pop),
        _ => None,
    }
}

/// Hover behavior: effects fired on pointer enter and exit, plus the latch
/// recording whether the pointer is currently considered inside.
#[derive(Clone, Copy, PartialEq, Eq, Structural, Debug)]
pub struct Hover {
    pub on_enter: Effect,
    pub on_leave: Effect,
    pub hovering: bool,
}

impl Hover {
    pub fn new(on_enter: Effect, on_leave: Effect) -> (h: Self)
        ensures
            h == (Hover { on_enter, on_leave, hovering: false }),
    {
        Hover { on_enter, on_leave, hovering: false }
    }

    /// Latch the pointer as inside; the enter effect fires only on the
    /// false-to-true edge.
    pub fn on_hover(&mut self) -> (fired: Option<Effect>)
        ensures
            final (self).on_enter == old(self).on_enter,
            final (self).on_leave == old(self).on_leave,
            final (self).hovering,
            fired == (if old(self).hovering {
                Option::<Effect>::None
            } else {
                Some(old(self).on_enter)
            }),
    {
        if !self.hovering {
            self.hovering = true;
            Some(self.on_enter)
        } else {
            None
        }
    }

    /// Latch the pointer as outside; the leave effect fires only on the
    /// true-to-false edge.
    pub fn off_hover(&mut self) -> (fired: Option<Effect>)
        ensures
            final (self).on_enter == old(self).on_enter,
            final (self).on_leave == old(self).on_leave,
            !final (self).hovering,
            fired == (if old(self).hovering {
                Some(old(self).on_leave)
            } else {
                Option::<Effect>::None
            }),
    {
        if self.hovering {
            self.hovering = false;
            Some(self.on_leave)
        } else {
            None
        }
    }
}

/// Click behavior: the effect fired when a press lands inside the
/// entity's rectangle.
#[derive(Clone, Copy, PartialEq, Eq, Structural, Debug)]
pub struct OnClick {
    pub effect: Effect,
}

} // verus!
