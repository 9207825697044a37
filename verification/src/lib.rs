//! Simulation core of a scene-stack driven interactive application.
//!
//! A stack of independent entity-component scenes is driven by an ordered
//! pipeline of systems that mutate shared component data once per discrete
//! tick.  The core covers entity/component storage with generation-tagged
//! ids, the scene-stack lifecycle and transition protocol, the
//! hover/click edge-detection state machine, per-tick physics integration,
//! and a bounded particle producer/consumer pair.  Rasterization, window
//! plumbing and asset decoding are external collaborators and live outside
//! this crate.

use vstd::prelude::*;

pub mod components;
pub mod game;
pub mod input;
pub mod interact;
pub mod overlay;
pub mod particles;
pub mod physics;
pub mod pipeline;
pub mod randsrc;
pub mod scene;
pub mod store;
pub mod systems;

verus! {

/// Capacity of the GPU-side particle ring buffer.
pub const MAX_PARTICLES: usize = 10000;

/// Logical screen width in pixels.
pub const SCREEN_WIDTH: i32 = 1920;

/// Logical screen height in pixels.
pub const SCREEN_HEIGHT: i32 = 1080;

/// Coordinates saturate at the `i32` range instead of wrapping.
pub open spec fn clip(v: int) -> int {
    if v < i32::MIN as int {
        i32::MIN as int
    } else if v > i32::MAX as int {
        i32::MAX as int
    } else {
        v
    }
}

/// Saturating conversion of an `i64` intermediate back into coordinate range.
pub fn clip_i64(v: i64) -> (r: i32)
    ensures
        r as int == clip(v as int),
{
    if v < i32::MIN as i64 {
        i32::MIN
    } else if v > i32::MAX as i64 {
        i32::MAX
    } else {
        v as i32
    }
}

} // verus!
