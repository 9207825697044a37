//! The particle-emitting system: while the pointer button is held, each
//! player-tagged entity emits one particle descriptor per tick from its
//! center, directed along its facing vector with a small random
//! perturbation and a random color.
//!
//! The direction scaling is integer arithmetic: the facing vector is
//! normalized to the emission speed with a verified integer square root,
//! truncating toward zero.

use vstd::prelude::*;
use crate::components::RectColor;
use crate::components::{rect_center_x, rect_center_y};
use crate::particles::Particle;
use crate::randsrc::{rng_range_i32, small_rng_from_entropy};
use crate::scene::{Scene, SceneModel};
use rand::rngs::SmallRng;

verus! {

/// Emission speed in pixels per tick.
pub const PARTICLE_SPEED: i32 = 5;

/// Ticks a particle lives on the GPU side.
pub const PARTICLE_LIFE: u32 = 1200;

/// Edge length of a particle quad in pixels.
pub const PARTICLE_SIZE: u32 = 4;

/// Smallest `s >= r` with `(s + 1) * (s + 1) > n`, i.e. the integer
/// square root when started at a root lower bound.
pub open spec fn spec_isqrt_from(n: nat, r: nat) -> nat
    decreases n - r,
    via spec_isqrt_from_dec
{
    if (r + 1) * (r + 1) > n {
        r
    } else {
        spec_isqrt_from(n, r + 1)
    }
}

#[via_fn]
proof fn spec_isqrt_from_dec(n: nat, r: nat) {
    if !((r + 1) * (r + 1) > n) {
        assert(r + 1 <= (r + 1) * (r + 1)) by (nonlinear_arith);
    }
}

/// The integer square root: the largest `s` with `s * s <= n`.
pub open spec fn spec_isqrt(n: nat) -> nat {
    spec_isqrt_from(n, 0)
}

pub proof fn lemma_isqrt_from(n: nat, r: nat)
    requires
        r * r <= n,
    ensures
        ({
            let s = spec_isqrt_from(n, r);
            &&& r <= s
            &&& s * s <= n
            &&& (s + 1) * (s + 1) > n
        }),
    decreases n - r,
{
    if (r + 1) * (r + 1) > n {
    } else {
        assert(r + 1 <= (r + 1) * (r + 1)) by (nonlinear_arith);
        lemma_isqrt_from(n, r + 1);
    }
}

/// Characterization is unique: anything between consecutive squares is
/// the integer square root.
pub proof fn lemma_isqrt_unique(n: nat, r: nat)
    requires
        r * r <= n,
        (r + 1) * (r + 1) > n,
    ensures
        r == spec_isqrt(n),
{
    lemma_isqrt_from(n, 0);
    let s = spec_isqrt(n);
    assert(r == s) by (nonlinear_arith)
        requires
            r * r <= n,
            (r + 1) * (r + 1) > n,
            s * s <= n,
            (s + 1) * (s + 1) > n,
            r >= 0,
            s >= 0;
}

/// Binary-search integer square root on `u64`.
pub fn isqrt64(n: u64) -> (r: u64)
    ensures
        r as nat == spec_isqrt(n as nat),
        r * r <= n,
{
    let mut lo: u64 = 0;
    let mut hi: u64 = 4294967296;
    proof {
        assert((4294967296int) * 4294967296 > n as int) by (nonlinear_arith)
            requires
                n <= u64::MAX;
    }
    while lo + 1 < hi
        invariant
            lo < hi <= 4294967296,
            (lo as int) * (lo as int) <= n as int,
            (hi as int) * (hi as int) > n as int,
        decreases hi - lo,
    {
        let mid = lo + (hi - lo) / 2;
        proof {
            assert((mid as int) * (mid as int) < (u64::MAX as int + 1)) by (nonlinear_arith)
                requires
                    0 <= (mid as int) < 4294967296;
        }
        let sq = mid * mid;
        if sq <= n {
            lo = mid;
        } else {
            hi = mid;
        }
    }
    proof {
        lemma_isqrt_unique(n as nat, lo as nat);
    }
    lo
}

/// Division truncating toward zero, for a positive divisor.
pub open spec fn trunc_div(a: int, b: int) -> int {
    if a >= 0 {
        a / b
    } else {
        -((-a) / b)
    }
}

/// Length of the facing vector, rounded down.
pub open spec fn dir_len(dx: int, dy: int) -> nat {
    spec_isqrt((dx * dx + dy * dy) as nat)
}

/// Horizontal emission speed: the facing vector normalized to `mag`,
/// truncating toward zero; the zero vector faces along the positive
/// x-axis, matching an angle of zero.
pub open spec fn scaled_vx(dx: int, dy: int, mag: int) -> int {
    if dx == 0 && dy == 0 {
        mag
    } else {
        trunc_div(dx * mag, dir_len(dx, dy) as int)
    }
}

/// Vertical emission speed.
pub open spec fn scaled_vy(dx: int, dy: int, mag: int) -> int {
    if dx == 0 && dy == 0 {
        0
    } else {
        trunc_div(dy * mag, dir_len(dx, dy) as int)
    }
}

/// Scale the direction `(dx, dy)` to length `mag`, in integers.
pub fn scaled_dir(dx: i32, dy: i32, mag: i32) -> (v: (i32, i32))
    requires
        0 <= mag <= 1000,
    ensures
        v.0 as int == scaled_vx(dx as int, dy as int, mag as int),
        v.1 as int == scaled_vy(dx as int, dy as int, mag as int),
        -mag <= v.0 <= mag,
        -mag <= v.1 <= mag,
{
    if dx == 0 && dy == 0 {
        return (mag, 0);
    }
    let adx: u64 = if dx < 0 {
        (-(dx as i64)) as u64
    } else {
        dx as u64
    };
    let ady: u64 = if dy < 0 {
        (-(dy as i64)) as u64
    } else {
        dy as u64
    };
    proof {
        assert(adx as int * adx as int + ady as int * ady as int <= u64::MAX) by (nonlinear_arith)
            requires
                0 <= adx as int <= 0x80000000,
                0 <= ady as int <= 0x80000000;
        assert(adx as int * adx as int == (dx as int) * (dx as int)) by (nonlinear_arith)
            requires
                adx as int == if dx < 0 {
                    -(dx as int)
                } else {
                    dx as int
                };
        assert(ady as int * ady as int == (dy as int) * (dy as int)) by (nonlinear_arith)
            requires
                ady as int == if dy < 0 {
                    -(dy as int)
                } else {
                    dy as int
                };
    }
    let n = adx * adx + ady * ady;
    let len = isqrt64(n);
    proof {
        // The root of a sum of squares is at least each side.
        lemma_isqrt_from(n as nat, 0);
        assert(len as int >= adx as int && len as int >= ady as int && len as int >= 1)
            by (nonlinear_arith)
            requires
                (len as int) * (len as int) <= n as int,
                (len as int + 1) * (len as int + 1) > n as int,
                n as int == adx as int * adx as int + ady as int * ady as int,
                len as int >= 0,
                adx as int >= 0,
                ady as int >= 0,
                adx as int >= 1 || ady as int >= 1;
    }
    proof {
        assert(adx as int * mag as int <= u64::MAX && ady as int * mag as int <= u64::MAX)
            by (nonlinear_arith)
            requires
                0 <= adx as int <= 0x80000000,
                0 <= ady as int <= 0x80000000,
                0 <= mag as int <= 1000;
    }
    let qx = (adx * (mag as u64)) / len;
    let qy = (ady * (mag as u64)) / len;
    proof {
        assert(qx as int <= mag as int && qy as int <= mag as int) by (nonlinear_arith)
            requires
                qx as int == (adx as int * mag as int) / (len as int),
                qy as int == (ady as int * mag as int) / (len as int),
                1 <= len as int,
                adx as int <= len as int,
                ady as int <= len as int,
                0 <= mag as int;
        assert(adx as int * mag as int == if dx < 0 {
            -((dx as int) * (mag as int))
        } else {
            (dx as int) * (mag as int)
        }) by (nonlinear_arith)
            requires
                adx as int == if dx < 0 {
                    -(dx as int)
                } else {
                    dx as int
                };
        assert(ady as int * mag as int == if dy < 0 {
            -((dy as int) * (mag as int))
        } else {
            (dy as int) * (mag as int)
        }) by (nonlinear_arith)
            requires
                ady as int == if dy < 0 {
                    -(dy as int)
                } else {
                    dy as int
                };
    }
    let vx = if dx < 0 {
        -(qx as i32)
    } else {
        qx as i32
    };
    let vy = if dy < 0 {
        -(qy as i32)
    } else {
        qy as i32
    };
    (vx, vy)
}

/// Entity `j` emits: a live player with a rectangle and a facing.
pub open spec fn emit_subject(m: SceneModel, j: int) -> bool {
    &&& m.live(j)
    &&& 0 <= j < m.rects.slots.len()
    &&& m.rects.slots[j] is Some
    &&& 0 <= j < m.players.slots.len()
    &&& m.players.slots[j] is Some
    &&& 0 <= j < m.rots.slots.len()
    &&& m.rots.slots[j] is Some
}

/// What holds of the descriptor entity `j` emits, whatever the random
/// draws were: position, size, lifetime and acceleration are fixed, the
/// velocity is the scaled facing give or take one pixel per axis, the
/// color is opaque.
pub open spec fn particle_matches(m: SceneModel, j: int, p: Particle) -> bool {
    let r = m.rects.slots[j].unwrap();
    let rot = m.rots.slots[j].unwrap();
    let bx = scaled_vx(rot.dx as int, rot.dy as int, PARTICLE_SPEED as int);
    let by = scaled_vy(rot.dx as int, rot.dy as int, PARTICLE_SPEED as int);
    &&& p.x as int == rect_center_x(r)
    &&& p.y as int == rect_center_y(r)
    &&& p.w == PARTICLE_SIZE
    &&& p.h == PARTICLE_SIZE
    &&& p.ax == 0
    &&& p.ay == 0
    &&& p.life == PARTICLE_LIFE
    &&& p.color.a == 255
    &&& bx - 1 <= p.vx as int <= bx + 1
    &&& by - 1 <= p.vy as int <= by + 1
}

/// The batch `ps` is exactly one matching descriptor per emitting entity
/// below `j`, in entity order.
pub open spec fn emits_ok(m: SceneModel, j: int, ps: Seq<Particle>) -> bool
    decreases j,
{
    if j <= 0 {
        ps.len() == 0
    } else if emit_subject(m, j - 1) {
        &&& ps.len() > 0
        &&& emits_ok(m, j - 1, ps.drop_last())
        &&& particle_matches(m, j - 1, ps.last())
    } else {
        emits_ok(m, j - 1, ps)
    }
}

/// Number of emitting entities below `j`.
pub open spec fn emit_count(m: SceneModel, j: int) -> int
    decreases j,
{
    if j <= 0 {
        0
    } else {
        emit_count(m, j - 1) + if emit_subject(m, j - 1) {
            1int
        } else {
            0int
        }
    }
}

/// A matching batch has exactly one descriptor per emitting entity.
pub proof fn lemma_emits_len(m: SceneModel, j: int, ps: Seq<Particle>)
    requires
        emits_ok(m, j, ps),
    ensures
        ps.len() == emit_count(m, j),
    decreases j,
{
    if j > 0 {
        if emit_subject(m, j - 1) {
            lemma_emits_len(m, j - 1, ps.drop_last());
        } else {
            lemma_emits_len(m, j - 1, ps);
        }
    }
}

/// The particle-emitting system, with its own small PRNG seeded from the
/// thread-local generator.
pub struct ParticleSystem {
    rng: SmallRng,
}

impl ParticleSystem {
    pub fn new() -> Self {
        ParticleSystem { rng: small_rng_from_entropy() }
    }

    /// While the pointer button is held, append one descriptor per
    /// emitting entity to the scene's queue, in entity order; otherwise
    /// leave the scene untouched.  Everything but the queue is preserved.
    #[verifier::loop_isolation(false)]
    #[verifier::rlimit(60)]
    pub fn run(&mut self, scene: &mut Scene)
        requires
            old(scene)@.wf(),
        ensures
            final (scene)@.wf(),
            old(scene)@.input.mouse.left_down ==> exists|ps: Seq<Particle>|
                {
                    &&& #[trigger] emits_ok(old(scene)@, old(scene)@.cap(), ps)
                    &&& final (scene)@ == (SceneModel { engine: old(scene)@.engine + ps, ..old(
                        scene,
                    )@ })
                },
            !old(scene)@.input.mouse.left_down ==> final (scene)@ == old(scene)@,
    {
        let ghost m = old(scene)@;
        if !scene.input.mouse.left_down {
            return ;
        }
        let cap = scene.capacity();
        let ghost mut ps = Seq::<Particle>::empty();
        proof {
            assert(m.engine + ps =~= m.engine);
        }
        let mut j: usize = 0;
        while j < cap
            invariant
                j <= cap,
                emits_ok(m, j as int, ps),
                scene@ == (SceneModel { engine: m.engine + ps, ..m }),
            decreases cap - j,
        {
            let is_alive = scene.reg.alive[j];
            if is_alive {
                let is_player = match scene.players.get_at(j) {
                    Some(_) => true,
                    None => false,
                };
                let r_opt = match scene.rects.get_at(j) {
                    Some(r) => Some(*r),
                    None => None,
                };
                let rot_opt = match scene.rots.get_at(j) {
                    Some(r) => Some(*r),
                    None => None,
                };
                if is_player {
                    if let (Some(r), Some(rot)) = (r_opt, rot_opt) {
                        let c = r.get_center();
                        let dir = scaled_dir(rot.dx, rot.dy, PARTICLE_SPEED);
                        let jx = rng_range_i32(&mut self.rng, -1, 1);
                        let jy = rng_range_i32(&mut self.rng, -1, 1);
                        let cr = rng_range_i32(&mut self.rng, 0, 255) as u8;
                        let cg = rng_range_i32(&mut self.rng, 0, 255) as u8;
                        let cb = rng_range_i32(&mut self.rng, 0, 255) as u8;
                        let p = Particle {
                            x: c.0,
                            y: c.1,
                            color: RectColor { r: cr, g: cg, b: cb, a: 255 },
                            w: PARTICLE_SIZE,
                            h: PARTICLE_SIZE,
                            ax: 0,
                            ay: 0,
                            vx: dir.0 + jx,
                            vy: dir.1 + jy,
                            life: PARTICLE_LIFE,
                        };
                        scene.engine.create_particle(p);
                        proof {
                            assert(particle_matches(m, j as int, p));
                            let ps_old = ps;
                            ps = ps.push(p);
                            assert(ps.drop_last() =~= ps_old);
                            assert(m.engine + ps =~= (m.engine + ps_old).push(p));
                            assert(emits_ok(m, j + 1, ps));
                        }
                    }
                }
            }
            j = j + 1;
        }
    }
}

} // verus!
