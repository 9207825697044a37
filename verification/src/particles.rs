//! Bounded particle production: an emission queue drained once per tick
//! into a fixed-capacity ring buffer owned by the GPU-side consumer.
//!
//! The queue guarantees exactly-once, order-preserving delivery of each
//! descriptor.  The ring buffer holds `MAX_PARTICLES` slots and a write
//! cursor that advances modulo the capacity, overwriting the oldest slot
//! once full — bounded-lossy by design, never an error.

use vstd::prelude::*;
use crate::MAX_PARTICLES;
use crate::components::RectColor;

verus! {

/// One particle descriptor handed to the GPU consumer.
#[derive(Clone, Copy, PartialEq, Eq, Structural, Debug)]
pub struct Particle {
    pub x: i32,
    pub y: i32,
    pub color: RectColor,
    pub w: u32,
    pub h: u32,
    pub ax: i32,
    pub ay: i32,
    pub vx: i32,
    pub vy: i32,
    pub life: u32,
}

impl Particle {
    /// The all-zero descriptor the ring buffer starts out with.
    pub fn zeroed() -> (p: Self)
        ensures
            p == Particle::spec_zeroed(),
    {
        Particle {
            x: 0,
            y: 0,
            color: RectColor { r: 0, g: 0, b: 0, a: 0 },
            w: 0,
            h: 0,
            ax: 0,
            ay: 0,
            vx: 0,
            vy: 0,
            life: 0,
        }
    }

    pub open spec fn spec_zeroed() -> Particle {
        Particle {
            x: 0,
            y: 0,
            color: RectColor { r: 0, g: 0, b: 0, a: 0 },
            w: 0,
            h: 0,
            ax: 0,
            ay: 0,
            vx: 0,
            vy: 0,
            life: 0,
        }
    }
}

/// CPU-side emission queue: gameplay systems append, the consumer drains
/// once per tick.
pub struct ParticleEngine {
    pub particles: Vec<Particle>,
}

impl View for ParticleEngine {
    type V = Seq<Particle>;

    open spec fn view(&self) -> Seq<Particle> {
        self.particles@
    }
}

impl ParticleEngine {
    pub fn new() -> (e: Self)
        ensures
            e@.len() == 0,
    {
        ParticleEngine { particles: Vec::new() }
    }

    /// Append one descriptor to the emission queue.
    pub fn create_particle(&mut self, p: Particle)
        ensures
            final (self)@ == old(self)@.push(p),
    {
        self.particles.push(p);
    }

    /// Hand every queued descriptor to the caller, in emission order, and
    /// clear the queue: each descriptor is delivered exactly once.
    pub fn drain(&mut self) -> (out: Vec<Particle>)
        ensures
            out@ == old(self)@,
            final (self)@.len() == 0,
    {
        let mut out = Vec::new();
        core::mem::swap(&mut out, &mut self.particles);
        out
    }

    /// Drop every queued descriptor.
    pub fn clear(&mut self)
        ensures
            final (self)@.len() == 0,
    {
        self.particles.clear();
    }
}

/// One ring-buffer write: store at the cursor, advance it, wrapping.
pub open spec fn ring_write(slots: Seq<Particle>, next: int, p: Particle) -> (Seq<Particle>, int) {
    (slots.update(next, p), if next + 1 == slots.len() {
        0int
    } else {
        next + 1
    })
}

/// Ring-buffer state after writing a whole sequence in order.
pub open spec fn ring_write_all(slots: Seq<Particle>, next: int, ps: Seq<Particle>) -> (
    Seq<Particle>,
    int,
)
    decreases ps.len(),
{
    if ps.len() == 0 {
        (slots, next)
    } else {
        let last = ring_write_all(slots, next, ps.drop_last());
        ring_write(last.0, last.1, ps.last())
    }
}

/// The GPU-side consumer's buffer: a fixed number of slots and the
/// monotonically advancing write cursor, modulo capacity.
pub struct RingBuffer {
    pub slots: Vec<Particle>,
    pub next: usize,
}

impl RingBuffer {
    pub open spec fn wf(self) -> bool {
        self.slots@.len() == MAX_PARTICLES && self.next < MAX_PARTICLES
    }

    /// A buffer of zeroed slots with the cursor at the start.
    pub fn new() -> (b: Self)
        ensures
            b.wf(),
            b.next == 0,
            forall|j: int| 0 <= j < MAX_PARTICLES ==> b.slots@[j] == Particle::spec_zeroed(),
    {
        let mut slots: Vec<Particle> = Vec::new();
        while slots.len() < MAX_PARTICLES
            invariant
                slots@.len() <= MAX_PARTICLES,
                forall|j: int| 0 <= j < slots@.len() ==> slots@[j] == Particle::spec_zeroed(),
            decreases MAX_PARTICLES - slots.len(),
        {
            slots.push(Particle::zeroed());
        }
        RingBuffer { slots, next: 0 }
    }

    /// Write one descriptor at the cursor and advance it, wrapping to the
    /// start once past the last slot.
    pub fn write(&mut self, p: Particle)
        requires
            old(self).wf(),
        ensures
            final (self).wf(),
            (final (self).slots@, final (self).next as int) == ring_write(
                old(self).slots@,
                old(self).next as int,
                p,
            ),
    {
        self.slots.set(self.next, p);
        self.next = if self.next + 1 == MAX_PARTICLES {
            0
        } else {
            self.next + 1
        };
    }

    /// Drain the emission queue straight into the buffer: every queued
    /// descriptor is written exactly once, in emission order, and the
    /// queue is left empty.
    pub fn consume(&mut self, engine: &mut ParticleEngine)
        requires
            old(self).wf(),
        ensures
            final (self).wf(),
            (final (self).slots@, final (self).next as int) == ring_write_all(
                old(self).slots@,
                old(self).next as int,
                old(engine)@,
            ),
            final (engine)@.len() == 0,
    {
        let batch = engine.drain();
        self.write_all(&batch);
    }

    /// Copy a drained batch into the buffer, one slot per descriptor in
    /// emission order.
    pub fn write_all(&mut self, ps: &Vec<Particle>)
        requires
            old(self).wf(),
        ensures
            final (self).wf(),
            (final (self).slots@, final (self).next as int) == ring_write_all(
                old(self).slots@,
                old(self).next as int,
                ps@,
            ),
    {
        let mut i: usize = 0;
        while i < ps.len()
            invariant
                i <= ps@.len(),
                self.wf(),
                (self.slots@, self.next as int) == ring_write_all(
                    old(self).slots@,
                    old(self).next as int,
                    ps@.take(i as int),
                ),
            decreases ps@.len() - i,
        {
            proof {
                assert(ps@.take(i + 1).drop_last() =~= ps@.take(i as int));
                assert(ps@.take(i + 1).last() == ps@[i as int]);
            }
            self.write(ps[i]);
            i = i + 1;
        }
        proof {
            assert(ps@.take(ps@.len() as int) =~= ps@);
        }
    }
}

/// Writing two batches one after the other is writing their
/// concatenation: wraparound statements about one long emission sequence
/// carry over to emission spread across many ticks.
pub proof fn lemma_ring_batches_compose(
    slots: Seq<Particle>,
    next: int,
    a: Seq<Particle>,
    b: Seq<Particle>,
)
    ensures
        ring_write_all(slots, next, a + b) == ({
            let r = ring_write_all(slots, next, a);
            ring_write_all(r.0, r.1, b)
        }),
    decreases b.len(),
{
    if b.len() == 0 {
        assert(a + b =~= a);
    } else {
        lemma_ring_batches_compose(slots, next, a, b.drop_last());
        assert((a + b).drop_last() =~= a + b.drop_last());
        assert((a + b).last() == b.last());
    }
}

/// How far `j` writes back from the cursor the descriptor written `j + 1`
/// writes ago landed: index `next - 1 - j`, wrapped into the capacity.
pub proof fn lemma_ring_recent(slots: Seq<Particle>, next: int, ps: Seq<Particle>, j: int)
    requires
        slots.len() == MAX_PARTICLES,
        0 <= next < MAX_PARTICLES,
        0 <= j < ps.len(),
        j < MAX_PARTICLES,
    ensures
        ({
            let r = ring_write_all(slots, next, ps);
            &&& 0 <= r.1 < MAX_PARTICLES
            &&& r.0.len() == MAX_PARTICLES
            &&& {
                let pos = if r.1 - 1 - j >= 0 {
                    r.1 - 1 - j
                } else {
                    r.1 - 1 - j + MAX_PARTICLES
                };
                r.0[pos] == ps[ps.len() - 1 - j]
            }
        }),
    decreases ps.len(),
{
    let prev = ring_write_all(slots, next, ps.drop_last());
    lemma_ring_shape(slots, next, ps.drop_last());
    if j == 0 {
        // The final write lands at the previous cursor.
    } else {
        lemma_ring_recent(slots, next, ps.drop_last(), j - 1);
    }
}

/// Cursor stays in range and the slot count is preserved.
pub proof fn lemma_ring_shape(slots: Seq<Particle>, next: int, ps: Seq<Particle>)
    requires
        slots.len() == MAX_PARTICLES,
        0 <= next < MAX_PARTICLES,
    ensures
        ({
            let r = ring_write_all(slots, next, ps);
            0 <= r.1 < MAX_PARTICLES && r.0.len() == MAX_PARTICLES
        }),
    decreases ps.len(),
{
    if ps.len() > 0 {
        lemma_ring_shape(slots, next, ps.drop_last());
    }
}

/// Bounded-lossy wraparound: after writing at least `MAX_PARTICLES`
/// descriptors, the buffer holds exactly the most recent `MAX_PARTICLES`
/// of them, in emission order starting at the cursor (the oldest slot).
pub proof fn lemma_ring_wraparound(slots: Seq<Particle>, next: int, ps: Seq<Particle>, i: int)
    requires
        slots.len() == MAX_PARTICLES,
        0 <= next < MAX_PARTICLES,
        ps.len() >= MAX_PARTICLES,
        0 <= i < MAX_PARTICLES,
    ensures
        ({
            let r = ring_write_all(slots, next, ps);
            let pos = if r.1 + i < MAX_PARTICLES {
                r.1 + i
            } else {
                r.1 + i - MAX_PARTICLES
            };
            r.0[pos] == ps[ps.len() - MAX_PARTICLES + i]
        }),
{
    let j = MAX_PARTICLES - 1 - i;
    lemma_ring_recent(slots, next, ps, j);
}

} // verus!
