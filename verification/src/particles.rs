//! The particle field: a fixed population of points that move by their
//! velocity once per tick and turn round at the edges of the viewport.
//!
//! A tick first moves a particle and then turns it: the position advances by
//! the velocity that the particle had before the tick, and a velocity
//! component is reversed if the new position is at or beyond an edge of its
//! axis. A velocity is a distance per tick, not per second: no time is
//! measured, so the animation runs at the pace of the refresh signal.

use crate::fixed::{
    in_range, lemma_range_at_within, rand_range, range_at, to_units, COORD_LIMIT, UNIT,
};
use vstd::prelude::*;

verus! {

/// Side of the grid that sizes the population.
pub const PARTICLE_GRID_SIZE: usize = 64;

/// Number of particles in a scene.
pub const PARTICLE_COUNT: usize = 4096;

/// Random samples that seed one particle: position and velocity, two axes each.
pub const SAMPLES_PER_PARTICLE: usize = 4;

/// Largest magnitude of a velocity component, in units per tick.
pub const SPEED_LIMIT: i64 = 0x2000_0000_0000_0000;

/// Whether a position is at or beyond an edge of `[0, bound]`.
pub open spec fn at_edge(pos: int, bound: int) -> bool {
    pos <= 0 || pos >= bound
}

/// One tick along one axis: the position advances by the velocity, and if it
/// then is at or beyond an edge the velocity is reversed, once.
pub open spec fn step_axis(pos: int, vel: int, bound: int) -> (int, int) {
    let moved = pos + vel;
    (moved, if at_edge(moved, bound) { -vel } else { vel })
}

/// A position and a velocity that the scene can store and step: the position
/// and the one after it are within the coordinate range, the speed within its limit.
pub open spec fn axis_wf(pos: int, vel: int) -> bool {
    &&& in_range(pos)
    &&& in_range(pos + vel)
    &&& -(SPEED_LIMIT as int) <= vel <= SPEED_LIMIT as int
}

/// Whether a position is within `[0, bound]` now or will be after the next
/// tick: a particle that is outside is on its way back.
pub open spec fn returning(pos: int, vel: int, bound: int) -> bool {
    0 <= pos <= bound || 0 <= pos + vel <= bound
}

/// What a particle is: a position and a velocity, in coordinate units and
/// units per tick.
pub struct ParticleModel {
    pub x: int,
    pub y: int,
    pub vx: int,
    pub vy: int,
}

impl ParticleModel {
    /// Both axes can be stored and stepped. Every `Particle` is such a particle.
    pub open spec fn wf(self) -> bool {
        axis_wf(self.x, self.vx) && axis_wf(self.y, self.vy)
    }

    /// The particle one tick later, in a box `width` by `height` units: each
    /// axis steps on its own.
    pub open spec fn step(self, width: int, height: int) -> ParticleModel {
        let (x, vx) = step_axis(self.x, self.vx, width);
        let (y, vy) = step_axis(self.y, self.vy, height);
        ParticleModel { x, y, vx, vy }
    }

    /// The particle `n` ticks later, in a box of constant size.
    pub open spec fn step_n(self, width: int, height: int, n: nat) -> ParticleModel
        decreases n,
    {
        if n == 0 {
            self
        } else {
            self.step_n(width, height, (n - 1) as nat).step(width, height)
        }
    }

    /// Whether the particle is inside the box, edges included.
    pub open spec fn inside(self, width: int, height: int) -> bool {
        0 <= self.x <= width && 0 <= self.y <= height
    }

    /// Whether the particle is, along each axis, within the box or on its
    /// way back to it.
    pub open spec fn returning(self, width: int, height: int) -> bool {
        returning(self.x, self.vx, width) && returning(self.y, self.vy, height)
    }
}

/// One particle of the field.
#[derive(Clone, Copy, Debug)]
pub struct Particle {
    x: i64,
    y: i64,
    vx: i64,
    vy: i64,
}

impl View for Particle {
    type V = ParticleModel;

    closed spec fn view(&self) -> ParticleModel {
        ParticleModel { x: self.x as int, y: self.y as int, vx: self.vx as int, vy: self.vy as int }
    }
}

/// Whether a position and a velocity can be stored and stepped.
fn axis_ok(pos: i64, vel: i64) -> (ok: bool)
    ensures
        ok == axis_wf(pos as int, vel as int),
{
    -COORD_LIMIT <= pos && pos <= COORD_LIMIT && -SPEED_LIMIT <= vel && vel <= SPEED_LIMIT
        && -COORD_LIMIT <= pos + vel && pos + vel <= COORD_LIMIT
}

/// One tick along one axis, in a box `bound` pixels long.
fn advance(pos: i64, vel: i64, bound: u32) -> (r: (i64, i64))
    requires
        axis_wf(pos as int, vel as int),
    ensures
        (r.0 as int, r.1 as int) == step_axis(pos as int, vel as int, bound * UNIT),
        axis_wf(r.0 as int, r.1 as int),
{
    proof {
        lemma_step_storable(pos as int, vel as int, bound * UNIT);
    }
    let edge = to_units(bound);
    let moved = pos + vel;
    if moved <= 0 || moved >= edge {
        (moved, -vel)
    } else {
        (moved, vel)
    }
}

impl Particle {
    #[verifier::type_invariant]
    spec fn steppable(self) -> bool {
        self@.wf()
    }

    /// A particle at `(x, y)` with velocity `(vx, vy)`, or nothing if it
    /// could not be stored and stepped.
    pub fn new(x: i64, y: i64, vx: i64, vy: i64) -> (p: Option<Particle>)
        ensures
            p is Some <==> (ParticleModel { x: x as int, y: y as int, vx: vx as int, vy: vy as int }).wf(),
            p is Some ==> p->0@ == (ParticleModel {
                x: x as int,
                y: y as int,
                vx: vx as int,
                vy: vy as int,
            }),
    {
        if axis_ok(x, vx) && axis_ok(y, vy) {
            Some(Particle { x, y, vx, vy })
        } else {
            None
        }
    }

    /// Horizontal position.
    pub fn x(&self) -> (r: i64)
        ensures
            r == self@.x,
            self@.wf(),
    {
        proof {
            use_type_invariant(self);
        }
        self.x
    }

    /// Vertical position.
    pub fn y(&self) -> (r: i64)
        ensures
            r == self@.y,
            self@.wf(),
    {
        proof {
            use_type_invariant(self);
        }
        self.y
    }

    /// Horizontal velocity.
    pub fn vx(&self) -> (r: i64)
        ensures
            r == self@.vx,
            self@.wf(),
    {
        proof {
            use_type_invariant(self);
        }
        self.vx
    }

    /// Vertical velocity.
    pub fn vy(&self) -> (r: i64)
        ensures
            r == self@.vy,
            self@.wf(),
    {
        proof {
            use_type_invariant(self);
        }
        self.vy
    }

    /// Advances the particle by one tick in a viewport `width` by `height`
    /// pixels: it moves by its velocity, then each velocity component whose
    /// axis is at or beyond an edge is reversed.
    pub fn step(&mut self, width: u32, height: u32)
        ensures
            final(self)@ == old(self)@.step(width * UNIT, height * UNIT),
            final(self)@.wf(),
    {
        proof {
            use_type_invariant(&*self);
        }
        let (x, vx) = advance(self.x, self.vx, width);
        let (y, vy) = advance(self.y, self.vy, height);
        *self = Particle { x, y, vx, vy };
    }
}

/// The field one tick later: every particle stepped, in order.
pub open spec fn stepped(field: Seq<ParticleModel>, width: int, height: int) -> Seq<ParticleModel> {
    Seq::new(field.len(), |i: int| field[i].step(width, height))
}

/// The positions of a field as one flat sequence: `x` then `y` of the first
/// particle, `x` then `y` of the second, and so on.
pub open spec fn interleaved(field: Seq<ParticleModel>) -> Seq<i64> {
    Seq::new(
        2 * field.len(),
        |k: int|
            if k % 2 == 0 {
                field[k / 2].x as i64
            } else {
                field[k / 2].y as i64
            },
    )
}

/// The particle that four samples seed in a box `width` by `height` units:
/// a position anywhere in the box and a velocity of less than a pixel per
/// tick along each axis.
pub open spec fn seeded_particle(
    sx: int,
    sy: int,
    svx: int,
    svy: int,
    width: int,
    height: int,
) -> ParticleModel {
    ParticleModel {
        x: range_at(0, width, sx),
        y: range_at(0, height, sy),
        vx: range_at(-(UNIT as int), UNIT as int, svx),
        vy: range_at(-(UNIT as int), UNIT as int, svy),
    }
}

/// The field that `samples` seed: one particle for each whole group of four.
pub open spec fn seeded(samples: Seq<u32>, width: int, height: int) -> Seq<ParticleModel> {
    Seq::new(
        (samples.len() / 4) as nat,
        |i: int|
            seeded_particle(
                samples[4 * i] as int,
                samples[4 * i + 1] as int,
                samples[4 * i + 2] as int,
                samples[4 * i + 3] as int,
                width,
                height,
            ),
    )
}

/// An ordered population of particles; its size never changes.
#[derive(Debug)]
pub struct ParticleField {
    particles: Vec<Particle>,
}

impl View for ParticleField {
    type V = Seq<ParticleModel>;

    closed spec fn view(&self) -> Seq<ParticleModel> {
        Seq::new(self.particles@.len(), |i: int| self.particles@[i]@)
    }
}

impl ParticleField {
    /// The field that holds `particles`, in their order.
    pub fn new(particles: Vec<Particle>) -> (field: ParticleField)
        ensures
            field@ == Seq::new(particles@.len(), |i: int| particles@[i]@),
    {
        ParticleField { particles }
    }

    /// Number of particles.
    pub fn len(&self) -> (n: usize)
        ensures
            n == self@.len(),
    {
        self.particles.len()
    }

    /// The particle at `index`, if there is one.
    pub fn get(&self, index: usize) -> (p: Option<Particle>)
        ensures
            p is Some <==> index < self@.len(),
            p is Some ==> p->0@ == self@[index as int],
    {
        if index < self.particles.len() {
            Some(self.particles[index])
        } else {
            None
        }
    }

    /// Advances every particle by one tick in a viewport `width` by `height`
    /// pixels. The population keeps its size and its order.
    pub fn step(&mut self, width: u32, height: u32)
        ensures
            final(self)@ == stepped(old(self)@, width * UNIT, height * UNIT),
    {
        let n = self.particles.len();
        let mut i: usize = 0;
        while i < n
            invariant
                i <= n,
                n == self.particles@.len(),
                n == old(self).particles@.len(),
                forall|j: int|
                    0 <= j < i ==> (#[trigger] self.particles@[j])@ == old(self).particles@[j]@.step(
                        width * UNIT,
                        height * UNIT,
                    ),
                forall|j: int| i <= j < n ==> #[trigger] self.particles@[j] == old(self).particles@[j],
            decreases n - i,
        {
            let mut p = self.particles[i];
            p.step(width, height);
            self.particles.set(i, p);
            i += 1;
        }
        assert(self@ =~= stepped(old(self)@, width * UNIT, height * UNIT));
    }

    /// The positions of all particles as one flat buffer, `x` before `y`,
    /// in the order of the field.
    pub fn positions(&self) -> (data: Vec<i64>)
        ensures
            data@ == interleaved(self@),
    {
        let n = self.particles.len();
        let mut data: Vec<i64> = Vec::new();
        let mut i: usize = 0;
        while i < n
            invariant
                i <= n,
                n == self.particles@.len(),
                data@.len() == 2 * i,
                forall|k: int|
                    0 <= k < 2 * i ==> #[trigger] data@[k] == (if k % 2 == 0 {
                        self.particles@[k / 2]@.x as i64
                    } else {
                        self.particles@[k / 2]@.y as i64
                    }),
            decreases n - i,
        {
            let p = self.particles[i];
            data.push(p.x());
            data.push(p.y());
            i += 1;
        }
        assert(data@ =~= interleaved(self@));
        data
    }
}

/// Seeds a field in a viewport `width` by `height` pixels from uniform 32-bit
/// samples: four to a particle, for `x`, `y`, `vx` and `vy` in that order. A
/// position falls anywhere in the viewport, a velocity component between
/// minus one and one pixel per tick. Samples beyond the last whole group of
/// four are not used.
pub fn generate_particles(width: u32, height: u32, samples: &Vec<u32>) -> (field: ParticleField)
    ensures
        field@ == seeded(samples@, width * UNIT, height * UNIT),
{
    let total = samples.len();
    let count = total / 4;
    let w = to_units(width);
    let h = to_units(height);
    let mut particles: Vec<Particle> = Vec::new();
    let mut i: usize = 0;
    while i < count
        invariant
            i <= count,
            total == samples@.len(),
            count == total / 4,
            w == width * UNIT,
            h == height * UNIT,
            0 <= w < COORD_LIMIT,
            0 <= h < COORD_LIMIT,
            particles@.len() == i,
            forall|j: int|
                0 <= j < i ==> (#[trigger] particles@[j])@ == seeded_particle(
                    samples@[4 * j] as int,
                    samples@[4 * j + 1] as int,
                    samples@[4 * j + 2] as int,
                    samples@[4 * j + 3] as int,
                    w as int,
                    h as int,
                ),
        decreases count - i,
    {
        assert(4 * i + 3 < total);
        let x = rand_range(0, w, samples[4 * i]);
        let y = rand_range(0, h, samples[4 * i + 1]);
        let vx = rand_range(-UNIT, UNIT, samples[4 * i + 2]);
        let vy = rand_range(-UNIT, UNIT, samples[4 * i + 3]);
        particles.push(Particle { x, y, vx, vy });
        i += 1;
    }
    let field = ParticleField { particles };
    assert(field@ =~= seeded(samples@, width * UNIT, height * UNIT));
    field
}

/// In one tick the position advances by the velocity as it was before the
/// tick, and the velocity is reversed at most once: exactly when the new
/// position is at or beyond an edge, so always when it is exactly on one.
pub proof fn lemma_single_flip(pos: int, vel: int, bound: int)
    ensures
        step_axis(pos, vel, bound).0 == pos + vel,
        at_edge(pos + vel, bound) ==> step_axis(pos, vel, bound).1 == -vel,
        !at_edge(pos + vel, bound) ==> step_axis(pos, vel, bound).1 == vel,
        pos + vel == 0 || pos + vel == bound ==> step_axis(pos, vel, bound).1 == -vel,
        step_axis(pos, vel, bound).1 == vel || step_axis(pos, vel, bound).1 == -vel,
{
}

/// A tick keeps a particle within what the scene can store and step, in a
/// box of any size that a viewport can have.
pub proof fn lemma_step_storable(pos: int, vel: int, bound: int)
    requires
        axis_wf(pos, vel),
        0 <= bound <= u32::MAX * UNIT,
    ensures
        axis_wf(step_axis(pos, vel, bound).0, step_axis(pos, vel, bound).1),
{
}

/// A particle that is within the box along an axis, or on its way back to
/// it, is so again after a tick: it never is beyond the edges of an axis for
/// two ticks in a row.
pub proof fn lemma_axis_returns(pos: int, vel: int, bound: int)
    requires
        returning(pos, vel, bound),
    ensures
        returning(step_axis(pos, vel, bound).0, step_axis(pos, vel, bound).1, bound),
{
}

/// A particle that is within the box, or on its way back to it, is so again
/// after any number of ticks in a box of constant size.
pub proof fn lemma_keeps_returning(p: ParticleModel, width: int, height: int, n: nat)
    requires
        p.returning(width, height),
    ensures
        p.step_n(width, height, n).returning(width, height),
    decreases n,
{
    if n > 0 {
        lemma_keeps_returning(p, width, height, (n - 1) as nat);
        let before = p.step_n(width, height, (n - 1) as nat);
        lemma_axis_returns(before.x, before.vx, width);
        lemma_axis_returns(before.y, before.vy, height);
    }
}

/// Bounce correctness: a particle that starts within the box is, after any
/// number of ticks and along each axis, within the box or back within it one
/// tick later.
pub proof fn lemma_bounds_restored(p: ParticleModel, width: int, height: int, n: nat)
    requires
        p.inside(width, height),
    ensures
        0 <= p.step_n(width, height, n).x <= width || 0 <= p.step_n(width, height, n + 1).x
            <= width,
        0 <= p.step_n(width, height, n).y <= height || 0 <= p.step_n(width, height, n + 1).y
            <= height,
{
    lemma_keeps_returning(p, width, height, n);
    assert(p.step_n(width, height, n + 1) == p.step_n(width, height, n).step(width, height));
}

/// A tick of the field is a tick of each particle: the population keeps its
/// size and order, and a field of particles that are within the box or on
/// their way back is such a field again.
pub proof fn lemma_field_keeps_returning(field: Seq<ParticleModel>, width: int, height: int)
    requires
        forall|i: int| 0 <= i < field.len() ==> (#[trigger] field[i]).returning(width, height),
    ensures
        stepped(field, width, height).len() == field.len(),
        forall|i: int|
            0 <= i < field.len() ==> (#[trigger] stepped(field, width, height)[i]).returning(
                width,
                height,
            ),
{
    assert forall|i: int| 0 <= i < field.len() implies (#[trigger] stepped(
        field,
        width,
        height,
    )[i]).returning(width, height) by {
        lemma_axis_returns(field[i].x, field[i].vx, width);
        lemma_axis_returns(field[i].y, field[i].vy, height);
    }
}

/// A seeded particle starts within its box, with less than a pixel per tick
/// of speed along each axis.
pub proof fn lemma_seeded_inside(sx: int, sy: int, svx: int, svy: int, width: int, height: int)
    requires
        0 <= sx <= u32::MAX,
        0 <= sy <= u32::MAX,
        0 <= svx <= u32::MAX,
        0 <= svy <= u32::MAX,
        0 <= width,
        0 <= height,
    ensures
        seeded_particle(sx, sy, svx, svy, width, height).inside(width, height),
        -UNIT <= seeded_particle(sx, sy, svx, svy, width, height).vx < UNIT,
        -UNIT <= seeded_particle(sx, sy, svx, svy, width, height).vy < UNIT,
{
    lemma_range_at_within(0, width, sx);
    lemma_range_at_within(0, height, sy);
    lemma_range_at_within(-(UNIT as int), UNIT as int, svx);
    lemma_range_at_within(-(UNIT as int), UNIT as int, svy);
}

} // verus!
