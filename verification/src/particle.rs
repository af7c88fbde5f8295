//! Particles: points that fly under gravity and damping for a limited time.
use vstd::prelude::*;
use crate::fixed::{
    advance, clamp64, halved, lemma_retention_bound, lemma_scaled_bound, lemma_whole_halvings,
    retention, retention_exec, saturate, scale, scaled, Vec2, ONE,
};
use crate::sweep::{lemma_swept_items, swept};

verus! {

/// The downward pull on the particles of a blast.
pub const BLAST_GRAVITY: i64 = 400;

/// The damping of the particles of a firework.
pub const FIREWORK_DAMPING: u32 = 10;

/// One particle. It is expired once its remaining life is below zero.
#[derive(Clone, Copy, Debug, PartialEq, Eq, Structural)]
pub struct Particle {
    pub vel: Vec2,
    pub pos: Vec2,
    pub grav: Vec2,
    pub damp: u32,
    pub life: i64,
}

/// One coordinate of the velocity after a step of `delta` milliseconds:
/// gravity is added first, then damping takes its share.
pub open spec fn stepped_velocity(vel: i64, grav: i64, damp: u32, delta: u32) -> i64 {
    scaled(clamp64(vel + grav * delta) as int, retention(damp, delta)) as i64
}

/// The particle after a step of `delta` milliseconds: the velocity changes
/// first, the position then moves by the new velocity, and the remaining
/// life falls by `delta`.
pub open spec fn ticked(p: Particle, delta: u32) -> Particle {
    let vx = stepped_velocity(p.vel.x, p.grav.x, p.damp, delta);
    let vy = stepped_velocity(p.vel.y, p.grav.y, p.damp, delta);
    Particle {
        vel: Vec2 { x: vx, y: vy },
        pos: Vec2 { x: clamp64(p.pos.x + vx * delta), y: clamp64(p.pos.y + vy * delta) },
        grav: p.grav,
        damp: p.damp,
        life: clamp64(p.life - delta),
    }
}

/// The particle after `n` steps of `delta` milliseconds each.
pub open spec fn ticked_times(p: Particle, delta: u32, n: nat) -> Particle
    decreases n,
{
    if n == 0 {
        p
    } else {
        ticked(ticked_times(p, delta, (n - 1) as nat), delta)
    }
}

/// Every particle of `s` after a step of `delta` milliseconds.
pub open spec fn ticked_all(s: Seq<Particle>, delta: u32) -> Seq<Particle> {
    Seq::new(s.len(), |i: int| ticked(s[i], delta))
}

/// The test for an expired particle.
pub open spec fn expired() -> spec_fn(Particle) -> bool {
    |p: Particle| p.life < 0
}

/// The particles of `s` after a step of `delta` milliseconds, the expired
/// ones removed in a walk from the last to the first.
pub open spec fn evaluated(s: Seq<Particle>, delta: u32) -> Seq<Particle> {
    swept(ticked_all(s, delta), expired(), s.len())
}

/// The particle of a blast: it falls freely.
pub open spec fn blast_particle(pos: Vec2, vel: Vec2, life: i64) -> Particle {
    Particle { pos, vel, life, damp: 0, grav: Vec2 { x: 0, y: BLAST_GRAVITY } }
}

/// The particle of a firework: no gravity, its velocity dies away.
pub open spec fn firework_particle(pos: Vec2, vel: Vec2, life: i64) -> Particle {
    Particle { pos, vel, life, damp: FIREWORK_DAMPING, grav: Vec2 { x: 0, y: 0 } }
}

/// The two kinds of emitter.
#[derive(Clone, Copy, Debug, PartialEq, Eq, Structural)]
pub enum Emitter {
    /// Particles that fall freely.
    Blast,
    /// Particles without gravity whose velocity dies away.
    Firework,
}

/// A burst of particles that is due. The velocities of its particles are
/// drawn by the caller, `count` of them, each coordinate from a normal
/// distribution around that of `vel` with the standard deviation `spread`.
#[derive(Clone, Copy, Debug, PartialEq, Eq, Structural)]
pub struct Burst {
    pub emitter: Emitter,
    pub pos: Vec2,
    pub vel: Vec2,
    pub spread: i64,
    pub count: usize,
    pub life: i64,
}

/// The particles of the burst `b` with the drawn `velocities`: as many as
/// the burst counts, each with its own velocity.
pub open spec fn burst_particles(b: Burst, velocities: Seq<Vec2>) -> Seq<Particle> {
    Seq::new(
        b.count as nat,
        |i: int|
            match b.emitter {
                Emitter::Blast => blast_particle(b.pos, velocities[i], b.life),
                Emitter::Firework => firework_particle(b.pos, velocities[i], b.life),
            },
    )
}

/// Without damping a step adds gravity times the time to the velocity, as
/// far as `i64` reaches.
pub proof fn lemma_undamped_step(vel: i64, grav: i64, delta: u32)
    ensures
        stepped_velocity(vel, grav, 0, delta) == clamp64(vel + grav * delta),
{
    assert(0 * delta == 0) by (nonlinear_arith);
    lemma_retention_bound(0, delta);
    lemma_scaled_bound(clamp64(vel + grav * delta) as int, ONE as nat);
}

/// Whole halvings are exact: where the damping makes just `k` halvings in
/// the time of a step, the velocity after the step is the velocity with
/// gravity added, halved `k` times.
pub proof fn lemma_halving_step(vel: i64, grav: i64, damp: u32, delta: u32, k: nat)
    requires
        damp * delta == 1000 * k,
    ensures
        k <= 32 ==> stepped_velocity(vel, grav, damp, delta) == halved(
            clamp64(vel + grav * delta) as int,
            k,
        ),
        k > 32 ==> stepped_velocity(vel, grav, damp, delta) == 0,
{
    let v = clamp64(vel + grav * delta) as int;
    lemma_whole_halvings(damp, delta, k, v);
    lemma_retention_bound(damp, delta);
    lemma_scaled_bound(v, retention(damp, delta));
}

/// Free fall is exact: a particle without damping and without sideways
/// gravity has, after `n` steps of `delta` milliseconds, its first vertical
/// velocity plus gravity times the whole time, its first horizontal
/// velocity, and its first life less the whole time, provided that these
/// values are in the range of `i64`.
pub proof fn lemma_ballistic(p: Particle, delta: u32, n: nat)
    requires
        p.damp == 0,
        p.grav.x == 0,
        i64::MIN <= p.vel.y + p.grav.y * (delta * n) <= i64::MAX,
        i64::MIN <= p.life - delta * n,
    ensures
        ticked_times(p, delta, n).vel.y == p.vel.y + p.grav.y * (delta * n),
        ticked_times(p, delta, n).vel.x == p.vel.x,
        ticked_times(p, delta, n).life == p.life - delta * n,
        ticked_times(p, delta, n).grav == p.grav,
        ticked_times(p, delta, n).damp == p.damp,
    decreases n,
{
    if n > 0 {
        let m = (n - 1) as nat;
        let g = p.grav.y as int;
        let d = delta as int;
        assert(d * n == d * m + d) by (nonlinear_arith)
            requires
                m == n - 1,
        ;
        assert(g * (d * n) == g * (d * m) + g * d) by (nonlinear_arith)
            requires
                d * n == d * m + d,
        ;
        assert(0 <= d * m) by (nonlinear_arith)
            requires
                0 <= d,
                0 <= m,
        ;
        // the velocity after m steps lies between the first and the last
        assert((g >= 0 ==> 0 <= g * (d * m) <= g * (d * n)) && (g <= 0 ==> g * (d * n) <= g * (d
            * m) <= 0)) by (nonlinear_arith)
            requires
                0 <= d * m <= d * n,
        ;
        lemma_ballistic(p, delta, m);
        let q = ticked_times(p, delta, m);
        lemma_undamped_step(q.vel.y, q.grav.y, delta);
        lemma_undamped_step(q.vel.x, q.grav.x, delta);
        assert(q.grav.x * delta == 0) by (nonlinear_arith)
            requires
                q.grav.x == 0,
        ;
    } else {
        assert(p.grav.y * (delta * n) == 0 && delta * n == 0) by (nonlinear_arith)
            requires
                n == 0,
        ;
    }
}

/// After the particles are evaluated none of them is expired, and each
/// particle that is not expired after its step is there as often as before:
/// exactly the expired ones are gone.
pub proof fn lemma_evaluated_items(s: Seq<Particle>, delta: u32)
    ensures
        forall|k: int|
            0 <= k < evaluated(s, delta).len() ==> (#[trigger] evaluated(s, delta)[k]).life >= 0,
        evaluated(s, delta).to_multiset() == ticked_all(s, delta).to_multiset().filter(
            |p: Particle| !expired()(p),
        ),
        evaluated(s, delta).len() <= s.len(),
{
    lemma_swept_items(ticked_all(s, delta), expired(), s.len());
}

impl Particle {
    /// Moves the particle on by `delta` milliseconds.
    pub fn tick(&mut self, delta: u32)
        ensures
            *final(self) == ticked(*old(self), delta),
    {
        let factor: u64 = retention_exec(self.damp, delta);
        let gx: i64 = advance(self.vel.x, self.grav.x, delta);
        let gy: i64 = advance(self.vel.y, self.grav.y, delta);
        proof {
            lemma_scaled_bound(gx as int, factor as nat);
            lemma_scaled_bound(gy as int, factor as nat);
        }
        let vx: i64 = scale(gx, factor);
        let vy: i64 = scale(gy, factor);
        self.vel = Vec2 { x: vx, y: vy };
        self.pos = Vec2 { x: advance(self.pos.x, vx, delta), y: advance(self.pos.y, vy, delta) };
        self.life = saturate(self.life as i128 - delta as i128);
    }
}

/// The particles of a blast from `pos`, one for each of the velocities.
pub fn blast(pos: Vec2, velocities: &Vec<Vec2>, life: i64) -> (r: Vec<Particle>)
    ensures
        r@ == Seq::new(velocities@.len(), |i: int| blast_particle(pos, velocities@[i], life)),
{
    let mut r: Vec<Particle> = Vec::new();
    let mut i: usize = 0;
    while i < velocities.len()
        invariant
            i <= velocities@.len(),
            r@ == Seq::new(i as nat, |k: int| blast_particle(pos, velocities@[k], life)),
        decreases velocities@.len() - i,
    {
        r.push(
            Particle {
                pos,
                vel: velocities[i],
                life,
                damp: 0,
                grav: Vec2 { x: 0, y: BLAST_GRAVITY },
            },
        );
        i = i + 1;
    }
    r
}

/// The particles of a firework from `pos`, one for each of the velocities.
pub fn firework(pos: Vec2, velocities: &Vec<Vec2>, life: i64) -> (r: Vec<Particle>)
    ensures
        r@ == Seq::new(velocities@.len(), |i: int| firework_particle(pos, velocities@[i], life)),
{
    let mut r: Vec<Particle> = Vec::new();
    let mut i: usize = 0;
    while i < velocities.len()
        invariant
            i <= velocities@.len(),
            r@ == Seq::new(i as nat, |k: int| firework_particle(pos, velocities@[k], life)),
        decreases velocities@.len() - i,
    {
        r.push(
            Particle {
                pos,
                vel: velocities[i],
                life,
                damp: FIREWORK_DAMPING,
                grav: Vec2 { x: 0, y: 0 },
            },
        );
        i = i + 1;
    }
    r
}

impl Burst {
    /// The particles of this burst: as many as it counts, one for each of
    /// the drawn velocities.
    pub fn particles(&self, velocities: &Vec<Vec2>) -> (r: Vec<Particle>)
        requires
            velocities@.len() == self.count,
        ensures
            r@ == burst_particles(*self, velocities@),
            r@.len() == self.count,
    {
        match self.emitter {
            Emitter::Blast => {
                blast(self.pos, velocities, self.life)
            },
            Emitter::Firework => {
                firework(self.pos, velocities, self.life)
            },
        }
    }
}

/// Moves every particle on by `delta` milliseconds and removes those that
/// have expired.
pub fn eval_particles(particles: &mut Vec<Particle>, delta: u32)
    ensures
        final(particles)@ == evaluated(old(particles)@, delta),
{
    let ghost before = particles@;
    let n: usize = particles.len();
    let mut k: usize = 0;
    while k < n
        invariant
            k <= n,
            particles@.len() == n,
            before.len() == n,
            forall|j: int| 0 <= j < k ==> particles@[j] == ticked(before[j], delta),
            forall|j: int| k <= j < n ==> particles@[j] == before[j],
        decreases n - k,
    {
        let mut p: Particle = particles[k];
        p.tick(delta);
        particles.set(k, p);
        k = k + 1;
    }
    assert(particles@ =~= ticked_all(before, delta));
    let mut i: usize = n;
    while i > 0
        invariant
            i <= particles@.len(),
            swept(particles@, expired(), i as nat) == evaluated(before, delta),
        decreases i,
    {
        i = i - 1;
        if particles[i].life < 0 {
            particles.swap_remove(i);
        }
    }
}

} // verus!
