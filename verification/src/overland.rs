//! Exploring the map: the avatar walks, meets obstacles and may run into an
//! enemy.
use vstd::prelude::*;
use crate::direction::{axis, Direction};
use crate::enemy::{Orb, OrbView};
use crate::fixed::{advance, clamp64, saturate, Vec2};
use crate::particle::{eval_particles, evaluated, Burst, Emitter, Particle};
use crate::problem::{Problem, TextProblem, TextProblemView};
use crate::sweep::{lemma_swept_items, swap_removed, swept};

verus! {

/// The speed of the avatar, in thousandths of a map unit per second.
pub const WALK_SPEED: i64 = 100_000;

/// The spread of the velocities in the firework of a solved obstacle.
pub const FIREWORK_SPREAD: i64 = 500_000;

/// The number of particles in the firework of a solved obstacle.
pub const FIREWORK_COUNT: usize = 20;

/// The life of the particles in the firework of a solved obstacle.
pub const FIREWORK_LIFE: i64 = 750;

/// A problem that blocks a place on the map until it is solved.
pub struct Obstacle {
    pub pos: Vec2,
    pub problem: TextProblem,
}

/// What an obstacle holds.
pub struct ObstacleView {
    pub pos: Vec2,
    pub problem: TextProblemView,
}

impl View for Obstacle {
    type V = ObstacleView;

    open spec fn view(&self) -> ObstacleView {
        ObstacleView { pos: self.pos, problem: self.problem@ }
    }
}

/// The map while the player explores it.
pub struct Overland {
    pub land_pos: Vec2,
    pub particles: Vec<Particle>,
    pub obstacles: Vec<Obstacle>,
    pub encounters: Vec<Orb>,
}

/// What the map holds.
pub struct OverlandView {
    /// Where the avatar stands.
    pub land_pos: Vec2,
    /// The particles in flight.
    pub particles: Seq<Particle>,
    /// The obstacles not yet solved.
    pub obstacles: Seq<ObstacleView>,
    /// The enemies not yet met.
    pub encounters: Seq<OrbView>,
}

/// The obstacles of a list, each as what it holds.
pub open spec fn obstacle_views(s: Seq<Obstacle>) -> Seq<ObstacleView> {
    Seq::new(s.len(), |i: int| s[i]@)
}

/// The enemies of a list, each as what it holds.
pub open spec fn orb_views(s: Seq<Orb>) -> Seq<OrbView> {
    Seq::new(s.len(), |i: int| s[i]@)
}

impl View for Overland {
    type V = OverlandView;

    open spec fn view(&self) -> OverlandView {
        OverlandView {
            land_pos: self.land_pos,
            particles: self.particles@,
            obstacles: obstacle_views(self.obstacles@),
            encounters: orb_views(self.encounters@),
        }
    }
}

/// The map at the start of the game: the avatar at the origin, two
/// obstacles, and three orbs of the levels one, three and five to meet.
pub open spec fn initial_overland() -> OverlandView {
    OverlandView {
        land_pos: Vec2 { x: 0, y: 0 },
        particles: Seq::empty(),
        obstacles: seq![
            ObstacleView {
                pos: Vec2 { x: 650_000_000, y: 50_000_000 },
                problem: TextProblemView { problem: "536+329"@, answer: "865"@ },
            },
            ObstacleView {
                pos: Vec2 { x: 250_000_000, y: (-80_000_000i64) },
                problem: TextProblemView { problem: "3+3"@, answer: "6"@ },
            },
        ],
        encounters: seq![
            OrbView { health: 10_000, level: 1 },
            OrbView { health: 10_000, level: 3 },
            OrbView { health: 10_000, level: 5 },
        ],
    }
}

/// The map after `delta` milliseconds with the keys of `dir` held: the
/// particles move on and the avatar walks.
pub open spec fn walked(v: OverlandView, dir: Direction, delta: u32) -> OverlandView {
    OverlandView {
        land_pos: Vec2 {
            x: clamp64(v.land_pos.x + axis(dir.right, dir.left) * WALK_SPEED * delta),
            y: clamp64(v.land_pos.y + axis(dir.up, dir.down) * WALK_SPEED * delta),
        },
        particles: evaluated(v.particles, delta),
        ..v
    }
}

/// The map without the enemy at `index`, the last enemy in its place.
pub open spec fn without_encounter(v: OverlandView, index: int) -> OverlandView {
    OverlandView { encounters: swap_removed(v.encounters, index), ..v }
}

/// The test for an obstacle that the answer `text` solves.
pub open spec fn solved_by(text: Seq<char>) -> spec_fn(ObstacleView) -> bool {
    |o: ObstacleView| o.problem.answer == text
}

/// The firework for a solved obstacle that stood at `pos`.
pub open spec fn firework_at(pos: Vec2) -> Burst {
    Burst {
        emitter: Emitter::Firework,
        pos: Vec2 { x: pos.x, y: clamp64(-pos.y) },
        vel: Vec2 { x: 0, y: 0 },
        spread: FIREWORK_SPREAD,
        count: FIREWORK_COUNT,
        life: FIREWORK_LIFE,
    }
}

/// The fireworks of a walk from index `n - 1` down to index `0` that removes
/// the obstacles that `text` solves, in the order of the walk.
pub open spec fn celebrations(s: Seq<ObstacleView>, text: Seq<char>, n: nat) -> Seq<Burst>
    decreases n,
{
    if n == 0 {
        Seq::empty()
    } else if solved_by(text)(s[n - 1]) {
        seq![firework_at(s[n - 1].pos)] + celebrations(
            swap_removed(s, n - 1),
            text,
            (n - 1) as nat,
        )
    } else {
        celebrations(s, text, (n - 1) as nat)
    }
}

/// The map after the answer `text`: the obstacles that it solves are gone.
pub open spec fn answered(v: OverlandView, text: Seq<char>) -> OverlandView {
    OverlandView { obstacles: swept(v.obstacles, solved_by(text), v.obstacles.len()), ..v }
}

/// A walk gives one firework for each obstacle that it removes.
pub proof fn lemma_celebrations_count(s: Seq<ObstacleView>, text: Seq<char>, n: nat)
    requires
        n <= s.len(),
    ensures
        celebrations(s, text, n).len() + swept(s, solved_by(text), n).len() == s.len(),
    decreases n,
{
    if n == 0 {
    } else if solved_by(text)(s[n - 1]) {
        lemma_celebrations_count(swap_removed(s, n - 1), text, (n - 1) as nat);
    } else {
        lemma_celebrations_count(s, text, (n - 1) as nat);
    }
}

/// An answer removes exactly the obstacles that it solves: none of those
/// left has it as its answer, every other obstacle is left as often as it
/// was there, and there is one firework for each obstacle removed.
pub proof fn lemma_answered_items(v: OverlandView, text: Seq<char>)
    ensures
        forall|k: int|
            0 <= k < answered(v, text).obstacles.len() ==> (#[trigger] answered(
                v,
                text,
            ).obstacles[k]).problem.answer != text,
        answered(v, text).obstacles.to_multiset() == v.obstacles.to_multiset().filter(
            |o: ObstacleView| !solved_by(text)(o),
        ),
        celebrations(v.obstacles, text, v.obstacles.len()).len() + answered(
            v,
            text,
        ).obstacles.len() == v.obstacles.len(),
{
    lemma_swept_items(v.obstacles, solved_by(text), v.obstacles.len());
    lemma_celebrations_count(v.obstacles, text, v.obstacles.len());
}

/// With only the right arrow held the avatar never moves to the left, and
/// it moves to the right as long as time passes and the map has room.
pub proof fn lemma_walk_right(v: OverlandView, dir: Direction, delta: u32)
    requires
        dir.right,
        !dir.left,
    ensures
        walked(v, dir, delta).land_pos.x >= v.land_pos.x,
        delta > 0 && v.land_pos.x + WALK_SPEED * delta <= i64::MAX ==> walked(
            v,
            dir,
            delta,
        ).land_pos.x > v.land_pos.x,
{
}

impl Overland {
    /// The map at the start of the game.
    pub fn new() -> (land: Self)
        ensures
            land@ == initial_overland(),
    {
        let mut obstacles: Vec<Obstacle> = Vec::new();
        obstacles.push(
            Obstacle {
                pos: Vec2 { x: 650_000_000, y: 50_000_000 },
                problem: TextProblem::new("536+329", "865"),
            },
        );
        obstacles.push(
            Obstacle {
                pos: Vec2 { x: 250_000_000, y: -80_000_000 },
                problem: TextProblem::new("3+3", "6"),
            },
        );
        let mut encounters: Vec<Orb> = Vec::new();
        encounters.push(Orb::new(1));
        encounters.push(Orb::new(3));
        encounters.push(Orb::new(5));
        let land = Overland {
            land_pos: Vec2 { x: 0, y: 0 },
            particles: Vec::new(),
            obstacles,
            encounters,
        };
        assert(land@.obstacles =~= initial_overland().obstacles);
        assert(land@.encounters =~= initial_overland().encounters);
        land
    }

    /// Lets `delta` milliseconds pass with the keys of `dir` held.
    pub fn walk(&mut self, dir: &Direction, delta: u32)
        ensures
            final(self)@ == walked(old(self)@, *dir, delta),
    {
        eval_particles(&mut self.particles, delta);
        let d = dir.direction();
        self.land_pos.x = advance(self.land_pos.x, d.x * WALK_SPEED, delta);
        self.land_pos.y = advance(self.land_pos.y, d.y * WALK_SPEED, delta);
    }

    /// Takes the enemy at `index` out of the pool; the last enemy of the
    /// pool takes its place.
    pub fn take_encounter(&mut self, index: usize) -> (enemy: Orb)
        requires
            index < old(self)@.encounters.len(),
        ensures
            enemy@ == old(self)@.encounters[index as int],
            final(self)@ == without_encounter(old(self)@, index as int),
    {
        let enemy = self.encounters.swap_remove(index);
        assert(self@.encounters =~= swap_removed(old(self)@.encounters, index as int));
        enemy
    }

    /// Tries the answer `text` on every obstacle, from the last to the
    /// first. Each obstacle that it solves is removed, the last obstacle
    /// taking its place, and a firework is due where it stood.
    pub fn answer(&mut self, text: &str) -> (bursts: Vec<Burst>)
        ensures
            final(self)@ == answered(old(self)@, text@),
            bursts@ == celebrations(old(self)@.obstacles, text@, old(self)@.obstacles.len()),
    {
        let ghost before = self@;
        let ghost n = self@.obstacles.len();
        let mut bursts: Vec<Burst> = Vec::new();
        let mut i: usize = self.obstacles.len();
        while i > 0
            invariant
                i <= self@.obstacles.len(),
                self@.land_pos == before.land_pos,
                self@.particles == before.particles,
                self@.encounters == before.encounters,
                n == before.obstacles.len(),
                swept(self@.obstacles, solved_by(text@), i as nat) == swept(
                    before.obstacles,
                    solved_by(text@),
                    n,
                ),
                bursts@ + celebrations(self@.obstacles, text@, i as nat) == celebrations(
                    before.obstacles,
                    text@,
                    n,
                ),
            decreases i,
        {
            i = i - 1;
            let ghost prior = self@.obstacles;
            if self.obstacles[i].problem.test_correct(text) {
                let gone = self.obstacles.swap_remove(i);
                bursts.push(
                    Burst {
                        emitter: Emitter::Firework,
                        pos: Vec2 { x: gone.pos.x, y: saturate(-(gone.pos.y as i128)) },
                        vel: Vec2 { x: 0, y: 0 },
                        spread: FIREWORK_SPREAD,
                        count: FIREWORK_COUNT,
                        life: FIREWORK_LIFE,
                    },
                );
                assert(self@.obstacles =~= swap_removed(prior, i as int));
            }
        }
        bursts
    }
}

} // verus!
