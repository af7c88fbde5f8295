//! A battle: the player answers the problems of one enemy until it is
//! defeated.
use vstd::prelude::*;
use crate::enemy::{
    orb_properties, Enemy, EnemyProps, EnemyPropsView, FighterState, Orb, OrbView, DEFEAT_LIMIT,
    FULL_HEALTH, WHOLE_HIT,
};
use crate::fixed::{clamp64, Vec2};
use crate::overland::{Overland, OverlandView};
use crate::particle::{eval_particles, evaluated, Burst, Emitter, Particle};
use crate::problem::{Problem, TextProblem, TextProblemView};

verus! {

/// What a wrong answer costs the player, in ten-thousandths of a full life.
pub const PLAYER_LOSS: i64 = 2_000;

/// The spread of the velocities in the blast that follows an answer.
pub const BLAST_SPREAD: i64 = 500_000;

/// The number of particles in the blast that follows an answer.
pub const BLAST_COUNT: usize = 10;

/// The life of the particles in the blast that follows an answer.
pub const BLAST_LIFE: i64 = 4_000;

/// A battle with one enemy, and the map to go back to.
pub struct Battle {
    pub land: Overland,
    pub enemy: Orb,
    pub state: FighterState,
    pub enemy_props: EnemyProps,
    pub problem: Option<TextProblem>,
    pub particles: Vec<Particle>,
}

/// What a battle holds.
pub struct BattleView {
    /// The map that the battle began on.
    pub land: OverlandView,
    /// The enemy.
    pub enemy: OrbView,
    /// The player.
    pub state: FighterState,
    /// What was shown of the enemy when the battle began.
    pub enemy_props: EnemyPropsView,
    /// The problem to answer, if there is one.
    pub problem: Option<TextProblemView>,
    /// The particles in flight.
    pub particles: Seq<Particle>,
}

/// What an optional problem holds.
pub open spec fn problem_view(p: Option<TextProblem>) -> Option<TextProblemView> {
    match p {
        Some(q) => Some(q@),
        None => None,
    }
}

impl View for Battle {
    type V = BattleView;

    open spec fn view(&self) -> BattleView {
        BattleView {
            land: self.land@,
            enemy: self.enemy@,
            state: self.state,
            enemy_props: self.enemy_props@,
            problem: problem_view(self.problem),
            particles: self.particles@,
        }
    }
}

/// The battle as it begins on the map `land` against `enemy` with a first
/// problem: the player at full health, nothing in flight.
pub open spec fn started(land: OverlandView, enemy: OrbView, problem: TextProblemView)
    -> BattleView {
    BattleView {
        land,
        enemy,
        state: FighterState { health: FULL_HEALTH },
        enemy_props: orb_properties(enemy.level),
        problem: Some(problem),
        particles: Seq::empty(),
    }
}

/// The battle after `delta` milliseconds: its particles move on.
pub open spec fn lasted(b: BattleView, delta: u32) -> BattleView {
    BattleView { particles: evaluated(b.particles, delta), ..b }
}

/// Whether `text` answers the problem of the battle.
pub open spec fn answers(b: BattleView, text: Seq<char>) -> bool {
    b.problem matches Some(p) && text == p.answer
}

/// The battle after the answer `text` to its problem: a correct answer is a
/// whole hit on the enemy, a wrong one costs the player. Without a problem
/// nothing happens.
pub open spec fn struck(b: BattleView, text: Seq<char>) -> BattleView {
    if b.problem is None {
        b
    } else if answers(b, text) {
        BattleView {
            enemy: OrbView { health: clamp64(b.enemy.health - 2 * WHOLE_HIT) as int, ..b.enemy },
            ..b
        }
    } else {
        BattleView {
            state: FighterState { health: clamp64(b.state.health - PLAYER_LOSS) },
            ..b
        }
    }
}

/// The blast that follows an answer: on the side of the enemy and toward
/// it after a correct answer, on the side of the player after a wrong one.
pub open spec fn answer_blast(correct: bool) -> Burst {
    Burst {
        emitter: Emitter::Blast,
        pos: Vec2 {
            x: if correct {
                820_000_000
            } else {
                180_000_000
            },
            y: 250_000_000,
        },
        vel: Vec2 {
            x: if correct {
                200_000
            } else {
                -200_000i64
            },
            y: 200_000,
        },
        spread: BLAST_SPREAD,
        count: BLAST_COUNT,
        life: BLAST_LIFE,
    }
}

/// Whether the enemy of the battle is defeated.
pub open spec fn won(b: BattleView) -> bool {
    b.enemy.health <= DEFEAT_LIMIT
}

/// Five correct answers defeat an enemy at full health, and four do not:
/// each takes a fifth of a full life.
pub proof fn lemma_five_hits(b: BattleView, text: Seq<char>)
    requires
        answers(b, text),
        b.enemy.health == FULL_HEALTH,
    ensures
        !won(struck(struck(struck(struck(b, text), text), text), text)),
        won(struck(struck(struck(struck(struck(b, text), text), text), text), text)),
        struck(struck(struck(struck(struck(b, text), text), text), text), text).enemy.health == 0,
        struck(struck(struck(struck(struck(b, text), text), text), text), text).state == b.state,
{
}

/// The blast that follows an answer.
pub fn blast_after(correct: bool) -> (b: Burst)
    ensures
        b == answer_blast(correct),
{
    Burst {
        emitter: Emitter::Blast,
        pos: Vec2 {
            x: if correct {
                820_000_000
            } else {
                180_000_000
            },
            y: 250_000_000,
        },
        vel: Vec2 {
            x: if correct {
                200_000
            } else {
                -200_000
            },
            y: 200_000,
        },
        spread: BLAST_SPREAD,
        count: BLAST_COUNT,
        life: BLAST_LIFE,
    }
}

impl Battle {
    /// Begins a battle on the map `land` against `enemy`, with `problem` as
    /// the first problem.
    pub fn start(land: Overland, enemy: Orb, problem: TextProblem) -> (b: Self)
        ensures
            b@ == started(land@, enemy@, problem@),
    {
        let enemy_props = enemy.get_properties();
        Battle {
            land,
            enemy_props,
            problem: Some(problem),
            enemy,
            state: FighterState::new(),
            particles: Vec::new(),
        }
    }

    /// Lets `delta` milliseconds pass.
    pub fn tick(&mut self, delta: u32)
        ensures
            final(self)@ == lasted(old(self)@, delta),
    {
        eval_particles(&mut self.particles, delta);
    }

    /// Whether `text` answers the problem of the battle.
    pub fn test_answer(&self, text: &str) -> (r: bool)
        ensures
            r == answers(self@, text@),
    {
        match &self.problem {
            Some(p) => p.test_correct(text),
            None => false,
        }
    }

    /// Takes the answer `text` to the problem of the battle and says
    /// whether it was correct; without a problem nothing happens.
    pub fn answer(&mut self, text: &str) -> (correct: bool)
        ensures
            final(self)@ == struck(old(self)@, text@),
            correct == answers(old(self)@, text@),
    {
        if self.problem.is_none() {
            return false;
        }
        let correct = self.test_answer(text);
        if correct {
            self.enemy.damage(WHOLE_HIT);
        } else {
            self.state.lose(PLAYER_LOSS);
        }
        correct
    }

    /// Whether the enemy is defeated.
    pub fn is_won(&self) -> (r: bool)
        ensures
            r == won(self@),
    {
        self.enemy.get_state().defeated()
    }
}

} // verus!
