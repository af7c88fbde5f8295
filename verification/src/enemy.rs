//! Fighters and enemies.
//!
//! Health is counted in ten-thousandths of a full life, the strength of a hit
//! in thousandths of a whole hit. A hit takes a fifth of its strength: a hit
//! of strength `a` takes `2 * a` ten-thousandths.
use vstd::prelude::*;
use vstd::string::*;
use rand::rngs::SmallRng;
use crate::fixed::{clamp64, saturate};
use crate::problem::{drawn_from, gen_simple_add_sub, TextProblem};
use crate::text::{decimal, decimal_digits};

verus! {

/// The health of a fighter at the start of a battle.
pub const FULL_HEALTH: i64 = 10_000;

/// A fighter whose health is at or below this is defeated.
pub const DEFEAT_LIMIT: i64 = 1;

/// The strength of a whole hit.
pub const WHOLE_HIT: i64 = 1_000;

/// The highest level whose range of operands fits the machine's numbers.
pub const MAX_LEVEL: usize = usize::MAX / 8;

/// The health of a fighter. It is not kept within any bounds but those of
/// `i64`: it may fall below zero.
#[derive(Clone, Copy, Debug, PartialEq, Eq, Structural)]
pub struct FighterState {
    pub health: i64,
}

impl FighterState {
    /// A fighter at full health.
    pub fn new() -> (s: Self)
        ensures
            s.health == FULL_HEALTH,
    {
        FighterState { health: FULL_HEALTH }
    }

    /// Whether the fighter is defeated.
    pub fn defeated(&self) -> (r: bool)
        ensures
            r == (self.health <= DEFEAT_LIMIT),
    {
        self.health <= DEFEAT_LIMIT
    }

    /// Takes `loss` ten-thousandths from the health.
    pub fn lose(&mut self, loss: i64)
        ensures
            final(self).health == clamp64(old(self).health - loss),
    {
        self.health = saturate(self.health as i128 - loss as i128);
    }
}

/// What an enemy does of its own accord.
#[derive(Clone, Copy, Debug, PartialEq, Eq, Structural)]
pub enum EnemyAction {
    /// An attack of the given strength.
    Attack(i64),
}

/// The picture that stands for an enemy.
#[derive(Clone, Copy, Debug, PartialEq, Eq, Structural)]
pub enum CardKind {
    /// A plain circle.
    Circle,
    /// A turning orb.
    Orb,
}

/// What is shown of an enemy.
pub struct EnemyProps {
    pub level: String,
    pub class: String,
    pub name: String,
    pub card: CardKind,
}

/// What the shown properties of an enemy hold.
pub struct EnemyPropsView {
    pub level: Seq<char>,
    pub class: Seq<char>,
    pub name: Seq<char>,
    pub card: CardKind,
}

impl View for EnemyProps {
    type V = EnemyPropsView;

    open spec fn view(&self) -> EnemyPropsView {
        EnemyPropsView {
            level: self.level@,
            class: self.class@,
            name: self.name@,
            card: self.card,
        }
    }
}

/// An opponent in battle.
pub trait Enemy {
    /// The health of the enemy.
    spec fn health(&self) -> int;

    /// What is shown of the enemy.
    spec fn properties(&self) -> EnemyPropsView;

    /// The range from which the operands of its problems are drawn: from the
    /// first number up to, not including, the second.
    spec fn operands(&self) -> (nat, nat);

    /// The state of the enemy as a fighter.
    fn get_state(&self) -> (s: FighterState)
        ensures
            s.health == self.health(),
    ;

    /// What is shown of the enemy.
    fn get_properties(&self) -> (p: EnemyProps)
        ensures
            p@ == self.properties(),
    ;

    /// Hits the enemy with the given strength: its health falls by a fifth
    /// of the strength and is not stopped at zero.
    fn damage(&mut self, amount: i64)
        ensures
            final(self).health() == clamp64(old(self).health() - 2 * amount),
            final(self).properties() == old(self).properties(),
            final(self).operands() == old(self).operands(),
    ;

    /// Lets the enemy act after `delta` milliseconds.
    fn act(&mut self, delta: u32) -> (r: Option<EnemyAction>)
        ensures
            final(self).properties() == old(self).properties(),
            final(self).operands() == old(self).operands(),
    ;

    /// A new problem of the enemy's difficulty.
    fn generate_problem(&mut self, rng: &mut SmallRng) -> (p: TextProblem)
        ensures
            final(self).health() == old(self).health(),
            final(self).properties() == old(self).properties(),
            final(self).operands() == old(self).operands(),
            drawn_from(old(self).operands().0, old(self).operands().1, p@),
    ;
}

/// An orb of some level.
pub struct Orb {
    state: FighterState,
    level: usize,
}

/// What an orb holds.
pub struct OrbView {
    pub health: int,
    pub level: nat,
}

/// What is shown of an orb of the given level: up to level three it is a
/// circle, above that an orb.
pub open spec fn orb_properties(level: nat) -> EnemyPropsView {
    EnemyPropsView {
        level: decimal_digits(level),
        class: "spheroid"@,
        name: if level <= 3 {
            "Circle"@
        } else {
            "Orb"@
        },
        card: if level <= 3 {
            CardKind::Circle
        } else {
            CardKind::Orb
        },
    }
}

/// The range of the operands in the problems of an orb: from twice its
/// level up to, not including, eight times its level.
pub open spec fn orb_operands(level: nat) -> (nat, nat) {
    (level * 2, level * 8)
}

impl View for Orb {
    type V = OrbView;

    closed spec fn view(&self) -> OrbView {
        OrbView { health: self.state.health as int, level: self.level as nat }
    }
}

impl Orb {
    #[verifier::type_invariant]
    spec fn level_in_range(self) -> bool {
        self.level <= MAX_LEVEL
    }

    /// An orb of the given level at full health.
    pub fn new(level: usize) -> (orb: Self)
        requires
            level <= MAX_LEVEL,
        ensures
            orb@ == (OrbView { health: FULL_HEALTH as int, level: level as nat }),
    {
        Orb { level, state: FighterState { health: FULL_HEALTH } }
    }

    /// The level of the orb, which is at most `MAX_LEVEL`.
    pub fn level(&self) -> (r: usize)
        ensures
            r == self@.level,
            r <= MAX_LEVEL,
    {
        proof {
            use_type_invariant(self);
        }
        self.level
    }
}

impl Enemy for Orb {
    open spec fn health(&self) -> int {
        self@.health
    }

    open spec fn properties(&self) -> EnemyPropsView {
        orb_properties(self@.level)
    }

    open spec fn operands(&self) -> (nat, nat) {
        orb_operands(self@.level)
    }

    fn get_state(&self) -> (s: FighterState) {
        self.state
    }

    fn get_properties(&self) -> (p: EnemyProps) {
        let circle = self.level <= 3;
        EnemyProps {
            level: decimal(self.level as u128),
            class: String::from_str("spheroid"),
            name: if circle {
                String::from_str("Circle")
            } else {
                String::from_str("Orb")
            },
            card: if circle {
                CardKind::Circle
            } else {
                CardKind::Orb
            },
        }
    }

    fn damage(&mut self, amount: i64)
        ensures
            final(self)@.level == old(self)@.level,
    {
        proof {
            use_type_invariant(&*self);
        }
        self.state.health = saturate(self.state.health as i128 - 2 * (amount as i128));
    }

    fn act(&mut self, delta: u32) -> (r: Option<EnemyAction>)
        ensures
            r is None,
            final(self)@ == old(self)@,
    {
        None
    }

    fn generate_problem(&mut self, rng: &mut SmallRng) -> (p: TextProblem)
        ensures
            final(self)@ == old(self)@,
    {
        proof {
            use_type_invariant(&*self);
        }
        gen_simple_add_sub(rng, self.level * 2, self.level * 8)
    }
}

} // verus!
