//! The game as a state machine: a title screen, the map, and battles that
//! begin on the map and end on it.
//!
//! Every event is handled in two parts. The draws that the event may need
//! are made first, by `draw_encounter` and `draw_problem`; what the event
//! does with them is then fixed: `tick_with`, `key_down_with` and `key_up`
//! each lead to one state for each value of the draws. `update` does both.
//! Which enemy a tick runs into follows from the outcome of the roll and
//! the enemy chosen from the pool by `meet`.
//!
//! The velocities of new particles are drawn by the caller: an event hands
//! back the bursts that are due, and `spawn` takes the drawn velocities of
//! one burst, as many as the burst counts.
use vstd::prelude::*;
use rand::rngs::SmallRng;
use crate::battle::{
    answer_blast, answers, blast_after, lasted, started, struck, won, Battle, BattleView,
};
use crate::context::{elapsed, Context};
use crate::direction::{axis, with_key, Direction};
use crate::enemy::{orb_operands, Enemy};
use crate::fixed::Vec2;
use crate::overland::{
    answered, celebrations, initial_overland, walked, without_encounter, Overland, OverlandView,
};
use crate::particle::{burst_particles, Burst};
use crate::problem::{drawn_from, TextProblem, TextProblemView};
use crate::rng::{choose_item, draw_below};
use crate::sweep::{lemma_swap_removed_items, swap_removed};
use crate::text::same_text;
use crate::textbox::{after_key, TextBox, TextBoxView};

verus! {

/// An encounter is rolled for among this many equal outcomes.
pub const ENCOUNTER_ROLLS: usize = 100;

/// The outcomes of the roll below this number lead to an encounter.
pub const ENCOUNTER_HITS: usize = 1;

/// What the game shows: exactly one of these at any time.
pub enum State {
    Title,
    Overland(Overland),
    Battle(Battle),
}

/// What a state holds.
pub enum StateView {
    Title,
    Overland(OverlandView),
    Battle(BattleView),
}

impl View for State {
    type V = StateView;

    open spec fn view(&self) -> StateView {
        match self {
            State::Title => StateView::Title,
            State::Overland(land) => StateView::Overland(land@),
            State::Battle(battle) => StateView::Battle(battle@),
        }
    }
}

/// An event.
pub enum Msg {
    /// This many milliseconds have passed.
    AnimTick(u32),
    /// The key of this code went down.
    KeyDown(String),
    /// The key of this code came up.
    KeyUp(String),
}

/// The whole game.
pub struct Model {
    pub state: State,
    pub dir: Direction,
    pub text: TextBox,
    pub ctx: Context,
}

/// What the game holds.
pub struct ModelView {
    pub state: StateView,
    pub dir: Direction,
    pub text: TextBoxView,
    pub ctx: Context,
}

impl View for Model {
    type V = ModelView;

    open spec fn view(&self) -> ModelView {
        ModelView { state: self.state@, dir: self.dir, text: self.text@, ctx: self.ctx }
    }
}

/// What an optional pick of an enemy with its first problem holds.
pub open spec fn chance_view(chance: Option<(usize, TextProblem)>) -> Option<
    (usize, TextProblemView),
> {
    match chance {
        Some((i, p)) => Some((i, p@)),
        None => None,
    }
}

/// What an optional problem holds.
pub open spec fn fresh_view(fresh: Option<TextProblem>) -> Option<TextProblemView> {
    match fresh {
        Some(p) => Some(p@),
        None => None,
    }
}

/// The place in the pool that a pick names.
pub open spec fn picked(chance: Option<(usize, TextProblemView)>) -> int {
    match chance {
        Some((i, p)) => i as int,
        None => 0,
    }
}

/// The first problem that a pick comes with.
pub open spec fn first_problem(chance: Option<(usize, TextProblemView)>) -> TextProblemView {
    match chance {
        Some((i, p)) => p,
        None => TextProblemView { problem: Seq::empty(), answer: Seq::empty() },
    }
}

/// Whether the held keys move the avatar.
pub open spec fn moving(dir: Direction) -> bool {
    axis(dir.right, dir.left) != 0 || axis(dir.up, dir.down) != 0
}

/// Whether the outcome `roll` of the roll leads to an encounter.
pub open spec fn encounter_due(roll: usize) -> bool {
    roll < ENCOUNTER_HITS
}

/// The answer box under the rule of the state `s`: the arrow keys move the
/// cursor in a battle and nowhere else.
pub open spec fn with_policy(t: TextBoxView, s: StateView) -> TextBoxView {
    TextBoxView { movement: s is Battle, ..t }
}

/// The empty answer box.
pub open spec fn empty_box() -> TextBoxView {
    TextBoxView { text: Seq::empty(), cursor: 0, movement: true }
}

/// Whether a tick with the pick `chance` begins a battle: the game is on
/// the map, the avatar is moving, and the pick names an enemy of the pool.
pub open spec fn encounter(m: ModelView, chance: Option<(usize, TextProblemView)>) -> bool {
    &&& m.state is Overland
    &&& moving(m.dir)
    &&& chance matches Some((i, p))
    &&& i < m.state->Overland_0.encounters.len()
}

/// A pick that a tick may come with: none at all, or, on the map and with
/// the avatar moving, an enemy of the pool with a problem of its level.
pub open spec fn chance_ok(m: ModelView, chance: Option<(usize, TextProblemView)>) -> bool {
    chance matches Some((i, p)) ==> {
        &&& encounter(m, chance)
        &&& drawn_from(
            orb_operands(m.state->Overland_0.encounters[i as int].level).0,
            orb_operands(m.state->Overland_0.encounters[i as int].level).1,
            p,
        )
    }
}

/// The enemy that a tick runs into, given what was drawn for it: the
/// outcome `roll` of the roll, and the enemy `choice` chosen from the pool,
/// if one was chosen. The tick runs into that enemy if the game is on the
/// map, the avatar is moving, the outcome leads to an encounter and the
/// choice names an enemy of the pool; else it runs into none.
pub open spec fn met(m: ModelView, roll: usize, choice: Option<usize>) -> Option<usize> {
    if m.state is Overland && moving(m.dir) && encounter_due(roll) && choice is Some
        && choice.unwrap() < m.state->Overland_0.encounters.len() {
        choice
    } else {
        None
    }
}

/// The game after a tick of `delta` milliseconds that came with the pick
/// `chance`.
///
/// On the title screen nothing moves. On the map the particles move on and
/// the avatar walks; if the pick begins a battle, the picked enemy leaves
/// the pool, the battle begins on the map as it then is, and the clock of
/// the scene starts anew. In a battle the particles move on. The clocks
/// then run for `delta`.
pub open spec fn after_tick(m: ModelView, delta: u32, chance: Option<(usize, TextProblemView)>)
    -> ModelView {
    let state = match m.state {
        StateView::Title => StateView::Title,
        StateView::Overland(land) => {
            let land = walked(land, m.dir, delta);
            if encounter(m, chance) {
                StateView::Battle(
                    started(
                        without_encounter(land, picked(chance)),
                        land.encounters[picked(chance)],
                        first_problem(chance),
                    ),
                )
            } else {
                StateView::Overland(land)
            }
        },
        StateView::Battle(b) => StateView::Battle(lasted(b, delta)),
    };
    let ctx = if encounter(m, chance) {
        Context { anim_t: 0, ..m.ctx }
    } else {
        m.ctx
    };
    ModelView { state, dir: m.dir, text: with_policy(m.text, state), ctx: elapsed(ctx, delta) }
}

/// Whether the key `key` on the state of `m` asks for a new problem to be
/// drawn: it is `Enter`, in a battle that has a problem.
pub open spec fn needs_problem(m: ModelView, key: Seq<char>) -> bool {
    &&& key == "Enter"@
    &&& m.state is Battle
    &&& m.state->Battle_0.problem is Some
}

/// A problem that a key may come with: one of the enemy's level where a new
/// problem is asked for, and none elsewhere.
pub open spec fn fresh_ok(m: ModelView, key: Seq<char>, fresh: Option<TextProblemView>) -> bool {
    &&& fresh is Some <==> needs_problem(m, key)
    &&& fresh matches Some(p) ==> drawn_from(
        orb_operands(m.state->Battle_0.enemy.level).0,
        orb_operands(m.state->Battle_0.enemy.level).1,
        p,
    )
}

/// The game after the key `key` went down, and the bursts that are due.
/// `fresh` is the problem to go on with where a battle goes on.
///
/// The key first reaches the answer box and the arrow flags. `Enter` then
/// leaves the title screen for a new map; on the map it tries the text of
/// the box on every obstacle, with a firework for each one solved; in a
/// battle with a problem it is the answer: a correct one hits the enemy and
/// sets the clock of the last hit to zero, a wrong one costs the player. A
/// battle whose enemy is then defeated ends on its map, and everything in
/// flight ends with it; any other goes on with `fresh` and a blast. In each
/// of these `Enter` leaves the box empty, but on the title screen.
pub open spec fn after_key_down(m: ModelView, key: Seq<char>, fresh: Option<TextProblemView>)
    -> (ModelView, Seq<Burst>) {
    let typed = after_key(with_policy(m.text, m.state), key);
    let dir = with_key(m.dir, key, true);
    let enter = key == "Enter"@;
    match m.state {
        StateView::Title => {
            let state = if enter {
                StateView::Overland(initial_overland())
            } else {
                StateView::Title
            };
            (ModelView { state, dir, text: with_policy(typed, state), ctx: m.ctx }, Seq::empty())
        },
        StateView::Overland(land) => {
            if enter {
                let state = StateView::Overland(answered(land, typed.text));
                (
                    ModelView { state, dir, text: with_policy(empty_box(), state), ctx: m.ctx },
                    celebrations(land.obstacles, typed.text, land.obstacles.len()),
                )
            } else {
                (
                    ModelView { state: m.state, dir, text: with_policy(typed, m.state), ctx: m.ctx },
                    Seq::empty(),
                )
            }
        },
        StateView::Battle(b) => {
            if enter && b.problem is Some {
                let hit = answers(b, typed.text);
                let b = struck(b, typed.text);
                let ctx = if hit {
                    Context { time_damage: 0, ..m.ctx }
                } else {
                    m.ctx
                };
                if won(b) {
                    let state = StateView::Overland(b.land);
                    (
                        ModelView { state, dir, text: with_policy(empty_box(), state), ctx },
                        Seq::empty(),
                    )
                } else {
                    let state = StateView::Battle(BattleView { problem: fresh, ..b });
                    (
                        ModelView { state, dir, text: with_policy(empty_box(), state), ctx },
                        seq![answer_blast(hit)],
                    )
                }
            } else {
                (
                    ModelView { state: m.state, dir, text: with_policy(typed, m.state), ctx: m.ctx },
                    Seq::empty(),
                )
            }
        },
    }
}

/// The game after the key `key` came up: only its arrow flag changes.
pub open spec fn after_key_up(m: ModelView, key: Seq<char>) -> ModelView {
    ModelView { dir: with_key(m.dir, key, false), text: with_policy(m.text, m.state), ..m }
}

/// The game with the particles of `burst` in flight, on the map or in the
/// battle that is on; the title screen takes none.
pub open spec fn spawned(m: ModelView, burst: Burst, velocities: Seq<Vec2>) -> ModelView {
    let state = match m.state {
        StateView::Title => StateView::Title,
        StateView::Overland(land) => StateView::Overland(
            OverlandView { particles: land.particles + burst_particles(burst, velocities), ..land },
        ),
        StateView::Battle(b) => StateView::Battle(
            BattleView { particles: b.particles + burst_particles(burst, velocities), ..b },
        ),
    };
    ModelView { state, ..m }
}

/// What `update` may lead to: for each event the state that follows from
/// it and from some draws that it may have come with.
pub open spec fn updated(
    m: ModelView,
    msg: Msg,
    after: ModelView,
    bursts: Seq<Burst>,
) -> bool {
    match msg {
        Msg::AnimTick(delta) => {
            &&& bursts == Seq::<Burst>::empty()
            &&& exists|chance: Option<(usize, TextProblemView)>|
                chance_ok(m, chance) && after == #[trigger] after_tick(m, delta, chance)
        },
        Msg::KeyDown(key) => {
            exists|fresh: Option<TextProblemView>|
                fresh_ok(m, key@, fresh) && (after, bursts) == #[trigger] after_key_down(
                    m,
                    key@,
                    fresh,
                )
        },
        Msg::KeyUp(key) => {
            &&& bursts == Seq::<Burst>::empty()
            &&& after == after_key_up(m, key@)
        },
    }
}

/// A battle begins on the map that the avatar stood on and keeps it: the
/// obstacles as they were, the pool without the enemy that is fought. The
/// answer that defeats the enemy leads back to that very map, so the enemy
/// is not met again.
pub proof fn lemma_battle_returns(
    m: ModelView,
    delta: u32,
    chance: Option<(usize, TextProblemView)>,
    key: Seq<char>,
    fresh: Option<TextProblemView>,
)
    requires
        encounter(m, chance),
    ensures
        after_tick(m, delta, chance).state is Battle,
        after_tick(m, delta, chance).state->Battle_0.land.obstacles
            == m.state->Overland_0.obstacles,
        after_tick(m, delta, chance).state->Battle_0.land.encounters == swap_removed(
            m.state->Overland_0.encounters,
            picked(chance),
        ),
        after_tick(m, delta, chance).state->Battle_0.land.encounters.len()
            == m.state->Overland_0.encounters.len() - 1,
        after_tick(m, delta, chance).state->Battle_0.land.encounters.to_multiset()
            == m.state->Overland_0.encounters.to_multiset().remove(
            m.state->Overland_0.encounters[picked(chance)],
        ),
        after_tick(m, delta, chance).state->Battle_0.enemy
            == m.state->Overland_0.encounters[picked(chance)],
        ({
            let n = after_tick(m, delta, chance);
            let b = n.state->Battle_0;
            key == "Enter"@ && won(struck(b, after_key(n.text, key).text)) ==> after_key_down(
                n,
                key,
                fresh,
            ).0.state == StateView::Overland(b.land)
        }),
{
    lemma_swap_removed_items(m.state->Overland_0.encounters, picked(chance));
}

/// Each event leaves the answer box under the rule of the state that it
/// leads to. A tick never turns the clock of the last hit back, and turns
/// the clock of the scene back only where a battle begins.
pub proof fn lemma_policy_kept(
    m: ModelView,
    delta: u32,
    chance: Option<(usize, TextProblemView)>,
    key: Seq<char>,
    fresh: Option<TextProblemView>,
)
    ensures
        after_tick(m, delta, chance).text.movement == (after_tick(m, delta, chance).state is Battle),
        after_key_down(m, key, fresh).0.text.movement == (after_key_down(
            m,
            key,
            fresh,
        ).0.state is Battle),
        after_key_up(m, key).text.movement == (m.state is Battle),
        after_tick(m, delta, chance).ctx.time_damage >= m.ctx.time_damage,
        !encounter(m, chance) ==> after_tick(m, delta, chance).ctx.anim_t >= m.ctx.anim_t,
{
}

impl State {
    /// The map for changing, if the game is on it: what is done to it is
    /// done to the state.
    pub fn as_overland_mut(&mut self) -> (r: Option<&mut Overland>)
        ensures
            r is Some <==> *old(self) is Overland,
            r matches Some(land) ==> *land == (*old(self))->Overland_0 && *final(self)
                == State::Overland(*final(land)),
            r is None ==> *final(self) == *old(self),
    {
        if let State::Overland(land) = self {
            Some(land)
        } else {
            None
        }
    }

    /// The map, if the game is on it.
    pub fn as_overland(&self) -> (r: Option<&Overland>)
        ensures
            r is Some <==> self is Overland,
            r matches Some(land) ==> *land == self->Overland_0,
    {
        if let State::Overland(land) = self {
            Some(land)
        } else {
            None
        }
    }

    /// The battle, if one is on.
    pub fn as_battle(&self) -> (r: Option<&Battle>)
        ensures
            r is Some <==> self is Battle,
            r matches Some(battle) ==> *battle == self->Battle_0,
    {
        if let State::Battle(battle) = self {
            Some(battle)
        } else {
            None
        }
    }

    /// Whether a battle is on.
    pub fn is_battle(&self) -> (r: bool)
        ensures
            r == (self@ is Battle),
    {
        match self {
            State::Battle(_) => true,
            _ => false,
        }
    }
}

/// The numbers from zero up to, not including, `n`.
fn indices(n: usize) -> (r: Vec<usize>)
    ensures
        r@.len() == n,
        forall|i: int| 0 <= i < n ==> r@[i] == i,
{
    let mut r: Vec<usize> = Vec::new();
    let mut i: usize = 0;
    while i < n
        invariant
            i <= n,
            r@.len() == i,
            forall|k: int| 0 <= k < i ==> r@[k] == k,
        decreases n - i,
    {
        r.push(i);
        i = i + 1;
    }
    r
}

/// Whether the outcome `roll` of the roll leads to an encounter.
pub fn is_encounter_due(roll: usize) -> (r: bool)
    ensures
        r == encounter_due(roll),
{
    roll < ENCOUNTER_HITS
}

impl Model {
    /// The game on its title screen, no key held, the answer box empty.
    pub fn new() -> (m: Self)
        ensures
            m@ == (ModelView {
                state: StateView::Title,
                dir: Direction { up: false, down: false, left: false, right: false },
                text: empty_box(),
                ctx: Context { anim_t: 0, time_damage: 0 },
            }),
    {
        Model {
            state: State::Title,
            dir: Direction::new(),
            text: TextBox::new(),
            ctx: Context::new(),
        }
    }

    /// Takes the state out and leaves the title screen in its place.
    fn swap_state_out(&mut self) -> (s: State)
        ensures
            s == old(self).state,
            final(self).state == State::Title,
            final(self).dir == old(self).dir,
            final(self).text == old(self).text,
            final(self).ctx == old(self).ctx,
    {
        let mut s = State::Title;
        core::mem::swap(&mut s, &mut self.state);
        s
    }

    /// Puts the state `s` in.
    fn swap_state_in(&mut self, s: State)
        ensures
            final(self).state == s,
            final(self).dir == old(self).dir,
            final(self).text == old(self).text,
            final(self).ctx == old(self).ctx,
    {
        self.state = s;
    }

    /// The enemy that a tick runs into, given the outcome `roll` of the
    /// roll and the enemy `choice` chosen from the pool, if one was chosen.
    pub fn meet(&self, roll: usize, choice: Option<usize>) -> (r: Option<usize>)
        ensures
            r == met(self@, roll, choice),
    {
        let d = self.dir.direction();
        if d.x == 0 && d.y == 0 {
            return None;
        }
        if !is_encounter_due(roll) {
            return None;
        }
        match (self.state.as_overland(), choice) {
            (Some(land), Some(i)) => {
                if i < land.encounters.len() {
                    Some(i)
                } else {
                    None
                }
            },
            _ => None,
        }
    }

    /// Makes the draws that a tick may need. On the map and with the avatar
    /// moving an encounter is rolled for; if one is due, an enemy of the
    /// pool is chosen, each being as likely as the others. The enemy that
    /// the tick runs into by `meet` is then asked for its first problem.
    /// The game itself is left as it is.
    pub fn draw_encounter(&mut self, rng: &mut SmallRng) -> (chance: Option<(usize, TextProblem)>)
        ensures
            final(self)@ == old(self)@,
            chance_ok(old(self)@, chance_view(chance)),
    {
        let d = self.dir.direction();
        let pool: usize = match self.state.as_overland() {
            Some(land) => land.encounters.len(),
            None => {
                return None;
            },
        };
        if d.x == 0 && d.y == 0 {
            return None;
        }
        let roll: usize = draw_below(rng, 0, ENCOUNTER_ROLLS);
        let choice = if is_encounter_due(roll) {
            let items = indices(pool);
            choose_item(rng, &items)
        } else {
            None
        };
        match self.meet(roll, choice) {
            Some(i) => {
                let s = self.swap_state_out();
                let mut chance: Option<(usize, TextProblem)> = None;
                let s = match s {
                    State::Overland(mut land) => {
                        let ghost before = land@;
                        let problem = land.encounters[i].generate_problem(rng);
                        assert(land@.encounters =~= before.encounters);
                        chance = Some((i, problem));
                        State::Overland(land)
                    },
                    other => other,
                };
                self.swap_state_in(s);
                chance
            },
            None => None,
        }
    }

    /// Makes the draw that a key may need: where `key` asks for a new
    /// problem, the enemy is asked for one. The game itself is left as it
    /// is.
    pub fn draw_problem(&mut self, rng: &mut SmallRng, key: &str) -> (fresh: Option<TextProblem>)
        ensures
            final(self)@ == old(self)@,
            fresh_ok(old(self)@, key@, fresh_view(fresh)),
    {
        if !same_text(key, "Enter") {
            return None;
        }
        let s = self.swap_state_out();
        let mut fresh: Option<TextProblem> = None;
        let s = match s {
            State::Battle(mut battle) => {
                if battle.problem.is_some() {
                    fresh = Some(battle.enemy.generate_problem(rng));
                }
                State::Battle(battle)
            },
            other => other,
        };
        self.swap_state_in(s);
        fresh
    }

    /// Lets `delta` milliseconds pass, with the pick `chance`.
    pub fn tick_with(&mut self, delta: u32, chance: Option<(usize, TextProblem)>)
        ensures
            final(self)@ == after_tick(old(self)@, delta, chance_view(chance)),
    {
        let d = self.dir.direction();
        let is_moving = d.x != 0 || d.y != 0;
        let s = self.swap_state_out();
        let mut met = false;
        let next = match s {
            State::Title => State::Title,
            State::Overland(mut land) => {
                land.walk(&self.dir, delta);
                match chance {
                    Some((i, problem)) => {
                        if is_moving && i < land.encounters.len() {
                            let enemy = land.take_encounter(i);
                            met = true;
                            State::Battle(Battle::start(land, enemy, problem))
                        } else {
                            State::Overland(land)
                        }
                    },
                    None => State::Overland(land),
                }
            },
            State::Battle(mut battle) => {
                battle.tick(delta);
                State::Battle(battle)
            },
        };
        if met {
            self.ctx.anim_t = 0;
        }
        self.ctx.advance(delta);
        self.text.set_movement(next.is_battle());
        self.swap_state_in(next);
    }

    /// Handles the key `key` going down, with `fresh` as the problem to go
    /// on with where a battle goes on, and hands back the bursts that are
    /// due.
    pub fn key_down_with(&mut self, key: &str, fresh: Option<TextProblem>) -> (bursts: Vec<Burst>)
        ensures
            (final(self)@, bursts@) == after_key_down(old(self)@, key@, fresh_view(fresh)),
    {
        self.text.set_movement(self.state.is_battle());
        self.text.down(key);
        self.dir.down(key);
        let enter = same_text(key, "Enter");
        let mut bursts: Vec<Burst> = Vec::new();
        let s = self.swap_state_out();
        let next = match s {
            State::Title => {
                if enter {
                    State::Overland(Overland::new())
                } else {
                    State::Title
                }
            },
            State::Overland(mut land) => {
                if enter {
                    bursts = land.answer(self.text.text().as_str());
                    self.text = TextBox::new();
                }
                State::Overland(land)
            },
            State::Battle(mut battle) => {
                if enter && battle.problem.is_some() {
                    let correct = battle.answer(self.text.text().as_str());
                    if correct {
                        self.ctx.time_damage = 0;
                    }
                    self.text = TextBox::new();
                    if battle.is_won() {
                        State::Overland(battle.land)
                    } else {
                        bursts.push(blast_after(correct));
                        battle.problem = fresh;
                        State::Battle(battle)
                    }
                } else {
                    State::Battle(battle)
                }
            },
        };
        self.text.set_movement(next.is_battle());
        self.swap_state_in(next);
        bursts
    }

    /// Handles the key `key` coming up.
    pub fn key_up(&mut self, key: &str)
        ensures
            final(self)@ == after_key_up(old(self)@, key@),
    {
        self.text.set_movement(self.state.is_battle());
        self.text.up(key);
        self.dir.up(key);
    }

    /// Puts the particles of `burst` in flight: as many as the burst
    /// counts, one for each of the drawn velocities.
    pub fn spawn(&mut self, burst: &Burst, velocities: &Vec<Vec2>)
        requires
            velocities@.len() == burst.count,
        ensures
            final(self)@ == spawned(old(self)@, *burst, velocities@),
    {
        let mut fresh = burst.particles(velocities);
        let s = self.swap_state_out();
        let next = match s {
            State::Title => State::Title,
            State::Overland(mut land) => {
                land.particles.append(&mut fresh);
                State::Overland(land)
            },
            State::Battle(mut battle) => {
                battle.particles.append(&mut fresh);
                State::Battle(battle)
            },
        };
        self.swap_state_in(next);
    }

    /// Handles one event: makes the draws that it may need, moves to the
    /// state that follows, and hands back the bursts that are due.
    pub fn update(&mut self, msg: Msg, rng: &mut SmallRng) -> (bursts: Vec<Burst>)
        ensures
            updated(old(self)@, msg, final(self)@, bursts@),
    {
        match msg {
            Msg::AnimTick(delta) => {
                let chance = self.draw_encounter(rng);
                self.tick_with(delta, chance);
                Vec::new()
            },
            Msg::KeyDown(key) => {
                let fresh = self.draw_problem(rng, key.as_str());
                self.key_down_with(key.as_str(), fresh)
            },
            Msg::KeyUp(key) => {
                self.key_up(key.as_str());
                Vec::new()
            },
        }
    }
}

} // verus!
