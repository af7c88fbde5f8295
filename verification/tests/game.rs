use mathquest::battle::{blast_after, Battle};
use mathquest::context::Context;
use mathquest::direction::Direction;
use mathquest::enemy::{CardKind, Enemy, Orb};
use mathquest::fixed::Vec2;
use mathquest::game::{is_encounter_due, Model, Msg, State, ENCOUNTER_HITS, ENCOUNTER_ROLLS};
use mathquest::overland::{Obstacle, Overland};
use mathquest::particle::{Burst, Emitter, Particle};
use mathquest::problem::TextProblem;
use rand::rngs::SmallRng;
use rand::SeedableRng;

fn at(x: i64, y: i64) -> Vec2 {
    Vec2 { x, y }
}

fn land_of(m: &Model) -> &Overland {
    m.state.as_overland().unwrap()
}

fn battle_of(m: &Model) -> &Battle {
    m.state.as_battle().unwrap()
}

fn press(m: &mut Model, keys: &[&str]) -> Vec<Burst> {
    let mut all = Vec::new();
    for k in keys.iter() {
        all.extend(m.key_down_with(k, None));
        m.key_up(k);
    }
    all
}

fn levels(land: &Overland) -> Vec<usize> {
    land.encounters.iter().map(|e| e.level()).collect()
}

/// A game on the map whose avatar walks to the right.
fn walking() -> Model {
    let mut m = Model::new();
    press(&mut m, &["Enter"]);
    m.key_down_with("ArrowRight", None);
    m
}

/// A game in a battle with the enemy at `index`, asking `2+2=?`.
fn fighting(index: usize) -> Model {
    let mut m = walking();
    m.tick_with(50, Some((index, TextProblem::new("2+2=?", "4"))));
    m.key_up("ArrowRight");
    m
}

fn answer(m: &mut Model, text: &str, next: &str, next_answer: &str) -> Vec<Burst> {
    for c in text.chars() {
        let key = c.to_string();
        assert!(m.key_down_with(key.as_str(), None).is_empty());
    }
    m.key_down_with("Enter", Some(TextProblem::new(next, next_answer)))
}

#[test]
fn game_starts_on_the_title_screen() {
    let m = Model::new();
    assert!(matches!(m.state, State::Title));
    assert_eq!(m.dir, Direction::new());
    assert_eq!(m.text.text().as_str(), "");
    assert_eq!(m.ctx, Context { anim_t: 0, time_damage: 0 });
    assert!(m.state.as_overland().is_none());
    assert!(m.state.as_battle().is_none());
    assert!(!m.state.is_battle());
}

#[test]
fn title_waits_for_enter() {
    let mut m = Model::new();
    assert!(press(&mut m, &["a", "ArrowUp", "Backspace", " ", "enter"]).is_empty());
    assert!(matches!(m.state, State::Title));
    m.tick_with(50, None);
    m.tick_with(50, Some((0, TextProblem::new("1+1=?", "2"))));
    assert!(matches!(m.state, State::Title));
    assert_eq!(m.ctx, Context { anim_t: 100, time_damage: 100 });
    assert!(press(&mut m, &["Enter"]).is_empty());
    assert!(matches!(m.state, State::Overland(_)));
}

#[test]
fn title_keeps_what_was_typed() {
    let mut m = Model::new();
    press(&mut m, &["4", "2", "Enter"]);
    assert!(matches!(m.state, State::Overland(_)));
    assert_eq!(m.text.text().as_str(), "42");
    assert!(!m.text.movement());
}

#[test]
fn new_map_has_two_obstacles_and_three_enemies() {
    let land = Overland::new();
    assert_eq!(land.land_pos, at(0, 0));
    assert!(land.particles.is_empty());
    assert_eq!(land.obstacles.len(), 2);
    assert_eq!(land.obstacles[0].pos, at(650_000_000, 50_000_000));
    assert_eq!(land.obstacles[0].problem.problem.as_str(), "536+329");
    assert_eq!(land.obstacles[0].problem.answer.as_str(), "865");
    assert_eq!(land.obstacles[1].pos, at(250_000_000, -80_000_000));
    assert_eq!(land.obstacles[1].problem.problem.as_str(), "3+3");
    assert_eq!(land.obstacles[1].problem.answer.as_str(), "6");
    assert_eq!(levels(&land), vec![1, 3, 5]);
    for e in land.encounters.iter() {
        assert_eq!(e.get_state().health, 10_000);
    }
}

#[test]
fn end_to_end_from_title_to_a_solved_obstacle() {
    let mut m = Model::new();
    assert!(press(&mut m, &["Enter"]).is_empty());
    assert_eq!(land_of(&m).obstacles.len(), 2);
    assert_eq!(land_of(&m).encounters.len(), 3);

    m.key_down_with("ArrowRight", None);
    let mut x = land_of(&m).land_pos.x;
    for _ in 0..40 {
        m.tick_with(50, None);
        let now = land_of(&m).land_pos.x;
        assert!(now > x);
        assert_eq!(now - x, 5_000_000);
        x = now;
        assert_eq!(land_of(&m).land_pos.y, 0);
    }
    assert_eq!(x, 200_000_000);
    m.key_up("ArrowRight");
    m.tick_with(50, None);
    assert_eq!(land_of(&m).land_pos, at(200_000_000, 0));

    let bursts = press(&mut m, &["8", "6", "5", "Enter"]);
    let land = land_of(&m);
    assert_eq!(land.obstacles.len(), 1);
    assert_eq!(land.obstacles[0].pos, at(250_000_000, -80_000_000));
    assert_eq!(land.obstacles[0].problem.answer.as_str(), "6");
    assert_eq!(land.encounters.len(), 3);
    assert_eq!(m.text.text().as_str(), "");
    assert_eq!(m.text.cursor(), 0);
    assert_eq!(
        bursts,
        vec![Burst {
            emitter: Emitter::Firework,
            pos: at(650_000_000, -50_000_000),
            vel: at(0, 0),
            spread: 500_000,
            count: 20,
            life: 750
        }]
    );
}

#[test]
fn walking_follows_the_keys() {
    let mut m = Model::new();
    press(&mut m, &["Enter"]);
    m.key_down_with("ArrowUp", None);
    m.key_down_with("ArrowLeft", None);
    m.tick_with(50, None);
    assert_eq!(land_of(&m).land_pos, at(-5_000_000, 5_000_000));
    m.key_down_with("ArrowRight", None);
    m.tick_with(20, None);
    assert_eq!(land_of(&m).land_pos, at(-5_000_000, 7_000_000));
    m.key_up("ArrowUp");
    m.key_down_with("ArrowDown", None);
    m.key_up("ArrowLeft");
    m.tick_with(1000, None);
    assert_eq!(land_of(&m).land_pos, at(95_000_000, -93_000_000));
}

#[test]
fn arrows_steer_on_the_map_and_do_not_move_the_cursor() {
    let mut m = Model::new();
    press(&mut m, &["Enter", "1", "2", "ArrowLeft", "3"]);
    assert_eq!(m.text.text().as_str(), "123");
    assert_eq!(m.text.cursor(), 3);
    assert!(!m.text.movement());
    press(&mut m, &["Backspace"]);
    assert_eq!(m.text.text().as_str(), "12");
}

#[test]
fn wrong_answer_on_the_map_clears_the_box() {
    let mut m = Model::new();
    press(&mut m, &["Enter"]);
    let bursts = press(&mut m, &["8", "6", "6", "Enter"]);
    assert!(bursts.is_empty());
    assert_eq!(land_of(&m).obstacles.len(), 2);
    assert_eq!(m.text.text().as_str(), "");
    assert!(!m.text.movement());
}

#[test]
fn solving_the_second_obstacle() {
    let mut m = Model::new();
    press(&mut m, &["Enter"]);
    let bursts = press(&mut m, &["6", "Enter"]);
    assert_eq!(bursts.len(), 1);
    assert_eq!(bursts[0].pos, at(250_000_000, 80_000_000));
    let land = land_of(&m);
    assert_eq!(land.obstacles.len(), 1);
    assert_eq!(land.obstacles[0].pos, at(650_000_000, 50_000_000));
    let more = press(&mut m, &["8", "6", "5", "Enter"]);
    assert_eq!(more.len(), 1);
    assert!(land_of(&m).obstacles.is_empty());
    assert!(press(&mut m, &["8", "6", "5", "Enter"]).is_empty());
}

#[test]
fn one_answer_solves_every_obstacle_that_it_fits() {
    let mut land = Overland::new();
    land.obstacles.push(Obstacle { pos: at(1, 2), problem: TextProblem::new("2*3", "6") });
    land.obstacles.push(Obstacle { pos: at(3, i64::MIN), problem: TextProblem::new("9-3", "6") });
    land.obstacles.push(Obstacle { pos: at(5, 6), problem: TextProblem::new("1+1", "2") });
    let bursts = land.answer("6");
    let places: Vec<Vec2> = bursts.iter().map(|b| b.pos).collect();
    assert_eq!(places, vec![at(3, i64::MAX), at(1, -2), at(250_000_000, 80_000_000)]);
    let left: Vec<&str> = land.obstacles.iter().map(|o| o.problem.answer.as_str()).collect();
    assert_eq!(left, vec!["865", "2"]);
    assert_eq!(land.encounters.len(), 3);
}

#[test]
fn taking_an_enemy_moves_the_last_into_its_place() {
    let mut land = Overland::new();
    let e = land.take_encounter(0);
    assert_eq!(e.level(), 1);
    assert_eq!(levels(&land), vec![5, 3]);
    let e = land.take_encounter(1);
    assert_eq!(e.level(), 3);
    assert_eq!(levels(&land), vec![5]);
    let e = land.take_encounter(0);
    assert_eq!(e.level(), 5);
    assert!(land.encounters.is_empty());
}

#[test]
fn a_pick_begins_a_battle() {
    let mut m = walking();
    m.tick_with(50, None);
    m.tick_with(50, Some((1, TextProblem::new("7+9=?", "16"))));
    let b = battle_of(&m);
    assert_eq!(b.enemy.level(), 3);
    assert_eq!(b.enemy.get_state().health, 10_000);
    assert_eq!(b.state.health, 10_000);
    assert_eq!(b.enemy_props.level.as_str(), "3");
    assert_eq!(b.enemy_props.name.as_str(), "Circle");
    assert_eq!(b.enemy_props.class.as_str(), "spheroid");
    assert_eq!(b.enemy_props.card, CardKind::Circle);
    assert_eq!(b.problem.as_ref().unwrap().problem.as_str(), "7+9=?");
    assert!(b.particles.is_empty());
    assert_eq!(levels(&b.land), vec![1, 5]);
    assert_eq!(b.land.obstacles.len(), 2);
    assert_eq!(b.land.land_pos, at(10_000_000, 0));
    assert_eq!(m.ctx, Context { anim_t: 50, time_damage: 100 });
    assert!(m.text.movement());
    assert!(m.state.is_battle());
}

#[test]
fn an_orb_of_level_five_shows_as_an_orb() {
    let m = fighting(2);
    assert_eq!(battle_of(&m).enemy_props.name.as_str(), "Orb");
    assert_eq!(battle_of(&m).enemy_props.card, CardKind::Orb);
    assert_eq!(battle_of(&m).enemy_props.level.as_str(), "5");
}

#[test]
fn no_battle_while_standing() {
    let mut m = Model::new();
    press(&mut m, &["Enter"]);
    m.tick_with(50, Some((0, TextProblem::new("1+1=?", "2"))));
    assert!(matches!(m.state, State::Overland(_)));
    m.key_down_with("ArrowLeft", None);
    m.key_down_with("ArrowRight", None);
    m.tick_with(50, Some((0, TextProblem::new("1+1=?", "2"))));
    assert!(matches!(m.state, State::Overland(_)));
    assert_eq!(land_of(&m).encounters.len(), 3);
}

#[test]
fn no_battle_for_a_pick_outside_the_pool() {
    let mut m = walking();
    m.tick_with(50, Some((3, TextProblem::new("1+1=?", "2"))));
    assert!(matches!(m.state, State::Overland(_)));
    assert_eq!(land_of(&m).encounters.len(), 3);
    assert_eq!(m.ctx.anim_t, 50);
}

#[test]
fn no_battle_when_the_pool_is_empty() {
    let mut m = walking();
    m.state.as_overland_mut().unwrap().encounters.clear();
    let mut rng = SmallRng::seed_from_u64(1);
    for _ in 0..3000 {
        assert!(m.draw_encounter(&mut rng).is_none());
        assert!(m.update(Msg::AnimTick(50), &mut rng).is_empty());
        assert!(matches!(m.state, State::Overland(_)));
    }
    m.tick_with(50, Some((0, TextProblem::new("1+1=?", "2"))));
    assert!(matches!(m.state, State::Overland(_)));
}

#[test]
fn five_correct_answers_win_the_battle() {
    let mut m = fighting(0);
    assert_eq!(levels(&battle_of(&m).land), vec![5, 3]);
    let expected = [8_000, 6_000, 4_000, 2_000];
    for &health in expected.iter() {
        let bursts = answer(&mut m, "4", "2+2=?", "4");
        assert_eq!(bursts, vec![blast_after(true)]);
        let b = battle_of(&m);
        assert_eq!(b.enemy.get_state().health, health);
        assert_eq!(b.state.health, 10_000);
        assert_eq!(m.text.text().as_str(), "");
        assert!(m.text.movement());
    }
    let bursts = answer(&mut m, "4", "2+2=?", "4");
    assert!(bursts.is_empty());
    let land = land_of(&m);
    assert_eq!(levels(land), vec![5, 3]);
    assert_eq!(land.obstacles.len(), 2);
    assert_eq!(land.land_pos, at(5_000_000, 0));
    assert!(!m.text.movement());
    assert_eq!(m.text.text().as_str(), "");
}

#[test]
fn a_correct_answer_hits_the_enemy() {
    let mut m = fighting(1);
    m.tick_with(300, None);
    assert_eq!(m.ctx, Context { anim_t: 350, time_damage: 350 });
    assert!(!m.ctx.damage_shown());
    let bursts = answer(&mut m, "4", "10+11=?", "21");
    assert_eq!(
        bursts,
        vec![Burst {
            emitter: Emitter::Blast,
            pos: at(820_000_000, 250_000_000),
            vel: at(200_000, 200_000),
            spread: 500_000,
            count: 10,
            life: 4_000
        }]
    );
    let b = battle_of(&m);
    assert_eq!(b.enemy.get_state().health, 8_000);
    assert_eq!(b.state.health, 10_000);
    assert_eq!(b.problem.as_ref().unwrap().problem.as_str(), "10+11=?");
    assert_eq!(b.problem.as_ref().unwrap().answer.as_str(), "21");
    assert_eq!(m.ctx, Context { anim_t: 350, time_damage: 0 });
    assert!(m.ctx.damage_shown());
}

#[test]
fn a_wrong_answer_costs_the_player() {
    let mut m = fighting(1);
    m.tick_with(300, None);
    let bursts = answer(&mut m, "5", "10+11=?", "21");
    assert_eq!(
        bursts,
        vec![Burst {
            emitter: Emitter::Blast,
            pos: at(180_000_000, 250_000_000),
            vel: at(-200_000, 200_000),
            spread: 500_000,
            count: 10,
            life: 4_000
        }]
    );
    let b = battle_of(&m);
    assert_eq!(b.enemy.get_state().health, 10_000);
    assert_eq!(b.state.health, 8_000);
    assert_eq!(b.problem.as_ref().unwrap().answer.as_str(), "21");
    assert_eq!(m.ctx.time_damage, 350);
    assert_eq!(m.text.text().as_str(), "");
}

#[test]
fn the_player_is_never_out() {
    let mut m = fighting(0);
    for n in 1..=7i64 {
        let bursts = answer(&mut m, "", "2+2=?", "4");
        assert_eq!(bursts, vec![blast_after(false)]);
        assert_eq!(battle_of(&m).state.health, 10_000 - 2_000 * n);
    }
    assert_eq!(battle_of(&m).state.health, -4_000);
    assert_eq!(battle_of(&m).enemy.get_state().health, 10_000);
}

#[test]
fn arrows_move_the_cursor_in_a_battle() {
    let mut m = fighting(0);
    press(&mut m, &["1", "4", "ArrowLeft", "ArrowLeft", "Backspace", "ArrowRight", "Backspace"]);
    assert_eq!(m.text.text().as_str(), "4");
    assert_eq!(m.text.cursor(), 0);
    press(&mut m, &["ArrowRight"]);
    assert_eq!(m.text.cursor(), 1);
    assert_eq!(m.dir, Direction { up: false, down: false, left: false, right: false });
}

#[test]
fn other_keys_leave_the_battle_as_it_is() {
    let mut m = fighting(0);
    let bursts = press(&mut m, &["4", "x", "Escape", "ArrowUp"]);
    assert!(bursts.is_empty());
    let b = battle_of(&m);
    assert_eq!(b.enemy.get_state().health, 10_000);
    assert_eq!(b.state.health, 10_000);
    assert_eq!(b.problem.as_ref().unwrap().problem.as_str(), "2+2=?");
    assert_eq!(m.text.text().as_str(), "4x");
}

#[test]
fn a_battle_without_a_problem_ignores_enter() {
    let mut land = Overland::new();
    let enemy = land.take_encounter(2);
    let mut battle = Battle::start(land, enemy, TextProblem::new("1+1=?", "2"));
    battle.problem = None;
    assert!(!battle.test_answer("2"));
    assert!(!battle.answer("2"));
    assert_eq!(battle.enemy.get_state().health, 10_000);
    assert_eq!(battle.state.health, 10_000);
    let mut m = Model::new();
    m.state = State::Battle(battle);
    let mut rng = SmallRng::seed_from_u64(9);
    assert!(m.draw_problem(&mut rng, "Enter").is_none());
    press(&mut m, &["2"]);
    assert!(m.update(Msg::KeyDown(String::from("Enter")), &mut rng).is_empty());
    let b = battle_of(&m);
    assert!(b.problem.is_none());
    assert_eq!(b.state.health, 10_000);
    assert_eq!(m.text.text().as_str(), "2");
}

#[test]
fn battle_particles_move_on_each_tick() {
    let mut m = fighting(0);
    let burst = Burst { count: 2, ..blast_after(true) };
    m.spawn(&burst, &vec![at(200_000, 200_000), at(0, -1)]);
    assert_eq!(battle_of(&m).particles.len(), 2);
    m.tick_with(50, None);
    let ps = &battle_of(&m).particles;
    assert_eq!(
        ps[0],
        Particle {
            pos: at(830_000_000, 261_000_000),
            vel: at(200_000, 220_000),
            grav: at(0, 400),
            damp: 0,
            life: 3_950
        }
    );
    assert_eq!(ps[1].vel, at(0, 19_999));
    for _ in 0..79 {
        m.tick_with(50, None);
    }
    assert_eq!(battle_of(&m).particles.len(), 2);
    m.tick_with(50, None);
    assert!(battle_of(&m).particles.is_empty());
    assert!(m.state.is_battle());
}

#[test]
fn fireworks_fly_on_the_map() {
    let mut m = Model::new();
    press(&mut m, &["Enter"]);
    let bursts = press(&mut m, &["6", "Enter"]);
    let v: Vec<Vec2> = (0..20).map(|i| at(1_000_000 * i, -1_000_000)).collect();
    m.spawn(&bursts[0], &v);
    assert_eq!(land_of(&m).particles.len(), 20);
    assert_eq!(land_of(&m).particles[3].pos, at(250_000_000, 80_000_000));
    assert_eq!(land_of(&m).particles[3].damp, 10);
    for _ in 0..15 {
        m.tick_with(50, None);
        assert_eq!(land_of(&m).particles.len(), 20);
    }
    m.tick_with(50, None);
    assert!(land_of(&m).particles.is_empty());
}

#[test]
fn the_title_screen_takes_no_particles() {
    let mut m = Model::new();
    m.spawn(&blast_after(true), &vec![at(1, 1); 10]);
    assert!(matches!(m.state, State::Title));
}

#[test]
fn particles_of_a_won_battle_end_with_it() {
    let mut m = fighting(0);
    for _ in 0..4 {
        let bursts = answer(&mut m, "4", "2+2=?", "4");
        m.spawn(&bursts[0], &vec![at(0, 0); 10]);
    }
    assert_eq!(battle_of(&m).particles.len(), 40);
    assert!(answer(&mut m, "4", "2+2=?", "4").is_empty());
    assert!(land_of(&m).particles.is_empty());
}

#[test]
fn a_burst_flies_as_many_particles_as_it_counts() {
    let mut m = fighting(0);
    for count in [0usize, 1, 7, 10].iter() {
        let before = battle_of(&m).particles.len();
        let burst = Burst { count: *count, ..blast_after(false) };
        m.spawn(&burst, &vec![at(3, 4); *count]);
        assert_eq!(battle_of(&m).particles.len(), before + count);
    }
    let all = &battle_of(&m).particles;
    assert_eq!(all.len(), 18);
    assert!(all.iter().all(|p| p.vel == at(3, 4) && p.pos == at(180_000_000, 250_000_000)));
}

#[test]
fn meeting_follows_the_roll_and_the_choice() {
    let mut m = walking();
    assert_eq!(m.meet(0, Some(0)), Some(0));
    assert_eq!(m.meet(0, Some(2)), Some(2));
    assert_eq!(m.meet(0, Some(3)), None);
    assert_eq!(m.meet(0, None), None);
    for roll in 1..100 {
        assert_eq!(m.meet(roll, Some(1)), None);
    }
    m.key_up("ArrowRight");
    assert_eq!(m.meet(0, Some(0)), None);
    m.key_down_with("ArrowUp", None);
    assert_eq!(m.meet(0, Some(1)), Some(1));
    m.key_down_with("ArrowDown", None);
    assert_eq!(m.meet(0, Some(1)), None);
    m.key_up("ArrowDown");
    m.state.as_overland_mut().unwrap().encounters.clear();
    assert_eq!(m.meet(0, Some(0)), None);
    let title = Model::new();
    assert_eq!(title.meet(0, Some(0)), None);
    let mut f = fighting(0);
    f.key_down_with("ArrowRight", None);
    assert_eq!(f.meet(0, Some(0)), None);
}

#[test]
fn the_odds_of_an_encounter() {
    assert_eq!(ENCOUNTER_ROLLS, 100);
    assert_eq!(ENCOUNTER_HITS, 1);
    assert!(is_encounter_due(0));
    for roll in 1..100 {
        assert!(!is_encounter_due(roll));
    }
}

#[test]
fn update_meets_every_enemy_in_the_end() {
    let mut rng = SmallRng::seed_from_u64(2024);
    let mut met = [false; 3];
    for _ in 0..60 {
        let mut m = walking();
        let mut ticks = 0;
        while !m.state.is_battle() {
            assert!(m.update(Msg::AnimTick(50), &mut rng).is_empty());
            ticks += 1;
            assert!(ticks < 100_000);
        }
        let b = battle_of(&m);
        let level = b.enemy.level();
        assert!(level == 1 || level == 3 || level == 5);
        met[level / 2] = true;
        assert_eq!(b.land.encounters.len(), 2);
        assert!(levels(&b.land).iter().all(|&l| l != level));
        assert_eq!(b.land.land_pos, at(5_000_000 * ticks, 0));
        assert_eq!(m.ctx.anim_t, 50);
        assert_eq!(m.ctx.time_damage, 50 * ticks as u64);
        let p = b.problem.as_ref().unwrap();
        assert!(p.problem.ends_with("=?"));
        assert!(ticks > 0);
    }
    assert_eq!(met, [true; 3]);
}

#[test]
fn update_rolls_for_encounters_about_once_in_a_hundred_ticks() {
    let mut rng = SmallRng::seed_from_u64(77);
    let mut m = walking();
    let mut hits = 0;
    for _ in 0..20_000 {
        if m.draw_encounter(&mut rng).is_some() {
            hits += 1;
        }
    }
    assert!(hits > 100 && hits < 320);
    assert!(matches!(m.state, State::Overland(_)));
    assert_eq!(land_of(&m).encounters.len(), 3);
}

#[test]
fn update_never_meets_anyone_while_standing() {
    let mut rng = SmallRng::seed_from_u64(5);
    let mut m = Model::new();
    press(&mut m, &["Enter"]);
    for _ in 0..5000 {
        assert!(m.draw_encounter(&mut rng).is_none());
        m.update(Msg::AnimTick(50), &mut rng);
    }
    assert!(matches!(m.state, State::Overland(_)));
    assert_eq!(land_of(&m).land_pos, at(0, 0));
    assert_eq!(m.ctx, Context { anim_t: 250_000, time_damage: 250_000 });
}

#[test]
fn update_plays_a_whole_battle() {
    let mut rng = SmallRng::seed_from_u64(31);
    let mut m = fighting(2);
    let mut hits = 0;
    let mut rounds = 0;
    while m.state.is_battle() {
        let expected = battle_of(&m).problem.as_ref().unwrap().answer.clone();
        let level = battle_of(&m).enemy.level();
        let reply = if rounds % 2 == 0 { expected.clone() } else { String::from("x") };
        for c in reply.chars() {
            assert!(m.update(Msg::KeyDown(c.to_string()), &mut rng).is_empty());
            assert!(m.update(Msg::KeyUp(c.to_string()), &mut rng).is_empty());
        }
        assert_eq!(m.text.text().as_str(), reply.as_str());
        let bursts = m.update(Msg::KeyDown(String::from("Enter")), &mut rng);
        let correct = rounds % 2 == 0;
        if correct {
            hits += 1;
        }
        rounds += 1;
        assert_eq!(m.text.text().as_str(), "");
        if m.state.is_battle() {
            assert_eq!(bursts, vec![blast_after(correct)]);
            let b = battle_of(&m);
            assert_eq!(b.enemy.get_state().health, 10_000 - 2_000 * hits);
            assert_eq!(b.state.health, 10_000 - 2_000 * (rounds - hits));
            assert_eq!(b.enemy.level(), level);
            let p = b.problem.as_ref().unwrap();
            assert!(p.problem.ends_with("=?"));
            assert!(!p.answer.is_empty() && p.answer.chars().all(|c| c.is_ascii_digit()));
            let n: usize = p.answer.parse().unwrap();
            assert!(n >= 10 && n < 80);
        } else {
            assert!(bursts.is_empty());
        }
    }
    assert_eq!(hits, 5);
    assert_eq!(rounds, 9);
    assert_eq!(levels(land_of(&m)), vec![1, 3]);
}

#[test]
fn update_draws_a_problem_only_where_one_is_asked_for() {
    let mut rng = SmallRng::seed_from_u64(13);
    let mut m = Model::new();
    assert!(m.draw_problem(&mut rng, "Enter").is_none());
    press(&mut m, &["Enter"]);
    assert!(m.draw_problem(&mut rng, "Enter").is_none());
    let mut f = fighting(1);
    assert!(f.draw_problem(&mut rng, "a").is_none());
    assert!(f.draw_problem(&mut rng, "enter").is_none());
    let p = f.draw_problem(&mut rng, "Enter").unwrap();
    assert!(p.problem.ends_with("=?"));
    assert_eq!(battle_of(&f).problem.as_ref().unwrap().problem.as_str(), "2+2=?");
}

#[test]
fn key_up_releases_an_arrow_in_every_state() {
    let mut rng = SmallRng::seed_from_u64(1);
    let mut m = Model::new();
    m.update(Msg::KeyDown(String::from("ArrowUp")), &mut rng);
    assert!(m.dir.up);
    m.update(Msg::KeyDown(String::from("Enter")), &mut rng);
    assert!(m.dir.up);
    m.update(Msg::AnimTick(50), &mut rng);
    m.update(Msg::KeyUp(String::from("ArrowUp")), &mut rng);
    assert_eq!(m.dir, Direction::new());
    assert_eq!(land_of(&m).land_pos.x, 0);
    let mut f = fighting(0);
    f.update(Msg::KeyDown(String::from("ArrowDown")), &mut rng);
    assert!(f.dir.down);
    f.update(Msg::KeyUp(String::from("ArrowDown")), &mut rng);
    assert!(!f.dir.down);
    assert!(f.text.movement());
}

#[test]
fn the_avatar_stops_at_the_edge_of_the_numbers() {
    let mut m = walking();
    m.state.as_overland_mut().unwrap().land_pos = at(i64::MAX - 3, i64::MIN);
    m.tick_with(50, None);
    assert_eq!(land_of(&m).land_pos, at(i64::MAX, i64::MIN));
    m.key_up("ArrowRight");
    m.key_down_with("ArrowDown", None);
    m.tick_with(u32::MAX, None);
    assert_eq!(land_of(&m).land_pos, at(i64::MAX, i64::MIN));
}

#[test]
fn changing_the_map_through_the_state() {
    let mut s = State::Title;
    assert!(s.as_overland_mut().is_none());
    let mut s = State::Overland(Overland::new());
    s.as_overland_mut().unwrap().land_pos = at(4, 5);
    assert_eq!(s.as_overland().unwrap().land_pos, at(4, 5));
    let mut land = Overland::new();
    let enemy: Orb = land.take_encounter(0);
    let mut b = State::Battle(Battle::start(land, enemy, TextProblem::new("1+1=?", "2")));
    assert!(b.as_overland_mut().is_none());
    assert!(b.as_overland().is_none());
    assert!(b.as_battle().is_some());
}
