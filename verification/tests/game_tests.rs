//! The three game variants' flow machines, updates and scene layouts,
//! on concrete frames.

use lane_runner::dilemma;
use lane_runner::geom::Vec2i;
use lane_runner::hero;
use lane_runner::runner;
use lane_runner::sprites::Sprite;

fn vx(x: i64, y: i64) -> Vec2i {
    Vec2i { x, y }
}

#[test]
fn hero_starts_on_the_title_screen() {
    let g = hero::Game::new();
    assert!(matches!(g.game_state, hero::GameState::TitleScreen));
    assert_eq!(g.guy.pos, vx(37866, 2400));
    assert_eq!(g.cop.pos, vx(37866, -5000));
    assert!(!g.cop.is_visible);
    assert_eq!(g.walls.len(), 3);
    assert_eq!(g.pavements.len(), 2);
    assert_eq!(g.score, 0);
    assert!(!g.is_game_over());
}

#[test]
fn hero_title_waits_for_the_start_key() {
    let mut g = hero::Game::new();
    g.update(false, false, false, false, 0);
    assert!(matches!(g.game_state, hero::GameState::TitleScreen));
    g.update(false, false, false, true, 0);
    assert!(matches!(g.game_state, hero::GameState::InGame));
}

#[test]
fn hero_frame_counter_cycles_by_five() {
    let mut g = hero::Game::new();
    g.game_state = hero::GameState::InGame;
    for expected in [1usize, 2, 3, 4, 0, 1] {
        g.update(false, false, false, false, 0);
        assert_eq!(g.frame_counter, expected);
    }
    // after five frames the walk cell advanced once
    assert_eq!(g.curr_frame, 1);
}

#[test]
fn hero_collects_a_planted_coin() {
    let mut g = hero::Game::new();
    g.game_state = hero::GameState::InGame;
    // where the character stands once the floor has pushed it up
    g.coins.push(Sprite { pos: vx(37866, 4866), vel: vx(0, -200) });
    let chime = g.update(false, false, false, false, 0);
    assert_eq!(g.score, 1);
    assert!(!chime);
    assert!(matches!(g.game_state, hero::GameState::InGame));
}

#[test]
fn hero_car_on_the_character_ends_the_game() {
    let mut g = hero::Game::new();
    g.game_state = hero::GameState::InGame;
    // two pixels above where the floor leaves the character: after its
    // step the car sits right on top of it
    g.cars.push(Sprite { pos: vx(37866, 5066), vel: vx(0, -200) });
    g.car_timer = 50;
    g.update(false, false, false, false, 0);
    assert!(matches!(g.game_state, hero::GameState::GameOver));
}

#[test]
fn hero_jump_carries_over_a_car() {
    let mut g = hero::Game::new();
    g.game_state = hero::GameState::InGame;
    g.cars.push(Sprite { pos: vx(37866, 5066), vel: vx(0, -200) });
    g.car_timer = 50;
    // jumping this very frame: the car cannot catch the character
    g.update(false, false, true, false, 0);
    assert!(g.guy.is_jumping);
    assert!(matches!(g.game_state, hero::GameState::InGame));
}

#[test]
fn hero_steps_one_lane_right() {
    let mut g = hero::Game::new();
    g.game_state = hero::GameState::InGame;
    g.update(false, true, false, false, 0);
    assert_eq!(g.guy.pos.x, 49600);
    // and back left
    g.update(true, false, false, false, 0);
    assert_eq!(g.guy.pos.x, 37866);
    // left from the leftmost lane stays put
    g.update(true, false, false, false, 0);
    g.update(true, false, false, false, 0);
    assert_eq!(g.guy.pos.x, 26133);
}

#[test]
fn hero_scene_lays_slots_in_order() {
    let mut g = hero::Game::new();
    g.game_state = hero::GameState::InGame;
    let slots = g.render_layout();
    // bg + 3 walls + guy + cop + 2 pavements
    assert_eq!(slots.len(), 8);
    assert_eq!(slots[0].0.w, 768);
    assert_eq!(slots[0].0.h, 1280);
    // the guy slot carries his position and the first walk cell
    assert_eq!(slots[4].0.x, 37866);
    assert_eq!(slots[4].1.x, 100);
    assert_eq!(slots[4].1.y, 498);
}

#[test]
fn dilemma_boards_and_drops_a_passenger() {
    let mut g = dilemma::Game::new();
    g.game_state = dilemma::GameState::InGame;
    // a passenger who, after one walking step, stands right where the
    // floor leaves the bus
    g.people.push(Sprite { pos: vx(37866, 5066), vel: vx(0, -200) });
    g.people_jobs.push(dilemma::Job::Doctor);
    g.people_timer = 50;
    g.animal_timer = 50;
    g.building_timer = 50;
    let rang = g.update(0, 0, false, 0);
    assert!(!rang);
    assert_eq!(g.on_bus.len(), 1);
    assert!(matches!(g.on_bus[0], dilemma::Job::Doctor));
    // next frame, a matching clinic within reach takes the drop-off
    g.buildings.push(Sprite { pos: g.bus.pos, vel: vx(0, 0) });
    g.building_jobs.push(dilemma::Job::Doctor);
    let rang = g.update(0, 0, false, 0);
    assert!(rang);
    assert_eq!(g.score, 1);
    assert_eq!(g.on_bus.len(), 0);
    assert_eq!(g.buildings.len(), 0);
}

#[test]
fn dilemma_wrong_job_is_not_dropped() {
    let mut g = dilemma::Game::new();
    g.game_state = dilemma::GameState::InGame;
    g.on_bus.push(dilemma::Job::Cop);
    g.buildings.push(Sprite { pos: g.bus.pos, vel: vx(0, 0) });
    g.building_jobs.push(dilemma::Job::Regular);
    g.people_timer = 50;
    g.animal_timer = 50;
    g.building_timer = 50;
    let rang = g.update(0, 0, false, 0);
    assert!(!rang);
    assert_eq!(g.score, 0);
    assert_eq!(g.on_bus.len(), 1);
    assert_eq!(g.buildings.len(), 1);
}

#[test]
fn dilemma_animal_under_the_wheels_ends_the_run() {
    let mut g = dilemma::Game::new();
    g.game_state = dilemma::GameState::InGame;
    g.animals.push(Sprite { pos: vx(37866, 5066), vel: vx(0, -200) });
    g.animal_kinds.push(dilemma::CatDog::Cat);
    g.animal_timer = 50;
    g.people_timer = 50;
    g.building_timer = 50;
    g.update(0, 0, false, 0);
    assert!(matches!(g.game_state, dilemma::GameState::GameOver));
}

#[test]
fn dilemma_job_names_spell_out() {
    assert_eq!(dilemma::Job::Doctor.name(), "Doctor");
    assert_eq!(dilemma::Job::Firefighter.name(), "Firefighter");
    assert_eq!(dilemma::Job::Regular.name(), "Regular");
    assert_eq!(dilemma::Job::Cop.name(), "Cop");
}

#[test]
fn dilemma_scene_counts_every_slot() {
    let mut g = dilemma::Game::new();
    g.game_state = dilemma::GameState::InGame;
    g.on_bus.push(dilemma::Job::Regular);
    let slots = g.render_layout();
    // bg + 3 walls + counter frame + bus + 2 pavements + 1 rider
    assert_eq!(slots.len(), 9);
    // the rider sits at the top seat of the counter frame
    assert_eq!(slots[8].0.x, 72800);
    assert_eq!(slots[8].0.y, 116000);
}

#[test]
fn runner_moves_freely_and_sweeps_coins() {
    let mut g = runner::Game::new();
    g.game_state = runner::GameState::InGame;
    g.car_timer = 50;
    g.coin_timer = 50;
    // a coin within the 75-pixel sweep
    g.coins.push(Sprite { pos: vx(37866 + 7000, 2400), vel: vx(0, -200) });
    g.update(1, 1, false, 0);
    // one frame of movement: four pixels to the right
    assert_eq!(g.guy.pos.x, 37866 + 400);
    assert_eq!(g.score, 1);
    assert!(matches!(g.game_state, runner::GameState::InGame));
}

#[test]
fn runner_cop_shadows_the_character() {
    let mut g = runner::Game::new();
    g.game_state = runner::GameState::InGame;
    g.car_timer = 50;
    g.coin_timer = 50;
    let cop_before = g.cop.pos;
    g.update(-1, 0, false, 0);
    assert_eq!(g.cop.pos.x, cop_before.x - 400);
    assert_eq!(g.cop.pos.y, cop_before.y);
}

#[test]
fn runner_walls_hold_the_character_in() {
    let mut g = runner::Game::new();
    g.game_state = runner::GameState::InGame;
    g.car_timer = 50;
    g.coin_timer = 50;
    // drive left into the wall for a while: the resolver pushes back out
    for _ in 0..200 {
        g.update(-1, 0, false, 0);
    }
    // the left wall's inner face is at 152 px; the box is 38.4 px wide
    assert!(g.guy.pos.x >= 15200 + 1920);
}
