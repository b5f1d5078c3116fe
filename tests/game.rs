use arcade_sim::entity::EntityKind;
use arcade_sim::geometry::{Arena, Vec2, PIXEL};
use arcade_sim::sim::{Controls, Simulation};
use arcade_sim::spawn::{SpawnConfig, SpawnRolls, MAX_NUMBER_OF_STARS, START_NUMBER_OF_ENEMIES};
use arcade_sim::state::{
    interact_with_play_button, interact_with_quit_button, AppState, ButtonInteraction,
    ButtonShade, SimulationState,
};

fn arena() -> Arena {
    Arena::new(800 * PIXEL, 600 * PIXEL).unwrap()
}

fn rolls(n: usize) -> Vec<SpawnRolls> {
    (0..n as u64)
        .map(|i| SpawnRolls { x: i * 7_919_000_013, y: i * 104_729_000_007, heading: i })
        .collect()
}

fn idle() -> Controls {
    Controls { up: false, down: false, left: false, right: false }
}

fn roll() -> SpawnRolls {
    SpawnRolls { x: 1, y: 1, heading: 1 }
}

fn started() -> Simulation {
    let mut sim = Simulation::new(arena(), SpawnConfig::standard());
    assert!(sim.request_phase_transition(AppState::Game, &rolls(14)));
    sim
}

#[test]
fn entering_game_seeds_population() {
    let sim = started();
    assert_eq!(sim.phase(), AppState::Game);
    assert_eq!(sim.run_state(), SimulationState::Running);
    assert_eq!(sim.store.count(EntityKind::Hazard), START_NUMBER_OF_ENEMIES);
    assert_eq!(sim.store.count(EntityKind::Pickup), MAX_NUMBER_OF_STARS);
    let players = sim.entities(EntityKind::Player);
    assert_eq!(players.len(), 1);
    assert_eq!(players[0].1, Vec2::new(400 * PIXEL, 300 * PIXEL));
    assert_eq!(sim.current_score(), 0);
}

#[test]
fn default_phase_is_game() {
    assert_eq!(AppState::default(), AppState::Game);
}

#[test]
fn game_over_is_not_requested_directly() {
    let mut sim = started();
    assert!(!sim.request_phase_transition(AppState::GameOver, &Vec::new()));
    assert!(!sim.request_phase_transition(AppState::Game, &Vec::new()));
    assert_eq!(sim.phase(), AppState::Game);
}

#[test]
fn leaving_game_clears_entities() {
    let mut sim = started();
    assert!(sim.request_phase_transition(AppState::MainMenu, &Vec::new()));
    assert_eq!(sim.phase(), AppState::MainMenu);
    assert_eq!(sim.store.len(), 0);
}

#[test]
fn pause_only_in_game() {
    let mut sim = Simulation::new(arena(), SpawnConfig::standard());
    assert!(!sim.request_run_state_toggle());
    let mut sim = started();
    assert!(sim.request_run_state_toggle());
    assert_eq!(sim.run_state(), SimulationState::Paused);
    let before = sim.entities(EntityKind::Hazard);
    let ev = sim.tick(arena(), 1000, idle(), roll(), roll());
    assert_eq!(ev, None);
    assert_eq!(sim.entities(EntityKind::Hazard), before);
    assert!(sim.request_run_state_toggle());
    assert_eq!(sim.run_state(), SimulationState::Running);
}

#[test]
fn hazard_hit_records_history_and_ends_round() {
    let mut sim = started();
    sim.scores.current = 5;
    let p = sim.store.first_of(EntityKind::Player).unwrap();
    let player_pos = sim.store.get(p).pos;
    sim.store.create(EntityKind::Hazard, player_pos, Vec2::new(1000, 0), 0);
    let ev = sim.tick(arena(), 0, idle(), roll(), roll());
    assert_eq!(ev.map(|e| e.score), Some(5));
    assert_eq!(sim.phase(), AppState::GameOver);
    assert_eq!(sim.store.len(), 0);
    let hs = sim.scores.high_scores();
    assert_eq!(hs, vec![("Player".to_string(), 5)]);
    assert!(sim.request_phase_transition(AppState::Game, &rolls(14)));
    assert_eq!(sim.current_score(), 0);
    assert_eq!(sim.scores.high_scores().len(), 1);
}

#[test]
fn tick_keeps_entities_inside_and_spawns_when_due() {
    let mut sim = started();
    let mut ticks = 0;
    while ticks < 10 && sim.phase() == AppState::Game {
        let c = Controls { up: true, down: false, left: true, right: false };
        sim.tick(arena(), 500, c, roll(), roll());
        ticks += 1;
    }
    for kind in [EntityKind::Player, EntityKind::Hazard] {
        for (_, pos) in sim.entities(kind) {
            assert!(pos.x >= 32 * PIXEL && pos.x <= 768 * PIXEL);
            assert!(pos.y >= 32 * PIXEL && pos.y <= 568 * PIXEL);
        }
    }
    assert!(sim.store.count(EntityKind::Hazard) <= 20);
    assert!(sim.store.count(EntityKind::Pickup) <= 10);
}

#[test]
fn exit_request_is_recorded() {
    let mut sim = started();
    sim.request_exit();
    assert!(sim.exit_requested);
    assert_eq!(sim.phase(), AppState::Game);
}

#[test]
fn play_button_click_requests_game() {
    let r = interact_with_play_button(ButtonInteraction::Clicked);
    assert_eq!(r.shade, ButtonShade::Pressed);
    assert_eq!(r.next_state, Some(AppState::Game));
    let r = interact_with_play_button(ButtonInteraction::Hovered);
    assert_eq!(r.shade, ButtonShade::Hovered);
    assert_eq!(r.next_state, None);
    let r = interact_with_play_button(ButtonInteraction::Idle);
    assert_eq!(r.shade, ButtonShade::Normal);
}

#[test]
fn quit_button_click_requests_exit() {
    assert!(interact_with_quit_button(ButtonInteraction::Clicked).exit);
    let r = interact_with_quit_button(ButtonInteraction::Hovered);
    assert!(!r.exit);
    assert_eq!(r.shade, ButtonShade::Hovered);
    assert!(!interact_with_quit_button(ButtonInteraction::Idle).exit);
}
