use flappy_pebble::config::GameConfig;
use flappy_pebble::game::{Draws, Game, GameEntityPlugin, StatePlugin};
use flappy_pebble::game_size::GameSize;
use flappy_pebble::gamescore::GameScore;
use flappy_pebble::gamestate::{change_state_buttons, requested_transition, Actions, GameState};
use flappy_pebble::moai::Moai;
use flappy_pebble::pebble::Pebble;

const DT: u32 = 100_000;

fn draws() -> Draws {
    Draws { start_y: 0, gap_height: -50_000 }
}

fn press_confirm() -> Actions {
    Actions { confirm: true, ..Actions::none() }
}

fn press_pause() -> Actions {
    Actions { pause: true, ..Actions::none() }
}

fn press_cancel() -> Actions {
    Actions { cancel: true, ..Actions::none() }
}

fn press_jump() -> Actions {
    Actions { jump: true, ..Actions::none() }
}

fn new_game(best: u32) -> Game {
    Game::new(GameConfig::standard(), GameSize::new(3_072_000, 1_024_000), best)
}

fn playing_with(pebble: Pebble, moai: Vec<Moai>, score: GameScore) -> Game {
    Game {
        config: GameConfig::standard(),
        size: GameSize::new(3_072_000, 1_024_000),
        states: StatePlugin { state: GameState::Playing, score },
        entities: GameEntityPlugin { pebble: Some(pebble), moai },
    }
}

#[test]
fn button_table_decides_transitions() {
    assert_eq!(change_state_buttons().len(), 8);
    assert_eq!(requested_transition(GameState::MainMenu, &press_confirm()), Some(GameState::Playing));
    assert_eq!(requested_transition(GameState::MainMenu, &press_cancel()), Some(GameState::Exit));
    assert_eq!(requested_transition(GameState::MainMenu, &press_pause()), None);
    assert_eq!(requested_transition(GameState::Playing, &press_pause()), Some(GameState::Pause));
    assert_eq!(requested_transition(GameState::Playing, &press_confirm()), None);
    assert_eq!(requested_transition(GameState::Pause, &press_pause()), Some(GameState::Playing));
    assert_eq!(requested_transition(GameState::Pause, &press_confirm()), Some(GameState::Playing));
    assert_eq!(requested_transition(GameState::GameOver, &press_confirm()), Some(GameState::Playing));
    assert_eq!(requested_transition(GameState::GameOver, &press_pause()), Some(GameState::MainMenu));
    assert_eq!(requested_transition(GameState::GameOver, &press_cancel()), Some(GameState::MainMenu));
    assert_eq!(requested_transition(GameState::Exit, &press_confirm()), None);
    let both = Actions { confirm: true, cancel: true, ..Actions::none() };
    assert_eq!(requested_transition(GameState::MainMenu, &both), Some(GameState::Playing));
}

#[test]
fn starting_a_run_spawns_entities() {
    let mut g = new_game(7);
    assert_eq!(g.states.state, GameState::MainMenu);
    assert!(g.entities.pebble.is_none());
    assert_eq!(g.tick(&press_confirm(), DT, &Draws { start_y: 120_000, gap_height: 30_000 }), None);
    assert_eq!(g.states.state, GameState::Playing);
    assert_eq!(g.entities.pebble, Some(Pebble { velocity: 400_000, x: 0, y: 120_000 }));
    assert_eq!(g.entities.moai, vec![Moai::new(1_586_000, 30_000)]);
    assert_eq!(g.states.score, GameScore::new(7));
}

#[test]
fn a_tick_of_play() {
    let mut g = new_game(0);
    g.tick(&press_confirm(), DT, &draws());
    g.tick(&Actions::none(), DT, &draws());
    assert_eq!(g.entities.pebble, Some(Pebble { velocity: 360_000, x: 0, y: 38_000 }));
    assert_eq!(g.entities.moai[0].x, 1_566_000);
    assert_eq!(g.states.state, GameState::Playing);
}

#[test]
fn jump_wins_over_gravity_in_the_same_tick() {
    let mut g = new_game(0);
    g.tick(&press_confirm(), DT, &draws());
    g.tick(&press_jump(), DT, &draws());
    assert_eq!(g.entities.pebble, Some(Pebble { velocity: 400_000, x: 0, y: 38_000 }));
}

#[test]
fn pause_freezes_and_resume_continues() {
    let mut g = new_game(0);
    g.tick(&press_confirm(), DT, &draws());
    g.tick(&press_pause(), DT, &draws());
    assert_eq!(g.states.state, GameState::Pause);
    let frozen = g.entities.pebble;
    g.tick(&Actions::none(), DT, &draws());
    g.tick(&press_jump(), DT, &draws());
    assert_eq!(g.entities.pebble, frozen);
    g.tick(&press_confirm(), DT, &draws());
    assert_eq!(g.states.state, GameState::Playing);
    assert_eq!(g.entities.pebble, frozen);
    g.tick(&Actions::none(), DT, &draws());
    assert_eq!(g.entities.pebble.unwrap().y, 38_000);
}

#[test]
fn falling_below_floor_ends_the_run() {
    let far = vec![Moai::new(1_500_000, 0)];
    let mut g = playing_with(Pebble::new(-513_000, 0), far.clone(), GameScore::new(0));
    g.tick(&Actions::none(), 0, &draws());
    assert_eq!(g.states.state, GameState::GameOver);
    let mut h = playing_with(Pebble::new(-511_000, 0), far, GameScore::new(0));
    h.tick(&Actions::none(), 0, &draws());
    assert_eq!(h.states.state, GameState::Playing);
}

#[test]
fn hitting_an_obstacle_ends_the_run() {
    let mut g = playing_with(Pebble::new(-80_000, 0), vec![Moai::new(30_000, -50_000)], GameScore::new(0));
    g.tick(&Actions::none(), 0, &draws());
    assert_eq!(g.states.state, GameState::GameOver);
    let mut h = playing_with(Pebble::new(100_000, 0), vec![Moai::new(30_000, -50_000)], GameScore::new(0));
    h.tick(&Actions::none(), 0, &draws());
    assert_eq!(h.states.state, GameState::Playing);
}

#[test]
fn game_over_freezes_entities() {
    let mut g = playing_with(Pebble::new(-80_000, 0), vec![Moai::new(30_000, -50_000)], GameScore::new(0));
    g.tick(&Actions::none(), 0, &draws());
    let pebble = g.entities.pebble;
    let moai = g.entities.moai.clone();
    g.tick(&Actions::none(), DT, &draws());
    g.tick(&press_jump(), DT, &draws());
    assert_eq!(g.entities.pebble, pebble);
    assert_eq!(g.entities.moai, moai);
}

#[test]
fn spawning_during_play() {
    let mut g = playing_with(Pebble::new(0, 0), vec![Moai::new(806_000, 0)], GameScore::new(0));
    g.tick(&Actions::none(), DT, &Draws { start_y: 0, gap_height: 44_000 });
    assert_eq!(g.entities.moai, vec![Moai::new(786_000, 0), Moai::new(1_586_000, 44_000)]);
    g.tick(&Actions::none(), DT, &draws());
    assert_eq!(g.entities.moai.len(), 2);
}

#[test]
fn passing_an_obstacle_scores() {
    let mut g = playing_with(Pebble::new(0, 0), vec![Moai::new(10_000, -100_000)], GameScore::new(0));
    g.tick(&Actions::none(), DT, &draws());
    assert_eq!(g.states.score.get_current_score(), 1);
    assert!(g.states.score.is_new_high_score());
    g.tick(&Actions::none(), DT, &draws());
    assert_eq!(g.states.score.get_current_score(), 1);
}

#[test]
fn new_best_is_saved_at_game_over() {
    let mut g = playing_with(Pebble::new(-80_000, 0), vec![Moai::new(30_000, -50_000)], GameScore::new(3));
    g.states.score.current_score = 5;
    g.states.score.is_high_score = true;
    assert_eq!(g.tick(&Actions::none(), 0, &draws()), Some(5));
    assert_eq!(g.states.score.get_high_score(), 5);
}

#[test]
fn no_save_without_new_best() {
    let mut g = playing_with(Pebble::new(-80_000, 0), vec![Moai::new(30_000, -50_000)], GameScore::new(9));
    g.states.score.current_score = 5;
    assert_eq!(g.tick(&Actions::none(), 0, &draws()), None);
    assert_eq!(g.states.score.get_high_score(), 9);
}

#[test]
fn best_never_decreases_over_runs() {
    let mut g = new_game(1);
    let mut best = g.states.score.get_high_score();
    for run in 0..3 {
        g.tick(&press_confirm(), DT, &draws());
        for _ in 0..200 {
            g.tick(&Actions::none(), DT, &draws());
            assert!(g.states.score.get_high_score() >= best);
            best = g.states.score.get_high_score();
        }
        assert_eq!(g.states.state, GameState::GameOver, "run {}", run);
        if run == 1 {
            g.tick(&press_pause(), DT, &draws());
            assert_eq!(g.states.state, GameState::MainMenu);
            assert_eq!(g.states.score.get_high_score(), best);
        }
    }
}

#[test]
fn restart_resets_the_run() {
    let mut g = playing_with(Pebble::new(-80_000, 0), vec![Moai::new(30_000, -50_000)], GameScore::new(0));
    g.states.score.current_score = 2;
    g.states.score.is_high_score = true;
    g.tick(&Actions::none(), 0, &draws());
    g.tick(&press_confirm(), DT, &Draws { start_y: -7_000, gap_height: 0 });
    assert_eq!(g.states.state, GameState::Playing);
    assert_eq!(g.states.score, GameScore { current_score: 0, high_score: 2, is_high_score: false });
    assert_eq!(g.entities.pebble, Some(Pebble::new(-7_000, 400_000)));
    assert_eq!(g.entities.moai, vec![Moai::new(1_586_000, 0)]);
}

#[test]
fn back_to_menu_and_exit() {
    let mut g = playing_with(Pebble::new(-80_000, 0), vec![Moai::new(30_000, -50_000)], GameScore::new(0));
    g.tick(&Actions::none(), 0, &draws());
    g.tick(&press_cancel(), DT, &draws());
    assert_eq!(g.states.state, GameState::MainMenu);
    assert!(g.entities.pebble.is_none());
    assert!(g.entities.moai.is_empty());
    g.tick(&press_cancel(), DT, &draws());
    assert_eq!(g.states.state, GameState::Exit);
    g.tick(&press_confirm(), DT, &draws());
    assert_eq!(g.states.state, GameState::Exit);
}

#[test]
fn resize_through_the_game() {
    let mut g = new_game(0);
    assert!(g.on_resize(3072, 2000));
    assert_eq!(g.size.max_y, 1_000_000);
    assert!(!g.on_resize(0, 2000));
    assert_eq!(g.size.max_y, 1_000_000);
}

#[test]
fn random_draws_stay_in_range() {
    let c = GameConfig::standard();
    let mut starts = Vec::new();
    for _ in 0..200 {
        let r = Draws::sample(&c);
        assert!(-300_000 <= r.start_y && r.start_y < 300_000);
        assert!(-200_000 <= r.gap_height && r.gap_height < 200_000);
        starts.push(r.start_y);
    }
    assert!(starts.iter().any(|&y| y != -300_000));
    assert!(starts.iter().any(|&y| y != starts[0]));
}

#[test]
fn step_draws_for_a_new_run() {
    let mut g = new_game(0);
    g.step(&press_confirm(), DT);
    assert_eq!(g.states.state, GameState::Playing);
    let p = g.entities.pebble.unwrap();
    assert!(-300_000 <= p.y && p.y < 300_000);
    let h = g.entities.moai[0].height;
    assert!(-200_000 <= h && h < 200_000);
}

#[test]
fn obstacles_stay_ordered_and_spaced() {
    let mut g = new_game(0);
    g.tick(&press_confirm(), DT, &Draws { start_y: 0, gap_height: 0 });
    for t in 0..400u32 {
        if t == 100 {
            assert!(g.on_resize(1280, 720));
        }
        let jump = g.entities.pebble.map_or(false, |p| p.y < 0 && p.velocity < 0);
        let a = Actions { jump, ..Actions::none() };
        g.tick(&a, 15_625, &Draws { start_y: 0, gap_height: 0 });
        let xs: Vec<i64> = g.entities.moai.iter().map(|m| m.x).collect();
        for w in xs.windows(2) {
            assert!(w[0] + 800_000 <= w[1], "tick {}: {:?}", t, xs);
        }
    }
}
