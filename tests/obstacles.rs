use flappy_pebble::config::GameConfig;
use flappy_pebble::game_size::GameSize;
use flappy_pebble::gamescore::GameScore;
use flappy_pebble::moai::{
    advance_moai, check_spawn_due, despawn_moai_outside_screen, move_moai, move_step,
    spawn_init_moai, spawn_moai, Moai,
};

fn wide_field() -> GameSize {
    GameSize::new(3_072_000, 1_024_000)
}

#[test]
fn spawn_when_spacing_reached() {
    let c = GameConfig::standard();
    let g = wide_field();
    assert_eq!(g.max_x, 1_536_000);
    let mut ms = vec![Moai::new(786_000, 0)];
    assert!(check_spawn_due(&ms, &g, &c));
    spawn_moai(&mut ms, &g, &c, 10_000);
    assert_eq!(ms.len(), 2);
    assert_eq!(ms[1], Moai { x: 1_586_000, height: 10_000, passed: false });
}

#[test]
fn no_spawn_before_spacing_reached() {
    let c = GameConfig::standard();
    let g = wide_field();
    assert!(!check_spawn_due(&vec![Moai::new(786_001, 0)], &g, &c));
    assert!(!check_spawn_due(&vec![Moai::new(0, 0), Moai::new(900_000, 0)], &g, &c));
}

#[test]
fn spawn_due_with_no_obstacles() {
    let c = GameConfig::standard();
    assert!(check_spawn_due(&vec![], &wide_field(), &c));
}

#[test]
fn move_step_scales_with_tick() {
    let c = GameConfig::standard();
    assert_eq!(move_step(&c, 100_000), 20_000);
    assert_eq!(move_step(&c, 0), 0);
    assert_eq!(move_step(&c, 1_000), 200);
    assert_eq!(move_step(&c, 15_625), 3_125);
    assert_eq!(move_step(&c, 1), 0);
}

#[test]
fn passing_scores_once() {
    let mut ms = vec![Moai::new(10_000, 0), Moai::new(500_000, 0)];
    let mut score = GameScore::new(5);
    advance_moai(&mut ms, &mut score, 20_000);
    assert_eq!(score.get_current_score(), 1);
    assert!(ms[0].passed);
    assert!(!ms[1].passed);
    assert_eq!(ms[0].x, -10_000);
    assert_eq!(ms[1].x, 480_000);
    advance_moai(&mut ms, &mut score, 20_000);
    assert_eq!(score.get_current_score(), 1);
}

#[test]
fn obstacle_resting_at_zero_scores_once() {
    let mut ms = vec![Moai::new(0, 0)];
    let mut score = GameScore::new(0);
    advance_moai(&mut ms, &mut score, 0);
    advance_moai(&mut ms, &mut score, 0);
    advance_moai(&mut ms, &mut score, 0);
    assert_eq!(score.get_current_score(), 1);
    assert!(score.is_new_high_score());
}

#[test]
fn obstacle_landing_on_zero_scores() {
    let mut ms = vec![Moai::new(20_000, 0)];
    let mut score = GameScore::new(0);
    advance_moai(&mut ms, &mut score, 20_000);
    assert_eq!(score.get_current_score(), 1);
    assert_eq!(ms[0].x, 0);
}

#[test]
fn obstacle_already_left_does_not_score() {
    let mut ms = vec![Moai::new(-1, 0)];
    let mut score = GameScore::new(0);
    advance_moai(&mut ms, &mut score, 20_000);
    assert_eq!(score.get_current_score(), 0);
    assert!(!ms[0].passed);
}

#[test]
fn despawn_only_past_left_edge() {
    let c = GameConfig::standard();
    let g = wide_field();
    // left edge -1536, minus half width 50
    let mut ms = vec![
        Moai::new(-1_586_001, 1),
        Moai::new(-1_586_000, 2),
        Moai::new(0, 3),
        Moai::new(-2_000_000, 4),
    ];
    despawn_moai_outside_screen(&mut ms, &g, &c);
    assert_eq!(ms, vec![Moai::new(-1_586_000, 2), Moai::new(0, 3)]);
}

#[test]
fn first_obstacle_far_ahead() {
    let c = GameConfig::standard();
    let mut ms = vec![Moai::new(0, 0)];
    // three times the smaller half-extent: 3 * 1024
    spawn_init_moai(&mut ms, &GameSize::new(3_072_000, 2_048_000), &c, -20_000);
    assert_eq!(ms, vec![Moai::new(3_072_000, -20_000)]);
}

#[test]
fn first_obstacle_at_least_at_entry() {
    let c = GameConfig::standard();
    let mut ms = vec![];
    // three times 400 is below the entry point 2000 + 50
    spawn_init_moai(&mut ms, &GameSize::new(4_000_000, 800_000), &c, 0);
    assert_eq!(ms, vec![Moai::new(2_050_000, 0)]);
}

#[test]
fn obstacle_step_spawns_when_due() {
    let c = GameConfig::standard();
    let g = wide_field();
    let mut ms = vec![Moai::new(789_125, 0)];
    let mut score = GameScore::new(0);
    let d = move_step(&c, 15_625);
    assert_eq!(d, 3_125);
    move_moai(&mut ms, &mut score, &g, &c, d, -123_000);
    assert_eq!(ms, vec![Moai::new(786_000, 0), Moai::new(1_586_000, -123_000)]);
    assert_eq!(score.get_current_score(), 0);
}

#[test]
fn obstacle_step_without_spawn() {
    let c = GameConfig::standard();
    let g = wide_field();
    let mut ms = vec![Moai::new(789_126, 0)];
    let mut score = GameScore::new(0);
    move_moai(&mut ms, &mut score, &g, &c, 3_125, 0);
    assert_eq!(ms, vec![Moai::new(786_001, 0)]);
}

#[test]
fn obstacle_step_scores_and_spawns() {
    let c = GameConfig::standard();
    let g = wide_field();
    let mut ms = vec![Moai::new(1_000, 5_000), Moai::new(700_000, 6_000)];
    let mut score = GameScore::new(0);
    move_moai(&mut ms, &mut score, &g, &c, 3_125, 7_000);
    assert_eq!(score.get_current_score(), 1);
    assert_eq!(
        ms,
        vec![
            Moai { x: -2_125, height: 5_000, passed: true },
            Moai::new(696_875, 6_000),
            Moai::new(1_586_000, 7_000),
        ]
    );
}
