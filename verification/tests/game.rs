use flappy_core::obstacle::Obstacle;
use flappy_core::player::Player;
use flappy_core::state::{Command, GameMode, State, TickOutput};

// One update with delta = 1.0 s from (5, 25) at rest: gravity raises dy to
// 9.8, the new velocity moves y to 34.8 and x to 20 (all in thousandths).
#[test]
fn update_one_second_from_rest() {
    let mut p = Player::new(5_000, 25_000);
    p.update(1_000);
    assert_eq!(p.dy, 9_800);
    assert_eq!(p.y, 34_800);
    assert_eq!(p.x, 20_000);
    assert_eq!(p.dx, 15_000);
}

// The top-edge clamp: a rising player never ends above row 0.
#[test]
fn update_clamps_y_at_zero() {
    let mut p = Player::new(5_000, 0);
    p.dy = -15_000;
    p.update(100);
    // dy: -15000 + 980 = -14020; y: 0 - 1402, clamped to 0.
    assert_eq!(p.dy, -14_020);
    assert_eq!(p.y, 0);
}

#[test]
fn update_zero_delta_changes_nothing() {
    let mut p = Player::new(5_000, 25_000);
    p.dy = 3_000;
    p.update(0);
    assert_eq!(p.dy, 3_000);
    assert_eq!(p.y, 25_000);
    assert_eq!(p.x, 5_000);
}

// A flap overwrites dy with the fixed impulse; it never accumulates.
#[test]
fn flap_overwrites_dy() {
    let mut p = Player::new(5_000, 25_000);
    p.dy = 5_000;
    p.flap();
    assert_eq!(p.dy, -15_000);
    p.flap();
    assert_eq!(p.dy, -15_000);
    p.dy = -30_000;
    p.flap();
    assert_eq!(p.dy, -15_000);
    assert_eq!(p.y, 25_000);
    assert_eq!(p.x, 5_000);
}

#[test]
fn screen_rounding_is_nearest() {
    let mut p = Player::new(10_499, 10_500);
    assert_eq!(p.world_x(), 10);
    assert_eq!(p.screen_y(), 11);
    p.y = 10_501;
    assert_eq!(p.screen_y(), 11);
}

// Gap size is max(2, 20 - score): exact values and the floor.
#[test]
fn size_shrinks_with_score() {
    let expected: [(i64, i64); 7] =
        [(0, 20), (1, 19), (5, 15), (17, 3), (18, 2), (19, 2), (100, 2)];
    let mut last: i64 = 20;
    for (score, size) in expected {
        let o = Obstacle::new_with_gap(80, score, 20);
        assert_eq!(o.size, size);
        assert!(o.size <= last);
        last = o.size;
    }
}

#[test]
fn size_floor_at_score_25() {
    let o = Obstacle::new_with_gap(80, 25, 20);
    assert_eq!(o.size, 2);
}

// The random gap centre always lands in [10, 40), whatever the draw.
#[test]
fn random_gap_in_range() {
    for _ in 0..32 {
        let o = Obstacle::new(80, 0);
        assert_eq!(o.x, 80);
        assert_eq!(o.size, 20);
        assert!(o.gap_y >= 10 && o.gap_y < 40);
    }
}

// Collision at matching column: gap centred on 20 with half-size 3 admits
// rows 17..=23; row 10 collides, row 20 does not.
#[test]
fn hit_outside_gap_at_matching_column() {
    let o = Obstacle::new_with_gap(10, 14, 20);
    assert_eq!(o.size, 6);
    let above = Player::new(10_000, 10_000);
    assert!(o.hit(&above));
    let inside = Player::new(10_000, 20_000);
    assert!(!o.hit(&inside));
}

#[test]
fn hit_needs_exact_column() {
    let o = Obstacle::new_with_gap(10, 14, 20);
    let off_column = Player::new(11_000, 10_000);
    assert!(!o.hit(&off_column));
    let off_left = Player::new(9_000, 10_000);
    assert!(!o.hit(&off_left));
}

// The test is strict: sitting exactly on a gap edge is not a collision.
#[test]
fn hit_gap_edges_are_safe() {
    let o = Obstacle::new_with_gap(10, 14, 20);
    let on_top_edge = Player::new(10_000, 17_000);
    assert!(!o.hit(&on_top_edge));
    let on_bottom_edge = Player::new(10_000, 23_000);
    assert!(!o.hit(&on_bottom_edge));
    let above_top_edge = Player::new(10_000, 16_000);
    assert!(o.hit(&above_top_edge));
    let below_bottom_edge = Player::new(10_000, 24_000);
    assert!(o.hit(&below_bottom_edge));
}

#[test]
fn new_game_sits_on_menu() {
    let s = State::new();
    assert_eq!(s.mode, GameMode::Menu);
    assert_eq!(s.score, 0);
    assert_eq!(s.player.x, 5_000);
    assert_eq!(s.player.y, 25_000);
    assert_eq!(s.player.dy, 0);
    assert_eq!(s.obstacle.x, 80);
    assert_eq!(s.obstacle.size, 20);
}

// restart() resets score and mode from every prior mode.
#[test]
fn restart_resets_from_any_mode() {
    let mut s = State::new();
    s.restart();
    assert_eq!(s.mode, GameMode::Playing);
    assert_eq!(s.score, 0);

    s.score = 9;
    s.mode = GameMode::End;
    s.restart();
    assert_eq!(s.mode, GameMode::Playing);
    assert_eq!(s.score, 0);
    assert_eq!(s.player.y, 25_000);
    assert_eq!(s.obstacle.x, 80);

    s.score = 3;
    s.mode = GameMode::Playing;
    s.restart();
    assert_eq!(s.mode, GameMode::Playing);
    assert_eq!(s.score, 0);
}

// A pass scores exactly once: the frame that crosses the wall increments the
// score and replaces the wall one screen ahead; the next frame does not score
// the new wall.
#[test]
fn pass_scores_exactly_once() {
    let mut s = State::new();
    s.restart();
    s.player.x = 90_000; // rounded column 90, past the wall at 80 + 5
    s.player.y = 25_000;
    let frame = s.play(0, false);
    assert_eq!(frame.score, 0); // the crossing frame still shows the old score
    assert_eq!(s.score, 1);
    assert_eq!(s.obstacle.x, 90 + 80 - 5);
    assert_eq!(s.obstacle.size, 19);
    assert_eq!(s.mode, GameMode::Playing);

    let frame2 = s.play(0, false);
    assert_eq!(frame2.score, 1);
    assert_eq!(s.score, 1);
    assert_eq!(s.obstacle.x, 165);
}

#[test]
fn no_pass_no_score() {
    let mut s = State::new();
    s.restart();
    let _ = s.play(100, false);
    assert_eq!(s.score, 0);
    assert_eq!(s.obstacle.x, 80);
}

// Falling past the bottom edge ends the game.
#[test]
fn falling_off_screen_dies() {
    let mut s = State::new();
    s.restart();
    s.player.y = 50_600; // rounds to row 51 > 50
    let _ = s.play(0, false);
    assert_eq!(s.mode, GameMode::End);
}

// Colliding with the wall ends the game; flying through the gap does not.
#[test]
fn collision_dies_gap_survives() {
    let mut s = State::new();
    s.restart();
    s.obstacle = Obstacle::new_with_gap(5, 0, 20); // player column is 5
    s.player.y = 45_000; // row 45, below the gap (rows 10..=30)
    let _ = s.play(0, false);
    assert_eq!(s.mode, GameMode::End);

    let mut t = State::new();
    t.restart();
    t.obstacle = Obstacle::new_with_gap(5, 0, 20);
    t.player.y = 20_000; // row 20, inside the gap
    let _ = t.play(0, false);
    assert_eq!(t.mode, GameMode::Playing);
}

#[test]
fn play_frame_describes_the_screen() {
    let mut s = State::new();
    s.restart();
    s.obstacle = Obstacle::new_with_gap(80, 0, 25);
    let frame = s.play(1_000, false);
    // player: x 5 -> 20, y 25 -> 34.8 (row 35)
    assert_eq!(frame.player_row, 35);
    assert_eq!(frame.wall_screen_x, 80 - 20 + 5);
    assert_eq!(frame.wall_top_end, 25 - 10);
    assert_eq!(frame.wall_bottom_start, 25 + 10);
    assert_eq!(frame.score, 0);
}

#[test]
fn tick_menu_play_starts_game() {
    let mut s = State::new();
    let out = s.tick(16, Some(Command::Play));
    assert_eq!(out, TickOutput::MenuScreen { quit: false });
    assert_eq!(s.mode, GameMode::Playing);
    assert_eq!(s.score, 0);
}

#[test]
fn tick_menu_quit_requests_exit() {
    let mut s = State::new();
    let out = s.tick(16, Some(Command::Quit));
    assert_eq!(out, TickOutput::MenuScreen { quit: true });
    assert_eq!(s.mode, GameMode::Menu);
}

#[test]
fn tick_menu_ignores_flap() {
    let mut s = State::new();
    let out = s.tick(16, Some(Command::Flap));
    assert_eq!(out, TickOutput::MenuScreen { quit: false });
    assert_eq!(s.mode, GameMode::Menu);
    let out2 = s.tick(16, None);
    assert_eq!(out2, TickOutput::MenuScreen { quit: false });
    assert_eq!(s.mode, GameMode::Menu);
}

#[test]
fn tick_playing_flaps_on_space() {
    let mut s = State::new();
    s.restart();
    let out = s.tick(100, Some(Command::Flap));
    match out {
        TickOutput::PlayScreen { frame } => assert_eq!(frame.score, 0),
        _ => panic!("expected a playing frame"),
    }
    assert_eq!(s.player.dy, -15_000);
}

#[test]
fn tick_dead_screen_shows_final_score() {
    let mut s = State::new();
    s.restart();
    s.score = 7;
    s.obstacle.x = 600; // keep the state consistent with the score
    s.mode = GameMode::End;
    let out = s.tick(16, None);
    assert_eq!(out, TickOutput::DeadScreen { score: 7, quit: false });
    assert_eq!(s.mode, GameMode::End);

    let out2 = s.tick(16, Some(Command::Play));
    assert_eq!(out2, TickOutput::DeadScreen { score: 7, quit: false });
    assert_eq!(s.mode, GameMode::Playing);
    assert_eq!(s.score, 0);

    s.mode = GameMode::End;
    let out3 = s.tick(16, Some(Command::Quit));
    assert_eq!(out3, TickOutput::DeadScreen { score: 0, quit: true });
}
