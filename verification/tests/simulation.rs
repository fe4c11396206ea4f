use pong::game::{accelerate, GameState, InputSnapshot, Phase, Vec2I};
use pong::num::div_trunc;
use pong::text::{score_content, win_content};

fn no_keys() -> InputSnapshot {
    InputSnapshot { restart: false, p1_up: false, p1_down: false, p2_up: false, p2_down: false }
}

fn chars(s: &str) -> Vec<char> {
    s.chars().collect()
}

/// A standard game: 16x64-pixel paddles, a 10x10-pixel ball, in milli-pixels.
fn standard_game() -> GameState {
    GameState::new(16_000, 64_000, 16_000, 64_000, 10_000, 10_000)
}

#[test]
fn initial_layout() {
    let g = standard_game();
    assert_eq!(g.player1.position, Vec2I { x: 16_000, y: 208_000 });
    assert_eq!(g.player2.position, Vec2I { x: 608_000, y: 208_000 });
    assert_eq!(g.ball.position, Vec2I { x: 315_000, y: 235_000 });
    assert_eq!(g.ball.velocity, Vec2I { x: -5_000, y: 0 });
    assert_eq!(g.player1.velocity, Vec2I { x: 0, y: 0 });
    assert_eq!(g.score.value, 0);
    assert_eq!(g.score.text, chars("Score: 0"));
    assert_eq!(g.score.position, Vec2I { x: 64_000, y: 16_000 });
    assert_eq!(g.state, Phase::Playing);
}

#[test]
fn accelerate_within_cap() {
    assert_eq!(accelerate(0, 800), 800);
    assert_eq!(accelerate(0, -800), -800);
    assert_eq!(accelerate(19_200, 800), 20_000);
    assert_eq!(accelerate(20_000, -800), 19_200);
}

#[test]
fn accelerate_suppressed_past_cap() {
    // the increment is suppressed, not clamped: the velocity is unchanged
    assert_eq!(accelerate(19_500, 800), 19_500);
    assert_eq!(accelerate(-19_500, -800), -19_500);
    // a speed already past the cap stays as it is: one increment cannot
    // bring it back within the cap either
    assert_eq!(accelerate(25_000, 800), 25_000);
    assert_eq!(accelerate(25_000, -800), 25_000);
}

#[test]
fn restart_resets_everything() {
    let mut g = standard_game();
    g.ball.position = Vec2I { x: 100_000, y: 50_000 };
    g.ball.velocity = Vec2I { x: 7_000, y: -2_000 };
    g.player1.position = Vec2I { x: 16_000, y: 9_000 };
    g.player1.velocity = Vec2I { x: 0, y: 4_000 };
    g.score.value = 11;
    g.score.text = chars("Score: 11");
    g.state = Phase::Terminal;
    g.restart();
    assert_eq!(g, standard_game());
}

#[test]
fn restart_twice_equals_once() {
    let mut g = standard_game();
    g.ball.velocity = Vec2I { x: 9_000, y: 1_000 };
    g.score.value = 4;
    g.restart();
    let once = g.clone();
    g.restart();
    assert_eq!(g, once);
}

#[test]
fn wall_bounce_flips_vertical_velocity() {
    // ball reaching y = -1 pixels with vertical velocity 3: sign flip only
    let mut g = standard_game();
    g.ball.position = Vec2I { x: 315_000, y: -4_000 };
    g.ball.velocity = Vec2I { x: 0, y: 3_000 };
    g.update(&no_keys());
    assert_eq!(g.ball.position.y, -1_000);
    assert_eq!(g.ball.velocity.y, -3_000);
    assert_eq!(g.state, Phase::Playing);
}

#[test]
fn left_exit_player_two_wins() {
    // ball at x = -0.01 pixels while playing: one update turns the round
    // terminal and names player 2
    let mut g = standard_game();
    g.ball.position = Vec2I { x: -10, y: 235_000 };
    g.ball.velocity = Vec2I { x: 0, y: 0 };
    g.update(&no_keys());
    assert_eq!(g.state, Phase::Terminal);
    assert_eq!(g.score.text, chars("Player 2 wins with 0 points!"));
    assert_eq!(g.score.value, 0);
}

#[test]
fn right_exit_player_one_wins() {
    // ball at x = 639 pixels moving at (5, 0): it ends at 644 >= 640
    let mut g = standard_game();
    g.ball.position = Vec2I { x: 639_000, y: 235_000 };
    g.ball.velocity = Vec2I { x: 5_000, y: 0 };
    g.update(&no_keys());
    assert_eq!(g.ball.position.x, 644_000);
    assert_eq!(g.state, Phase::Terminal);
    assert_eq!(g.score.text, chars("Player 1 wins with 0 points!"));
}

#[test]
fn paddle_hit_reverses_and_speeds_up() {
    // ball struck dead centre on paddle 1: reversal with a 5% speed-up,
    // no spin, one point
    let mut g = standard_game();
    g.ball.position = Vec2I { x: 30_000, y: 235_000 };
    g.ball.velocity = Vec2I { x: -5_000, y: 0 };
    g.update(&no_keys());
    assert_eq!(g.ball.position, Vec2I { x: 25_000, y: 235_000 });
    assert_eq!(g.ball.velocity, Vec2I { x: 5_250, y: 0 });
    assert_eq!(g.score.value, 1);
    assert_eq!(g.score.text, chars("Score: 1"));
    assert_eq!(g.state, Phase::Playing);
}

#[test]
fn off_centre_hit_adds_spin() {
    // ball centre 16 pixels below paddle 1's centre: spin pushes it further
    // down by PADDLE_SPIN * 16/64 = 1 pixel per frame
    let mut g = standard_game();
    g.ball.position = Vec2I { x: 30_000, y: 251_000 };
    g.ball.velocity = Vec2I { x: -5_000, y: 0 };
    g.update(&no_keys());
    assert_eq!(g.ball.velocity, Vec2I { x: 5_250, y: 1_000 });
    assert_eq!(g.score.value, 1);
}

#[test]
fn both_paddles_hit_first_wins() {
    // both paddles overlap the ball; only player 1's effect is applied:
    // the spin comes from paddle 1's centre (zero here), not paddle 2's
    let mut g = standard_game();
    g.player2.position = Vec2I { x: 16_000, y: 200_000 };
    g.ball.position = Vec2I { x: 30_000, y: 235_000 };
    g.ball.velocity = Vec2I { x: -5_000, y: 0 };
    g.update(&no_keys());
    assert_eq!(g.ball.velocity, Vec2I { x: 5_250, y: 0 });
    assert_eq!(g.score.value, 1);
}

#[test]
fn terminal_state_frozen() {
    let mut g = standard_game();
    g.state = Phase::Terminal;
    g.score.text = chars("Player 2 wins with 0 points!");
    let before = g.clone();
    let keys = InputSnapshot { restart: false, p1_up: true, p1_down: false, p2_up: false, p2_down: true };
    g.update(&keys);
    assert_eq!(g, before);
}

#[test]
fn restart_chord_revives_terminal_round() {
    let mut g = standard_game();
    g.state = Phase::Terminal;
    g.score.value = 7;
    g.score.text = chars("Player 1 wins with 7 points!");
    g.ball.position = Vec2I { x: 650_000, y: 100_000 };
    let snap = InputSnapshot { restart: true, p1_up: false, p1_down: false, p2_up: false, p2_down: false };
    g.update(&snap);
    // physics runs on the freshly restarted state the same frame
    assert_eq!(g.state, Phase::Playing);
    assert_eq!(g.score.value, 0);
    assert_eq!(g.score.text, chars("Score: 0"));
    assert_eq!(g.ball.position, Vec2I { x: 310_000, y: 235_000 });
}

#[test]
fn held_key_accelerates_then_damps() {
    let mut g = standard_game();
    let keys = InputSnapshot { restart: false, p1_up: false, p1_down: true, p2_up: false, p2_down: false };
    g.update(&keys);
    // velocity became 800, the position moved by it, then friction left 720
    assert_eq!(g.player1.position.y, 208_800);
    assert_eq!(g.player1.velocity.y, 720);
    assert_eq!(g.player2.position.y, 208_000);
    assert_eq!(g.player2.velocity.y, 0);
}

#[test]
fn capped_key_press_suppressed_through_update() {
    let mut g = standard_game();
    g.player1.velocity = Vec2I { x: 0, y: 19_500 };
    let keys = InputSnapshot { restart: false, p1_up: false, p1_down: true, p2_up: false, p2_down: false };
    g.update(&keys);
    // 19,500 + 800 would pass the cap, so the increment was suppressed
    assert_eq!(g.player1.position.y, 208_000 + 19_500);
    assert_eq!(g.player1.velocity.y, 17_550);
}

#[test]
fn paddle_wall_bounce_overcorrects() {
    let mut g = standard_game();
    g.player1.position = Vec2I { x: 16_000, y: -5_000 };
    g.player1.velocity = Vec2I { x: 0, y: 1_000 };
    g.update(&no_keys());
    // moved by 1000, damped to 900, then multiplied by -3/2 at the wall
    assert_eq!(g.player1.position.y, -4_000);
    assert_eq!(g.player1.velocity.y, -1_350);
}

#[test]
fn score_and_win_texts() {
    assert_eq!(score_content(0), chars("Score: 0"));
    assert_eq!(score_content(1234), chars("Score: 1234"));
    assert_eq!(win_content(true, 57), chars("Player 1 wins with 57 points!"));
    assert_eq!(win_content(false, 3), chars("Player 2 wins with 3 points!"));
}

#[test]
fn division_truncates_towards_zero() {
    assert_eq!(div_trunc(7, 2), 3);
    assert_eq!(div_trunc(-7, 2), -3);
    assert_eq!(div_trunc(9, 10), 0);
    assert_eq!(div_trunc(-9, 10), 0);
}

#[test]
fn bounds_check_detects_escape() {
    let mut g = standard_game();
    assert!(g.check_bounds());
    g.ball.position.x = i64::MAX - 5;
    assert!(!g.check_bounds());
}
