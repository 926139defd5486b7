//! Tests for obstacles, the spawner, and the game-flow state machine.

use dino_runner::cactus::Cactus;
use dino_runner::dino::Dino;
use dino_runner::spawner::Spawner;
use dino_runner::world::{FrameInput, GameState, GameWorld};

fn no_input() -> FrameInput {
    FrameInput { jump_pressed: false, jump_released: false, restart_pressed: false }
}

#[test]
fn obstacle_past_threshold_is_off_screen() {
    // horizontal position -25 against an off-screen threshold of -20
    let past = Cactus::new(-25_000_000);
    assert!(past.off_screen());
    let on_edge = Cactus::new(-20_000_000);
    assert!(!on_edge.off_screen());
}

#[test]
fn obstacle_moves_left_by_scaled_speed() {
    let mut c = Cactus::new(500_000_000);
    c.update(5_000, 16);
    assert_eq!(c.x, 500_000_000 - 4_800_000);
}

#[test]
fn fresh_spawner_is_due_and_rearms_in_range() {
    let mut s = Spawner::new();
    assert_eq!(s.remaining, 0);
    let spawned = s.tick(16);
    assert!(spawned);
    assert!(1_000 <= s.remaining && s.remaining < 2_000);
}

#[test]
fn armed_spawner_counts_down() {
    let mut s = Spawner::new();
    s.tick(16);
    let before = s.remaining;
    let spawned = s.tick(200);
    assert!(!spawned);
    assert_eq!(s.remaining, before - 200);
}

#[test]
fn first_tick_spawns_at_right_edge() {
    let mut w = GameWorld::new(800_000_000, 5_000);
    w.tick(no_input(), 16);
    assert_eq!(w.cacti.len(), 1);
    assert_eq!(w.cacti[0].x, 800_000_000);
    assert!(1_000 <= w.spawner.remaining && w.spawner.remaining < 2_000);
}

#[test]
fn score_accrues_while_playing() {
    // three Playing ticks of 0.5 s each, no collision: score is 1.5 s
    let mut w = GameWorld::new(800_000_000, 5_000);
    w.tick(no_input(), 500);
    w.tick(no_input(), 500);
    w.tick(no_input(), 500);
    assert_eq!(w.score, 1_500);
    assert_eq!(w.state, GameState::Playing);
}

#[test]
fn score_saturates_instead_of_wrapping() {
    let mut w = GameWorld::new(800_000_000, 5_000);
    w.score = i64::MAX - 5;
    w.tick(no_input(), 500);
    assert_eq!(w.score, i64::MAX);
}

#[test]
fn obstacle_removed_iff_past_threshold() {
    let mut w = GameWorld::new(800_000_000, 5_000);
    // a 16 ms tick at speed 5_000 moves every obstacle 4_800_000 left
    w.cacti.push(Cactus::new(-20_000_000)); // ends below the threshold: removed
    w.cacti.push(Cactus::new(-15_200_000)); // ends exactly on it: kept
    w.cacti.push(Cactus::new(500_000_000)); // stays on screen: kept
    w.tick(no_input(), 16);
    // survivors keep their order; the due spawner appends one more
    assert_eq!(w.cacti.len(), 3);
    assert_eq!(w.cacti[0].x, -20_000_000);
    assert_eq!(w.cacti[1].x, 495_200_000);
    assert_eq!(w.cacti[2].x, 800_000_000);
}

#[test]
fn collision_ends_the_run() {
    let mut w = GameWorld::new(800_000_000, 0);
    w.cacti.push(Cactus::new(60_000_000));
    let out = w.tick(no_input(), 16);
    assert_eq!(w.state, GameState::GameOver);
    assert!(out.play_game_over_sound);
    assert!(!out.play_jump_sound);
    assert_eq!(w.score, 16);
}

#[test]
fn no_collision_keeps_playing() {
    let mut w = GameWorld::new(800_000_000, 5_000);
    let out = w.tick(no_input(), 16);
    assert_eq!(w.state, GameState::Playing);
    assert!(!out.play_game_over_sound);
}

#[test]
fn game_over_freezes_until_restart() {
    let mut w = GameWorld::new(800_000_000, 0);
    w.cacti.push(Cactus::new(60_000_000));
    w.tick(no_input(), 16);
    assert_eq!(w.state, GameState::GameOver);
    // without restart nothing moves and no time accrues
    let score_before = w.score;
    let cacti_before = w.cacti.len();
    let out = w.tick(FrameInput { jump_pressed: true, jump_released: true, restart_pressed: false }, 500);
    assert_eq!(w.state, GameState::GameOver);
    assert_eq!(w.score, score_before);
    assert_eq!(w.cacti.len(), cacti_before);
    assert!(!out.restarted && !out.play_jump_sound && !out.play_game_over_sound);
}

#[test]
fn restart_resets_the_whole_world() {
    let mut w = GameWorld::new(800_000_000, 5_000);
    w.cacti.push(Cactus::new(60_000_000));
    w.tick(FrameInput { jump_pressed: true, jump_released: false, restart_pressed: false }, 16);
    w.state = GameState::GameOver;
    let out = w.tick(
        FrameInput { jump_pressed: false, jump_released: false, restart_pressed: true },
        16,
    );
    assert!(out.restarted);
    assert_eq!(w.state, GameState::Playing);
    assert_eq!(w.score, 0);
    assert_eq!(w.cacti.len(), 0);
    assert_eq!(w.spawner.remaining, 0);
    assert_eq!(w.dino, Dino::new());
}

#[test]
fn jump_sound_only_fires_from_the_ground() {
    let mut w = GameWorld::new(800_000_000, 5_000);
    let jump = FrameInput { jump_pressed: true, jump_released: false, restart_pressed: false };
    let out = w.tick(jump, 16);
    assert!(out.play_jump_sound);
    // still airborne on the next frame: a second press is a no-op
    let out2 = w.tick(jump, 16);
    assert!(!out2.play_jump_sound);
    assert!(!w.dino.on_ground);
}
