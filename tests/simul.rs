use fgsim::input::FgInput;
use fgsim::player::PlayerState;
use fgsim::simul::{GameState, Match, Ratio, Result};
use fgsim::timer::Timer;

fn still() -> FgInput {
    FgInput::new(0, 0, false, false)
}

fn toward() -> FgInput {
    FgInput::new(1, 0, false, false)
}

/// A match already in combat, with player 1 at `x1` and player 2 at `x2`.
fn active_match(x1: i16, x2: i16) -> Match {
    let mut m = Match::new(false, false);
    m.state = GameState::Active;
    m.player1.position = x1;
    m.player2.position = x2;
    m
}

#[test]
fn new_match_waits_for_round_start() {
    let mut m = Match::new(false, true);
    assert_eq!((m.p1_pos(), m.p2_pos()), (400, 1130));
    assert_eq!(m.timer_sec(), 60);
    assert_eq!(m.state(), 0);
    assert_eq!(m.state_len(), 90);
    assert_eq!(Match::stage_len(), 1530);
    for _ in 0..89 {
        assert_eq!(m.frame_update(still(), still()), Result::Pause);
    }
    assert_eq!(m.state, GameState::RoundStart(1));
    assert_eq!(m.frame_update(still(), still()), Result::Continue);
    assert_eq!(m.state, GameState::Active);
    assert_eq!(m.timer, Timer::Limited(3599));
}

#[test]
fn timeout_with_even_players_draws() {
    let mut m = Match::new(false, false);
    m.state = GameState::Active;
    m.timer = Timer::Limited(2);
    assert_eq!(m.frame_update(still(), still()), Result::Continue);
    assert_eq!(m.frame_update(still(), still()), Result::Draw);
    assert_eq!((m.p1_wins(), m.p2_wins()), (1, 1));
    assert!(m.continues());
}

#[test]
fn timeout_decided_by_guard_then_progress() {
    let mut m = Match::new(false, false);
    m.state = GameState::Active;
    m.timer = Timer::Limited(1);
    m.player2.guard_points = 2;
    assert_eq!(m.frame_update(still(), still()), Result::Player1);
    assert_eq!((m.p1_wins(), m.p2_wins()), (1, 0));

    let mut n = Match::new(false, false);
    n.state = GameState::Active;
    n.timer = Timer::Limited(1);
    n.player2.position = 1000;
    assert_eq!(n.player_relative_pos(false), 530);
    assert_eq!(n.frame_update(still(), still()), Result::Player2);
}

#[test]
fn blocked_low_hit_freezes_round() {
    let mut m = active_match(600, 900);
    m.player1.state = PlayerState::NNormal(4, false);
    assert_eq!(m.frame_update(still(), toward()), Result::Continue);
    assert_eq!(m.player2.state, PlayerState::LBlock(0, false));
    assert_eq!(m.player_guard(false), 2);
    assert_eq!(m.player1.state, PlayerState::NNormal(5, true));
    assert_eq!(m.state, GameState::Hitstop(15));
    assert!(m.player_block(false));
    assert!(!m.player_counter(false));
    assert_eq!(m.audio(), vec!["block"]);
}

#[test]
fn blocked_high_hit() {
    let mut m = active_match(600, 800);
    m.player1.state = PlayerState::MNormal(3, false);
    assert_eq!(m.frame_update(still(), toward()), Result::Continue);
    assert_eq!(m.player2.state, PlayerState::HBlock(0, false));
    assert_eq!(m.player2.guard_points, 2);
    assert_eq!(m.state, GameState::Hitstop(15));
}

#[test]
fn empty_guard_breaks_on_any_height() {
    let mut m = active_match(600, 900);
    m.player1.state = PlayerState::NNormal(4, false);
    m.player2.guard_points = 0;
    m.frame_update(still(), toward());
    assert_eq!(m.player2.state, PlayerState::GuardBreak(0));
    assert!(m.player_guard_break(false));

    let mut n = active_match(600, 800);
    n.player1.state = PlayerState::MNormal(3, false);
    n.player2.guard_points = 0;
    n.frame_update(still(), toward());
    assert_eq!(n.player2.state, PlayerState::GuardBreak(0));
}

#[test]
fn unblocked_hit_stuns() {
    let mut m = active_match(600, 900);
    m.player1.state = PlayerState::NNormal(4, false);
    m.frame_update(still(), still());
    assert_eq!(m.player2.state, PlayerState::Hit(0));
    assert!(m.player_hit(false));
    assert_eq!(m.player_guard(false), 2);
    assert_eq!(m.state, GameState::Hitstop(15));
}

#[test]
fn ender_kills_and_death_is_reported_once() {
    let mut m = active_match(600, 900);
    m.player1.state = PlayerState::NSpecial(10, false);
    m.player2.state = PlayerState::Hit(0);
    assert_eq!(m.frame_update(still(), still()), Result::Continue);
    assert_eq!(m.player2.state, PlayerState::Dead(false));
    assert_eq!(m.state, GameState::RoundEnd(60));
    assert!(m.player_dead(false));
    assert_eq!(m.audio(), vec!["ender_hit"]);

    for _ in 0..59 {
        assert_eq!(m.frame_update(still(), still()), Result::Pause);
        assert!(!m.player_dead(false));
        assert!(m.player2.is_dead());
    }
    assert_eq!(m.frame_update(still(), still()), Result::Player1);
    assert_eq!(m.state, GameState::RoundFinish);
    assert!(!m.player_dead(false));
    assert_eq!((m.p1_wins(), m.p2_wins()), (1, 0));
}

#[test]
fn target_that_connected_is_not_struck() {
    let mut m = active_match(600, 900);
    m.player1.state = PlayerState::NNormal(4, false);
    m.player2.state = PlayerState::MNormal(20, true);
    m.frame_update(still(), still());
    assert_eq!(m.player2.state, PlayerState::MNormal(21, true));
    assert_eq!(m.state, GameState::Active);
}

#[test]
fn bodies_push_apart() {
    let mut m = active_match(700, 800);
    m.frame_update(still(), still());
    // Overlap of 150 split evenly.
    assert_eq!((m.p1_pos(), m.p2_pos()), (625, 875));
    assert_eq!(m.player_distance(), 250);
}

#[test]
fn walking_moves_both_ways() {
    let mut m = active_match(400, 1130);
    m.frame_update(toward(), toward());
    assert_eq!((m.p1_pos(), m.p2_pos()), (406, 1124));
    let back = FgInput::new(-1, 0, false, false);
    m.frame_update(back, back);
    assert_eq!((m.p1_pos(), m.p2_pos()), (401, 1129));
}

#[test]
fn new_round_keeps_wins() {
    let mut m = active_match(100, 200);
    m.player1.wins = 2;
    m.player2.wins = 1;
    m.player2.state = PlayerState::Dead(true);
    m.new_round();
    assert_eq!((m.p1_wins(), m.p2_wins()), (2, 1));
    assert_eq!((m.p1_pos(), m.p2_pos()), (400, 1130));
    assert_eq!(m.player2.state, PlayerState::Idle(0));
    assert_eq!(m.state, GameState::RoundStart(90));
    assert_eq!(m.rounds(), 0);
}

#[test]
fn match_ends_at_three_wins() {
    let mut m = Match::new(false, false);
    m.player1.wins = 3;
    assert!(!m.continues());
}

#[test]
fn observation_layout() {
    let m = Match::new(false, false);
    let obs = m.player_obs(true);
    assert_eq!(obs.len(), 13 + 13 * 2 + 5);
    assert_eq!(obs[0], Ratio { num: 400, den: 1530 });
    assert_eq!(obs[1], Ratio { num: 400, den: 1530 });
    assert_eq!(obs[2], Ratio { num: 730, den: 1530 });
    assert_eq!(obs[3], Ratio { num: 3, den: 3 });
    assert_eq!(obs[9], Ratio { num: 1, den: 1 });
    assert_eq!(obs[12], Ratio { num: 90, den: 60 });
    // Idle for both players, round start for the phase.
    assert_eq!(obs[13], Ratio { num: 1, den: 1 });
    assert_eq!(obs[14], Ratio { num: 0, den: 1 });
    assert_eq!(obs[26], Ratio { num: 1, den: 1 });
    assert_eq!(obs[39], Ratio { num: 1, den: 1 });
    assert_eq!(obs[40], Ratio { num: 0, den: 1 });
    let ones = obs[13..].iter().filter(|r| r.num == 1).count();
    assert_eq!(ones, 3);
}

#[test]
fn punish_needs_recovery_and_reach() {
    // For player 1 the reference attack box is the mirrored one.
    let mut m = active_match(600, 300);
    m.player2.state = PlayerState::GuardBreak(0);
    assert_eq!(m.punish_obs(true), vec![true, true, true, true]);
    assert_eq!(m.punish_obs(false), vec![false, false, false, false]);
    m.player2.state = PlayerState::GuardBreak(12);
    assert_eq!(m.punish_obs(true), vec![true, true, false, true]);
    m.player2.state = PlayerState::GuardBreak(20);
    assert_eq!(m.punish_obs(true), vec![false, false, false, false]);
    m.player2.state = PlayerState::GuardBreak(0);
    m.player2.position = 1500;
    assert_eq!(m.punish_obs(true), vec![false, false, false, false]);
}

#[test]
fn sprites_and_sounds() {
    let mut m = active_match(400, 1130);
    assert_eq!(m.p1_sprite(), "idle_0");
    m.player2.state = PlayerState::NNormal(0, false);
    assert_eq!(m.p2_sprite(), "nnormal_0");
    assert_eq!(m.audio(), vec!["nnormal"]);
    m.state = GameState::Hitstop(14);
    assert!(m.audio().is_empty());
    assert_eq!(m.player_state(false), 8);
    assert_eq!(m.player_state_len(false), 0);
}
