use fgsim::input::{ActionBuffer, FgInput};
use fgsim::player::{Player, PlayerState};

fn idle_input() -> FgInput {
    FgInput::new(0, 0, false, false)
}

#[test]
fn fresh_player() {
    let p = Player::new(400, false);
    assert_eq!(p.position, 400);
    assert_eq!(p.guard_points, 3);
    assert_eq!(p.wins, 0);
    assert_eq!(p.state, PlayerState::Idle(0));
    assert_eq!(p.state_int(), 0);
    assert_eq!(p.recovery(), 0);
    assert!(p.can_block() && p.can_attack());
}

#[test]
fn reset_keeps_wins_and_controller() {
    let mut p = Player::new(400, true);
    p.wins = 2;
    p.guard_points = 0;
    p.state = PlayerState::Hit(3);
    p.reset(1130);
    assert_eq!(p.wins, 2);
    assert!(p.bot);
    assert_eq!(p.position, 1130);
    assert_eq!(p.guard_points, 3);
    assert_eq!(p.state, PlayerState::Idle(0));
}

#[test]
fn double_tap_dashes() {
    let mut p = Player::new(400, false);
    p.set_input(FgInput::new(1, 1, false, false));
    assert_eq!(p.fdash_timer, 10);
    assert_eq!(p.dash_buff, None);
    p.set_input(FgInput::new(1, 0, false, false));
    assert_eq!(p.fdash_timer, 9);
    p.set_input(FgInput::new(1, 1, false, false));
    assert_eq!(p.dash_buff, Some(ActionBuffer { movement: 1, buff_time: 4 }));
    assert_eq!((p.fdash_timer, p.bdash_timer), (0, 0));
    p.update_state();
    assert_eq!(p.state, PlayerState::FDash(0));
}

#[test]
fn bot_dash_window_is_shorter() {
    let mut p = Player::new(400, true);
    p.set_input(FgInput::new(-1, -1, false, false));
    assert_eq!(p.bdash_timer, 3);
    assert_eq!(p.fdash_timer, 0);
}

#[test]
fn charged_release_fires_special() {
    let mut p = Player::new(400, false);
    for _ in 0..60 {
        p.set_input(FgInput::new(0, 0, false, true));
        assert_eq!(p.special_buff, None);
    }
    assert_eq!(p.hold_time(), 60);
    p.set_input(FgInput::new(1, 0, false, false));
    assert_eq!(p.special_buff, Some(ActionBuffer { movement: 1, buff_time: 4 }));
    assert_eq!(p.hold_time(), 0);
    p.update_state();
    assert_eq!(p.state, PlayerState::MSpecial(0, false));
    assert_eq!(p.special_buff, None);
}

#[test]
fn early_release_fires_nothing() {
    let mut p = Player::new(400, false);
    for _ in 0..59 {
        p.set_input(FgInput::new(0, 0, false, true));
    }
    p.set_input(idle_input());
    assert_eq!(p.special_buff, None);
}

#[test]
fn special_before_normal_before_dash() {
    let mut p = Player::new(400, false);
    p.special_buff = ActionBuffer::new(0, true);
    p.normal_buff = ActionBuffer::new(1, true);
    p.dash_buff = ActionBuffer::new(-1, true);
    p.update_state();
    assert_eq!(p.state, PlayerState::NSpecial(0, false));
    assert_eq!((p.normal_buff, p.special_buff), (None, None));
    assert!(p.dash_buff.is_some());

    let mut q = Player::new(400, false);
    q.normal_buff = ActionBuffer::new(1, true);
    q.dash_buff = ActionBuffer::new(-1, true);
    q.update_state();
    assert_eq!(q.state, PlayerState::MNormal(0, false));

    let mut r = Player::new(400, false);
    r.dash_buff = ActionBuffer::new(-1, true);
    r.update_state();
    assert_eq!(r.state, PlayerState::BDash(0));
}

#[test]
fn stance_follows_movement() {
    let mut p = Player::new(400, false);
    p.set_input(FgInput::new(1, 0, false, false));
    p.update_state();
    assert_eq!(p.state, PlayerState::FWalk(0));
    p.update_state();
    assert_eq!(p.state, PlayerState::FWalk(1));
    p.set_input(FgInput::new(-1, 0, false, false));
    p.update_state();
    assert_eq!(p.state, PlayerState::BWalk(0));
    p.set_input(idle_input());
    p.update_state();
    assert_eq!(p.state, PlayerState::Idle(0));
    p.update_state();
    assert_eq!(p.state, PlayerState::Idle(1));
}

#[test]
fn exhausted_script_falls_back() {
    let mut p = Player::new(400, false);
    p.state = PlayerState::NNormal(23, false);
    let m = p.update_move();
    assert_eq!(p.state, PlayerState::Idle(0));
    assert_eq!(m.animation_frame, "idle_0");

    p.state = PlayerState::FWalk(24);
    let m = p.update_move();
    assert_eq!(p.state, PlayerState::FWalk(0));
    assert_eq!(m.animation_frame, "fwalk_0");

    p.state = PlayerState::NNormal(22, false);
    let m = p.update_move();
    assert_eq!(p.state, PlayerState::NNormal(22, false));
    assert_eq!(m.animation_frame, "nnormal_4");
}

#[test]
fn counter_at_top_saturates() {
    let mut p = Player::new(400, false);
    p.state = PlayerState::Idle(255);
    p.update_state();
    assert_eq!(p.state, PlayerState::Idle(255));
    p.update_move();
    assert_eq!(p.state, PlayerState::Idle(0));
}

#[test]
fn dead_freezes_reported() {
    let mut p = Player::new(400, false);
    p.state = PlayerState::Dead(false);
    assert!(p.newly_dead());
    assert_eq!(p.get_audio(), Some("ender_hit"));
    p.update_state();
    assert_eq!(p.state, PlayerState::Dead(true));
    assert!(!p.newly_dead() && p.is_dead());
    assert_eq!(p.get_move().animation_frame, "dead_0");
}

#[test]
fn combo_cancel_into_special() {
    let mut p = Player::new(400, false);
    // Frame 5 after the stance update: the active, cancelable frame.
    p.state = PlayerState::NNormal(4, true);
    p.normal_buff = ActionBuffer::new(0, true);
    p.update_state();
    assert_eq!(p.state, PlayerState::NSpecial(0, false));
    assert_eq!(p.normal_buff, None);

    // Without the connection there is no cancel.
    let mut q = Player::new(400, false);
    q.state = PlayerState::NNormal(4, false);
    q.normal_buff = ActionBuffer::new(0, true);
    q.update_state();
    assert_eq!(q.state, PlayerState::NNormal(5, false));
}

#[test]
fn block_high_and_low() {
    let mut p = Player::new(400, false);
    p.movement = 1;
    p.get_attacked(false, false);
    assert_eq!(p.state, PlayerState::HBlock(0, false));
    assert_eq!(p.guard_points, 2);
    assert!(p.is_blocking() && !p.is_blocking_ender());

    let mut q = Player::new(400, false);
    q.movement = 1;
    q.get_attacked(true, true);
    assert_eq!(q.state, PlayerState::LBlock(0, true));
    assert!(q.is_blocking_ender());
    assert_eq!(q.get_audio(), Some("block"));
}

#[test]
fn empty_guard_breaks() {
    for low in [false, true] {
        let mut p = Player::new(400, false);
        p.movement = 1;
        p.guard_points = 0;
        p.get_attacked(false, low);
        assert_eq!(p.state, PlayerState::GuardBreak(0));
        assert_eq!(p.guard_points, 0);
        assert!(p.newly_guard_break());
    }
}

#[test]
fn unblocked_hits() {
    // Standing still: stunned, no counter hit.
    let mut p = Player::new(400, false);
    p.get_attacked(false, false);
    assert_eq!(p.state, PlayerState::Hit(0));
    assert!(!p.counter_hit && p.is_hit());
    assert_eq!(p.guard_points, 2);

    // Caught mid-attack: a counter hit.
    let mut q = Player::new(400, false);
    q.state = PlayerState::MNormal(8, false);
    q.get_attacked(false, false);
    assert_eq!(q.state, PlayerState::Hit(0));
    assert!(q.counter_hit);

    // A match-ender kills.
    let mut r = Player::new(400, false);
    r.state = PlayerState::FDash(2);
    r.get_attacked(true, false);
    assert_eq!(r.state, PlayerState::Dead(false));
}

#[test]
fn recovery_and_punishable_recovery_differ() {
    let mut p = Player::new(400, false);
    p.state = PlayerState::BDash(0);
    assert_eq!(p.recovery(), 21);
    assert_eq!(p.recovery_punishable(), 0);
    p.state = PlayerState::FDash(0);
    assert_eq!(p.recovery(), 15);
    assert_eq!(p.recovery_punishable(), 15);
    p.state = PlayerState::GuardBreak(10);
    assert_eq!(p.recovery_punishable(), 25);
    p.state = PlayerState::Hit(0);
    assert_eq!(p.recovery(), 16);
    assert_eq!(p.recovery_punishable(), 0);
    p.state = PlayerState::NNormal(30, true);
    assert_eq!(p.recovery(), 0);
    p.state = PlayerState::Dead(true);
    assert_eq!(p.recovery(), 0);
}

#[test]
fn set_hit_marks_attacks_only() {
    let mut p = Player::new(400, false);
    p.state = PlayerState::MSpecial(3, false);
    assert!(!p.get_hit());
    p.set_hit();
    assert_eq!(p.state, PlayerState::MSpecial(3, true));
    assert!(p.get_hit());
    p.state = PlayerState::Hit(3);
    p.set_hit();
    assert_eq!(p.state, PlayerState::Hit(3));
}

#[test]
fn state_ordinals() {
    let states = [
        (PlayerState::Idle(3), 0),
        (PlayerState::FWalk(0), 1),
        (PlayerState::BWalk(0), 2),
        (PlayerState::FDash(0), 3),
        (PlayerState::BDash(0), 4),
        (PlayerState::HBlock(0, false), 5),
        (PlayerState::LBlock(0, true), 5),
        (PlayerState::GuardBreak(0), 6),
        (PlayerState::Hit(0), 7),
        (PlayerState::NNormal(0, false), 8),
        (PlayerState::MNormal(0, false), 9),
        (PlayerState::NSpecial(0, false), 10),
        (PlayerState::MSpecial(0, false), 11),
        (PlayerState::Dead(true), 12),
    ];
    for (s, n) in states {
        assert_eq!(i64::from(s), n);
    }
    assert_eq!(PlayerState::Idle(7).state_len(), 7);
    assert_eq!(PlayerState::Dead(false).state_len(), 0);
}

#[test]
fn move_position_clamps() {
    let mut p = Player::new(10, false);
    p.move_position(-26);
    assert_eq!(p.position, 0);
    p.position = 1520;
    p.move_position(18);
    assert_eq!(p.position, 1530);
    p.position = 700;
    p.move_position(-5);
    assert_eq!(p.position, 695);
}

#[test]
fn buffers_age_together() {
    let mut p = Player::new(400, false);
    p.set_input(FgInput::new(0, 0, true, false));
    assert_eq!(p.buff_time(), 4);
    p.update_buffer();
    assert_eq!(p.buff_time(), 3);
    p.reset_input();
    assert_eq!(p.buff_time(), 0);
}
