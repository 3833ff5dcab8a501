use game_rules::{next_frame, paddle_direction, steering, volume_step, Steering, VolumeStep};

#[test]
fn frames_loop_back_to_the_first() {
    assert_eq!(next_frame(3, 1, 6), 4);
    assert_eq!(next_frame(6, 1, 6), 1);
    assert_eq!(next_frame(1, 1, 6), 2);
}

#[test]
fn paddle_follows_the_arrows() {
    assert_eq!(paddle_direction(true, false), -1);
    assert_eq!(paddle_direction(false, true), 1);
    assert_eq!(paddle_direction(true, true), 0);
    assert_eq!(paddle_direction(false, false), 0);
}

#[test]
fn ship_turns_and_thrusts() {
    assert_eq!(steering(true, false, true), Steering { rotation: 1, movement: 1 });
    assert_eq!(steering(false, true, false), Steering { rotation: -1, movement: 0 });
    assert_eq!(steering(true, true, false), Steering { rotation: 0, movement: 0 });
}

#[test]
fn equals_wins_over_minus() {
    assert_eq!(volume_step(true, true), VolumeStep::Up);
    assert_eq!(volume_step(false, true), VolumeStep::Down);
    assert_eq!(volume_step(false, false), VolumeStep::Keep);
}
