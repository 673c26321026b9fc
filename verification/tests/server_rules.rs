use powerbaby::entity::EntityId;
use powerbaby::protocol::messages::{EntityAssignment, KeyCommand};
use powerbaby::server::{ball_reset, ball_score, process_ball_command, Ball, BallCommandOutcome, Global};

fn ball(shot: bool, scored: bool, force_reset: bool) -> Ball {
    Ball { shot, scored, force_reset }
}

#[test]
fn register_ball_hands_over_the_ball() {
    let mut g = Global::new(EntityId::from_bits(1), 9);
    assert_eq!(g.user_ball_map.get(&42), None);
    let m = g.register_ball(42, EntityId::from_bits(7));
    assert_eq!(m, EntityAssignment { entity: Some(EntityId::from_bits(7)), assign: true });
    assert_eq!(g.user_ball_map.get(&42), Some(&EntityId::from_bits(7)));
    assert_eq!(g.user_ball_map.len(), 1);
    g.register_ball(42, EntityId::from_bits(8));
    assert_eq!(g.user_ball_map.get(&42), Some(&EntityId::from_bits(8)));
    assert_eq!(g.user_ball_map.len(), 1);
    assert_eq!(g.goalie_entity, EntityId::from_bits(1));
    assert_eq!(g.main_room_key, 9);
}

#[test]
fn kick_from_rest() {
    let mut b = Ball::default();
    let cmd: KeyCommand<u8> = KeyCommand::new(false, Some(1));
    assert_eq!(process_ball_command(&cmd, &mut b, true), BallCommandOutcome::Kick);
    assert_eq!(b, ball(true, false, false));
}

#[test]
fn no_kick_while_rolling() {
    let mut b = Ball::default();
    let cmd: KeyCommand<u8> = KeyCommand::new(false, Some(1));
    assert_eq!(process_ball_command(&cmd, &mut b, false), BallCommandOutcome::Ignored);
    assert_eq!(b, Ball::default());
}

#[test]
fn no_second_kick() {
    let mut b = ball(true, false, false);
    let cmd: KeyCommand<u8> = KeyCommand::new(false, Some(1));
    assert_eq!(process_ball_command(&cmd, &mut b, true), BallCommandOutcome::Ignored);
    assert_eq!(b, ball(true, false, false));
}

#[test]
fn reset_request_in_flight() {
    let mut b = ball(true, false, false);
    let cmd: KeyCommand<u8> = KeyCommand::new(true, Some(1));
    assert_eq!(process_ball_command(&cmd, &mut b, true), BallCommandOutcome::ForceReset);
    assert_eq!(b, ball(true, false, true));
}

#[test]
fn reset_request_ignored_after_goal_or_before_shot() {
    let mut b = ball(true, true, false);
    let cmd: KeyCommand<u8> = KeyCommand::new(true, None);
    assert_eq!(process_ball_command(&cmd, &mut b, true), BallCommandOutcome::Ignored);
    assert_eq!(b, ball(true, true, false));
    let mut c = Ball::default();
    let shoot: KeyCommand<u8> = KeyCommand::new(true, Some(3));
    assert_eq!(process_ball_command(&shoot, &mut c, true), BallCommandOutcome::Kick);
}

#[test]
fn empty_command_does_nothing() {
    let mut b = Ball::default();
    let cmd: KeyCommand<u8> = KeyCommand::new(false, None);
    assert_eq!(process_ball_command(&cmd, &mut b, true), BallCommandOutcome::Ignored);
    assert_eq!(b, Ball::default());
}

#[test]
fn scoring_marks_the_ball() {
    let mut b = ball(true, false, false);
    ball_score(&mut b);
    assert_eq!(b, ball(true, true, false));
}

#[test]
fn reset_conditions() {
    let mut b = ball(true, false, false);
    assert!(!ball_reset(&mut b, false, true));
    assert_eq!(b, ball(true, false, false));
    assert!(ball_reset(&mut b, true, false));
    assert_eq!(b, Ball::default());

    let mut f = ball(true, false, true);
    assert!(ball_reset(&mut f, false, false));
    assert_eq!(f, Ball::default());

    let mut s = ball(true, true, false);
    assert!(!ball_reset(&mut s, false, false));
    assert!(ball_reset(&mut s, false, true));
    assert_eq!(s, Ball::default());
}

#[test]
fn full_round() {
    let mut b = Ball::default();
    let kick: KeyCommand<u8> = KeyCommand::new(false, Some(1));
    assert_eq!(process_ball_command(&kick, &mut b, true), BallCommandOutcome::Kick);
    let back: KeyCommand<u8> = KeyCommand::new(true, None);
    assert_eq!(process_ball_command(&back, &mut b, false), BallCommandOutcome::ForceReset);
    assert!(ball_reset(&mut b, false, false));
    assert_eq!(process_ball_command(&kick, &mut b, true), BallCommandOutcome::Kick);
}
