use powerbaby::client::ShotSource;
use powerbaby::game::{
    controls_decision, shoot_on_release, AppState, ClientAppState, ControllerEvent,
    ControlsOutcome, FrameOutcome, Game,
};

#[test]
fn defaults() {
    assert_eq!(AppState::default(), AppState::Splash);
    assert_eq!(ClientAppState::default(), ClientAppState::NameInput);
    let g = Game::default();
    assert!(!g.shot && !g.goal && !g.power_charge && !g.camera_is_birdseye);
    assert!(g.ball_entity.is_none() && g.goalie_entity.is_none() && g.ground_entity.is_none());
}

#[test]
fn shot_starts_timer_then_expiry_resets() {
    let mut g = Game::default();
    let o = g.game_logic(false, &vec![ControllerEvent::Shoot(1u8)], false);
    assert_eq!(o, FrameOutcome { reset: false, timer_advanced: true });
    assert!(g.shot);
    let o = g.game_logic(false, &Vec::<ControllerEvent<u8>>::new(), false);
    assert_eq!(o, FrameOutcome { reset: false, timer_advanced: true });
    let o = g.game_logic(false, &Vec::<ControllerEvent<u8>>::new(), true);
    assert_eq!(o, FrameOutcome { reset: true, timer_advanced: true });
    assert!(!g.shot && !g.goal);
}

#[test]
fn goal_stops_timer() {
    let mut g = Game::default();
    g.game_logic(false, &vec![ControllerEvent::Shoot(1u8)], false);
    let o = g.game_logic(true, &Vec::<ControllerEvent<u8>>::new(), true);
    assert_eq!(o, FrameOutcome { reset: false, timer_advanced: false });
    assert!(g.goal && g.shot);
    let o = g.game_logic(false, &vec![ControllerEvent::<u8>::Reset], false);
    assert_eq!(o, FrameOutcome { reset: true, timer_advanced: false });
    assert!(!g.goal && !g.shot);
}

#[test]
fn reset_and_shot_in_one_frame() {
    let mut g = Game::default();
    let o = g.game_logic(false, &vec![ControllerEvent::Shoot(1u8), ControllerEvent::Reset], false);
    assert_eq!(o, FrameOutcome { reset: true, timer_advanced: true });
    assert!(!g.shot);
}

#[test]
fn idle_frame_changes_nothing() {
    let mut g = Game::default();
    let o = g.game_logic(false, &Vec::<ControllerEvent<u8>>::new(), true);
    assert_eq!(o, FrameOutcome { reset: false, timer_advanced: false });
    assert_eq!(g, Game::default());
}

#[test]
fn game_camera_toggle() {
    let mut g = Game::default();
    assert!(g.toggle_camera());
    assert!(g.camera_is_birdseye);
    assert!(!g.toggle_camera());
}

#[test]
fn controls() {
    assert_eq!(
        controls_decision(true, true, true, true, true, true),
        ControlsOutcome { reset: false, shot: ShotSource::NoShot }
    );
    assert_eq!(
        controls_decision(false, true, true, true, false, false),
        ControlsOutcome { reset: true, shot: ShotSource::Straight }
    );
    assert_eq!(
        controls_decision(false, false, false, true, true, true),
        ControlsOutcome { reset: false, shot: ShotSource::NoShot }
    );
    assert!(shoot_on_release(false, true, true, false));
    assert!(shoot_on_release(false, true, false, true));
    assert!(!shoot_on_release(true, true, true, true));
    assert!(!shoot_on_release(false, false, true, true));
    assert!(!shoot_on_release(false, true, false, false));
}
