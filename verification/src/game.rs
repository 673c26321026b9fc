//! The single-player game: its states, and the flags that decide when the
//! ball is shot, when it scored, and when it goes back to its spot.

use vstd::prelude::*;

use crate::client::{shot_source, ShotSource};
use crate::entity::EntityId;

verus! {

/// How the program is started.
#[derive(Clone, Copy, Debug, PartialEq, Eq, Structural)]
pub enum Subcommand {
    /// The single-player game.
    Single,
    /// Client only.
    Client,
    /// Server only.
    Server,
    /// Server and client in one process.
    Standalone,
}

/// The phases of the single-player game.
#[derive(Clone, Copy, Debug, PartialEq, Eq, Structural, Hash)]
pub enum AppState {
    Splash,
    Staging,
    InGame,
    Ending,
}

impl Default for AppState {
    fn default() -> (s: AppState)
        ensures
            s == AppState::Splash,
    {
        AppState::Splash
    }
}

/// The phases of the online client.
#[derive(Clone, Copy, Debug, PartialEq, Eq, Structural, Hash)]
pub enum ClientAppState {
    NameInput,
    Selection,
    InGame,
}

impl Default for ClientAppState {
    fn default() -> (s: ClientAppState)
        ensures
            s == ClientAppState::NameInput,
    {
        ClientAppState::NameInput
    }
}

/// A request from the controls to the game logic. `R` describes where the
/// ball was hit (the ray's point and normal).
pub enum ControllerEvent<R> {
    Reset,
    Shoot(R),
}

/// The single-player game's state that the rules read and change.
#[derive(Clone, Copy, Debug, PartialEq, Eq, Structural)]
pub struct Game {
    pub ball_entity: Option<EntityId>,
    pub goalie_entity: Option<EntityId>,
    pub ground_entity: Option<EntityId>,
    pub power_charge: bool,
    pub goal: bool,
    pub shot: bool,
    pub camera_is_birdseye: bool,
}

impl Default for Game {
    fn default() -> (g: Game)
        ensures
            g == fresh_game(),
    {
        Game {
            ball_entity: None,
            goalie_entity: None,
            ground_entity: None,
            power_charge: false,
            goal: false,
            shot: false,
            camera_is_birdseye: false,
        }
    }
}

/// A game before anything was spawned or played.
pub open spec fn fresh_game() -> Game {
    Game {
        ball_entity: None,
        goalie_entity: None,
        ground_entity: None,
        power_charge: false,
        goal: false,
        shot: false,
        camera_is_birdseye: false,
    }
}

/// Whether any of the events asks for a reset.
pub open spec fn has_reset<R>(events: Seq<ControllerEvent<R>>) -> bool {
    exists|i: int| 0 <= i < events.len() && events[i] is Reset
}

/// Whether any of the events is a shot.
pub open spec fn has_shoot<R>(events: Seq<ControllerEvent<R>>) -> bool {
    exists|i: int| 0 <= i < events.len() && events[i] is Shoot
}

/// What one frame of game logic decided.
#[derive(Clone, Copy, Debug, PartialEq, Eq, Structural)]
pub struct FrameOutcome {
    /// The ball goes back to its spot: the caller clears its motion and timer.
    pub reset: bool,
    /// The shot timer ran this frame: the caller adds the frame time to it.
    pub timer_advanced: bool,
}

/// The flags after the collisions and controller events of a frame, before a
/// reset.
pub open spec fn flags_after_events<R>(game: Game, had_collision: bool, events: Seq<ControllerEvent<R>>) -> Game {
    Game { goal: game.goal || had_collision, shot: game.shot || has_shoot(events), ..game }
}

/// The decision of a frame: the shot timer runs while the ball is shot and
/// has not scored; the ball is reset on request or when the timer reaches the
/// wait time (`timer_expires` says whether one more frame gets it there).
pub open spec fn frame_outcome<R>(
    game: Game,
    had_collision: bool,
    events: Seq<ControllerEvent<R>>,
    timer_expires: bool,
) -> FrameOutcome {
    let g = flags_after_events(game, had_collision, events);
    let runs = g.shot && !g.goal;
    FrameOutcome { reset: has_reset(events) || (runs && timer_expires), timer_advanced: runs }
}

/// The game after a frame.
pub open spec fn game_after_frame<R>(
    game: Game,
    had_collision: bool,
    events: Seq<ControllerEvent<R>>,
    timer_expires: bool,
) -> Game {
    let g = flags_after_events(game, had_collision, events);
    if frame_outcome(game, had_collision, events, timer_expires).reset {
        Game { shot: false, goal: false, ..g }
    } else {
        g
    }
}

impl Game {
    /// One frame of the single-player game logic: a collision with the goal's
    /// scoring zone marks a goal, a shot marks the ball as shot (the caller
    /// applies each shot's impulse), and the ball is reset on request or when
    /// its shot timer expires.
    pub fn game_logic<R>(
        &mut self,
        had_collision: bool,
        events: &Vec<ControllerEvent<R>>,
        timer_expires: bool,
    ) -> (o: FrameOutcome)
        ensures
            o == frame_outcome(*old(self), had_collision, events@, timer_expires),
            *final(self) == game_after_frame(*old(self), had_collision, events@, timer_expires),
            (exists|i: int| 0 <= i < events@.len() && events@[i] is Reset) ==> o.reset
                && !final(self).shot && !final(self).goal,
            o.reset ==> (exists|i: int| 0 <= i < events@.len() && events@[i] is Reset)
                || timer_expires,
            (had_collision || old(self).goal) ==> !o.timer_advanced,
    {
        if had_collision {
            self.goal = true;
        }
        let mut should_reset = false;
        let mut i: usize = 0;
        while i < events.len()
            invariant
                0 <= i <= events@.len(),
                self.goal == (old(self).goal || had_collision),
                self.shot == (old(self).shot || exists|j: int| 0 <= j < i && events@[j] is Shoot),
                should_reset == exists|j: int| 0 <= j < i && events@[j] is Reset,
                self.ball_entity == old(self).ball_entity,
                self.goalie_entity == old(self).goalie_entity,
                self.ground_entity == old(self).ground_entity,
                self.power_charge == old(self).power_charge,
                self.camera_is_birdseye == old(self).camera_is_birdseye,
            decreases events@.len() - i,
        {
            match &events[i] {
                ControllerEvent::Reset => {
                    should_reset = true;
                },
                ControllerEvent::Shoot(_) => {
                    self.shot = true;
                },
            }
            i = i + 1;
        }
        let runs = self.shot && !self.goal;
        if runs && timer_expires {
            should_reset = true;
        }
        if should_reset {
            self.shot = false;
            self.goal = false;
        }
        FrameOutcome { reset: should_reset, timer_advanced: runs }
    }

    /// Switches between the kick camera and the bird's-eye camera, and
    /// returns whether the bird's-eye camera is now on.
    pub fn toggle_camera(&mut self) -> (birdseye: bool)
        ensures
            *final(self) == (Game { camera_is_birdseye: !old(self).camera_is_birdseye, ..*old(self) }),
            birdseye == final(self).camera_is_birdseye,
    {
        self.camera_is_birdseye = !self.camera_is_birdseye;
        self.camera_is_birdseye
    }
}

/// What the controls of a frame ask for.
#[derive(Clone, Copy, Debug, PartialEq, Eq, Structural)]
pub struct ControlsOutcome {
    pub reset: bool,
    pub shot: ShotSource,
}

/// The controls of the touch-enabled single-player game: once the ball is
/// shot they ask for nothing; before that, Q asks for a reset and the keys,
/// buttons and touches choose a shot as the online client does.
pub fn controls_decision(
    game_shot: bool,
    can_shoot: bool,
    q_just_pressed: bool,
    space: bool,
    mouse: bool,
    touch: bool,
) -> (o: ControlsOutcome)
    ensures
        game_shot ==> o == (ControlsOutcome { reset: false, shot: ShotSource::NoShot }),
        !game_shot ==> o == (ControlsOutcome {
            reset: q_just_pressed,
            shot: shot_source(can_shoot, space, mouse, touch),
        }),
{
    if game_shot {
        return ControlsOutcome { reset: false, shot: ShotSource::NoShot };
    }
    let shot = crate::client::choose_shot_source(can_shoot, space, mouse, touch);
    ControlsOutcome { reset: q_just_pressed, shot }
}

/// The mouse-and-keyboard single-player game shoots when the ray under the
/// cursor hits the ball and the space bar or the left button is released,
/// unless the ball is already shot.
pub fn shoot_on_release(game_shot: bool, hit_ball: bool, space_released: bool, mouse_released: bool) -> (s: bool)
    ensures
        s == (!game_shot && hit_ball && (space_released || mouse_released)),
{
    !game_shot && hit_ball && (space_released || mouse_released)
}

/// After a reset frame the ball is neither shot nor in the goal.
pub proof fn lemma_reset_clears_flags<R>(
    game: Game,
    had_collision: bool,
    events: Seq<ControllerEvent<R>>,
    timer_expires: bool,
)
    requires
        frame_outcome(game, had_collision, events, timer_expires).reset,
    ensures
        !game_after_frame(game, had_collision, events, timer_expires).shot,
        !game_after_frame(game, had_collision, events, timer_expires).goal,
{
}

/// A goal stops the shot timer: in a frame with a collision (or after a goal)
/// the timer does not run, and only an explicit request resets the ball.
pub proof fn lemma_goal_stops_timer<R>(
    game: Game,
    had_collision: bool,
    events: Seq<ControllerEvent<R>>,
    timer_expires: bool,
)
    requires
        had_collision || game.goal,
    ensures
        !frame_outcome(game, had_collision, events, timer_expires).timer_advanced,
        frame_outcome(game, had_collision, events, timer_expires).reset == has_reset(events),
{
}

/// A shot taken in a frame without reset or collision starts the timer.
pub proof fn lemma_shot_starts_timer<R>(
    game: Game,
    events: Seq<ControllerEvent<R>>,
    timer_expires: bool,
)
    requires
        !game.goal,
        has_shoot(events),
        !has_reset(events),
        !timer_expires,
    ensures
        frame_outcome(game, false, events, timer_expires).timer_advanced,
        !frame_outcome(game, false, events, timer_expires).reset,
        game_after_frame(game, false, events, timer_expires).shot,
{
}

/// A reset request is always honoured: in any state of the game, a frame
/// whose events hold a `Reset` puts the ball back and clears the flags.
pub proof fn lemma_reset_request_resets<R>(
    game: Game,
    had_collision: bool,
    events: Seq<ControllerEvent<R>>,
    timer_expires: bool,
    i: int,
)
    requires
        0 <= i < events.len(),
        events[i] is Reset,
    ensures
        frame_outcome(game, had_collision, events, timer_expires).reset,
        !game_after_frame(game, had_collision, events, timer_expires).shot,
        !game_after_frame(game, had_collision, events, timer_expires).goal,
{
}

/// Without a reset request and without an expiring timer, a frame never
/// resets the ball.
pub proof fn lemma_no_spurious_reset<R>(
    game: Game,
    had_collision: bool,
    events: Seq<ControllerEvent<R>>,
)
    requires
        forall|i: int| 0 <= i < events.len() ==> !(events[i] is Reset),
    ensures
        !frame_outcome(game, had_collision, events, false).reset,
{
}

} // verus!
