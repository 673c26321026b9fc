//! The authoritative server's rules: which user owns which ball, and what a
//! ball does with the commands its owner sends.

use vstd::prelude::*;
use std::collections::HashMap;

use crate::entity::EntityId;
use crate::protocol::messages::{EntityAssignment, KeyCommand};

verus! {

broadcast use vstd::std_specs::hash::group_hash_axioms;

/// What the server keeps between systems: the goalie, the one room every user
/// joins, and the ball spawned for each connected user (keyed by the user's
/// key as a 64-bit value).
pub struct Global {
    pub goalie_entity: EntityId,
    pub main_room_key: u64,
    pub user_ball_map: HashMap<u64, EntityId>,
}

impl Global {
    pub fn new(goalie_entity: EntityId, main_room_key: u64) -> (g: Global)
        ensures
            g.goalie_entity == goalie_entity,
            g.main_room_key == main_room_key,
            g.user_ball_map@ == Map::<u64, EntityId>::empty(),
    {
        Global { goalie_entity, main_room_key, user_ball_map: HashMap::new() }
    }

    /// Records the ball spawned for a user who just connected, and returns the
    /// message that hands the ball over to that user.
    pub fn register_ball(&mut self, user_key: u64, ball: EntityId) -> (m: EntityAssignment)
        ensures
            final(self).user_ball_map@ == old(self).user_ball_map@.insert(user_key, ball),
            final(self).goalie_entity == old(self).goalie_entity,
            final(self).main_room_key == old(self).main_room_key,
            m == (EntityAssignment { entity: Some(ball), assign: true }),
    {
        self.user_ball_map.insert(user_key, ball);
        EntityAssignment { entity: Some(ball), assign: true }
    }
}

/// The state of one ball: whether it has been kicked, whether it went in, and
/// whether its owner asked for it back.
#[derive(Clone, Copy, Debug, PartialEq, Eq, Structural)]
pub struct Ball {
    pub shot: bool,
    pub scored: bool,
    pub force_reset: bool,
}

impl Default for Ball {
    fn default() -> (b: Ball)
        ensures
            b == fresh_ball(),
    {
        Ball { shot: false, scored: false, force_reset: false }
    }
}

/// A ball on its spot, untouched.
pub open spec fn fresh_ball() -> Ball {
    Ball { shot: false, scored: false, force_reset: false }
}

/// What a command does to a ball.
#[derive(Clone, Copy, Debug, PartialEq, Eq, Structural)]
pub enum BallCommandOutcome {
    /// Nothing happens.
    Ignored,
    /// The ball is marked to be put back on its spot.
    ForceReset,
    /// The ball is kicked: the caller applies the shot's impulse.
    Kick,
}

/// The outcome of a command with the given reset flag and shot presence, on a
/// ball that is (`settled`) or is not resting on the ground.
pub open spec fn command_outcome(reset: bool, has_shot: bool, ball: Ball, settled: bool) -> BallCommandOutcome {
    if reset && ball.shot && !ball.scored {
        BallCommandOutcome::ForceReset
    } else if has_shot && !ball.shot && settled {
        BallCommandOutcome::Kick
    } else {
        BallCommandOutcome::Ignored
    }
}

/// The ball after a command with that outcome.
pub open spec fn ball_after_outcome(ball: Ball, outcome: BallCommandOutcome) -> Ball {
    match outcome {
        BallCommandOutcome::ForceReset => Ball { force_reset: true, ..ball },
        BallCommandOutcome::Kick => Ball { shot: true, ..ball },
        BallCommandOutcome::Ignored => ball,
    }
}

/// Applies one command of a ball's owner. A reset request counts only while
/// the ball is in flight and has not scored; a shot counts only while the ball
/// has not been kicked and lies settled on the ground.
pub fn process_ball_command<S>(cmd: &KeyCommand<S>, ball: &mut Ball, settled: bool) -> (o: BallCommandOutcome)
    ensures
        o == command_outcome(cmd.reset, cmd.shoot is Some, *old(ball), settled),
        *final(ball) == ball_after_outcome(*old(ball), o),
        (o == BallCommandOutcome::ForceReset) <==> (cmd.reset && old(ball).shot && !old(ball).scored),
        o == BallCommandOutcome::Kick ==> cmd.shoot is Some && !old(ball).shot && settled,
        !cmd.reset && cmd.shoot is None ==> o == BallCommandOutcome::Ignored && *final(ball)
            == *old(ball),
{
    if cmd.reset && ball.shot && !ball.scored {
        ball.force_reset = true;
        return BallCommandOutcome::ForceReset;
    }
    if cmd.shoot.is_none() {
        return BallCommandOutcome::Ignored;
    }
    if !ball.shot && settled {
        ball.shot = true;
        BallCommandOutcome::Kick
    } else {
        BallCommandOutcome::Ignored
    }
}

/// Records that the ball entered the goal's scoring zone.
pub fn ball_score(ball: &mut Ball)
    ensures
        *final(ball) == (Ball { scored: true, ..*old(ball) }),
{
    ball.scored = true;
}

/// Whether a ball goes back to its spot this frame: when its flight time is
/// up (`wait_over`), when its owner asked, or when it scored and the time
/// allowed after a goal is up (`scored_wait_over`).
pub open spec fn reset_due(ball: Ball, wait_over: bool, scored_wait_over: bool) -> bool {
    wait_over || ball.force_reset || (ball.scored && scored_wait_over)
}

/// The ball after a reset check: fresh when a reset is due, unchanged
/// otherwise.
pub open spec fn ball_after_reset(ball: Ball, wait_over: bool, scored_wait_over: bool) -> Ball {
    if reset_due(ball, wait_over, scored_wait_over) {
        fresh_ball()
    } else {
        ball
    }
}

/// Puts the ball back to its fresh state when a reset is due, and says whether
/// it did; the caller then clears the ball's motion and timer.
pub fn ball_reset(ball: &mut Ball, wait_over: bool, scored_wait_over: bool) -> (reset: bool)
    ensures
        reset == reset_due(*old(ball), wait_over, scored_wait_over),
        *final(ball) == ball_after_reset(*old(ball), wait_over, scored_wait_over),
{
    if wait_over || ball.force_reset || (ball.scored && scored_wait_over) {
        ball.shot = false;
        ball.scored = false;
        ball.force_reset = false;
        true
    } else {
        false
    }
}

/// A ball that has been kicked is not kicked again before it is reset,
/// whatever its owner sends.
pub proof fn lemma_no_second_kick(reset: bool, has_shot: bool, ball: Ball, settled: bool)
    requires
        ball.shot,
    ensures
        command_outcome(reset, has_shot, ball, settled) != BallCommandOutcome::Kick,
        ball_after_outcome(ball, command_outcome(reset, has_shot, ball, settled)).shot,
{
}

/// A kick leaves the ball marked as kicked and changes nothing else.
pub proof fn lemma_kick_marks_shot(reset: bool, ball: Ball, settled: bool)
    requires
        command_outcome(reset, true, ball, settled) == BallCommandOutcome::Kick,
    ensures
        !ball.shot,
        settled,
        ball_after_outcome(ball, BallCommandOutcome::Kick) == (Ball { shot: true, ..ball }),
{
}

/// Once its owner has asked for it back, a ball is reset the next time resets are looked at,
/// whatever the timers say.
pub proof fn lemma_forced_reset_is_honoured(
    reset: bool,
    has_shot: bool,
    ball: Ball,
    settled: bool,
    wait_over: bool,
    scored_wait_over: bool,
)
    requires
        command_outcome(reset, has_shot, ball, settled) == BallCommandOutcome::ForceReset,
    ensures
        reset_due(
            ball_after_outcome(ball, BallCommandOutcome::ForceReset),
            wait_over,
            scored_wait_over,
        ),
{
}

/// A ball that has scored cannot be called back by its owner: the reset
/// request is ignored and the goal stands.
pub proof fn lemma_goal_stands(has_shot: bool, ball: Ball, settled: bool)
    requires
        ball.scored,
    ensures
        command_outcome(true, has_shot, ball, settled) != BallCommandOutcome::ForceReset,
        ball_after_outcome(ball, command_outcome(true, has_shot, ball, settled)).scored,
{
}

/// A reset check that resets the ball leaves it fresh: it can be kicked
/// again from its spot (whatever the reset flag of the command), and no
/// further reset is pending until it is kicked or a timer runs out.
pub proof fn lemma_reset_rearms(
    ball: Ball,
    wait_over: bool,
    scored_wait_over: bool,
    reset: bool,
    later_scored_wait_over: bool,
)
    requires
        reset_due(ball, wait_over, scored_wait_over),
    ensures
        ball_after_reset(ball, wait_over, scored_wait_over) == fresh_ball(),
        command_outcome(reset, true, ball_after_reset(ball, wait_over, scored_wait_over), true)
            == BallCommandOutcome::Kick,
        !reset_due(ball_after_reset(ball, wait_over, scored_wait_over), false, later_scored_wait_over),
{
}

/// A reset check that finds no reset due leaves the ball as it is.
pub proof fn lemma_no_reset_keeps_ball(ball: Ball, wait_over: bool, scored_wait_over: bool)
    requires
        !reset_due(ball, wait_over, scored_wait_over),
    ensures
        ball_after_reset(ball, wait_over, scored_wait_over) == ball,
{
}

/// Only the owner's reset request forces a reset: a command whose reset flag
/// is off never forces one, and a command with neither a reset request nor a
/// shot (what a client sends every frame while no key is pressed) leaves the
/// ball exactly as it is.
pub proof fn lemma_reset_only_on_request(has_shot: bool, ball: Ball, settled: bool)
    ensures
        command_outcome(false, has_shot, ball, settled) != BallCommandOutcome::ForceReset,
        ball_after_outcome(ball, command_outcome(false, has_shot, ball, settled)).force_reset
            == ball.force_reset,
        command_outcome(false, false, ball, settled) == BallCommandOutcome::Ignored,
        ball_after_outcome(ball, command_outcome(false, false, ball, settled)) == ball,
{
}

/// A reset request on a ball in flight that has not scored forces a reset,
/// whatever else the command holds; and a shot is taken only when the ball
/// lies settled and unkicked.
pub proof fn lemma_outcome_conditions(reset: bool, has_shot: bool, ball: Ball, settled: bool)
    ensures
        (command_outcome(reset, has_shot, ball, settled) == BallCommandOutcome::ForceReset)
            <==> (reset && ball.shot && !ball.scored),
        (command_outcome(reset, has_shot, ball, settled) == BallCommandOutcome::Kick)
            <==> (has_shot && !ball.shot && settled && !(reset && ball.shot && !ball.scored)),
{
}

} // verus!
