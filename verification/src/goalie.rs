//! The goalie's patrol: every so often it rolls a new pace, a new duration
//! and a new direction, turning back when it stands at either end of the goal.

use vstd::prelude::*;
use bevy_turborand::prelude::{Rng, TurboRand};

verus! {

/// The random number generator of the game (a WyRand generator).
#[verifier::external_type_specification]
#[verifier::external_body]
pub struct ExRng(Rng);

/// Calls `TurboRand::sample` on a slice and copies the picked item out. As
/// the crate's source shows, the call gives `None` exactly for an empty slice
/// and otherwise one of the slice's items; which one depends on the
/// generator's state and is left unsaid.
#[verifier::external_body]
fn sample<T: Copy>(rng: &Rng, list: &[T]) -> (r: Option<T>)
    ensures
        r is None <==> list@.len() == 0,
        r matches Some(x) ==> list@.contains(x),
{
    rng.sample(list).copied()
}

/// Which way the goalie walks along the goal line.
#[derive(Clone, Copy, Debug, PartialEq, Eq, Structural)]
pub enum GoalieDirection {
    /// Stands still (direction 0).
    Still,
    /// Towards the positive end (direction +1).
    Right,
    /// Towards the negative end (direction -1).
    Left,
}

/// How many paces and durations the goalie chooses from; the caller's tables
/// of speeds and action times have this many entries.
pub const CHOICES: usize = 4;

/// The directions a goalie between the ends of the goal chooses from.
pub const DIRECTIONS: [GoalieDirection; 3] = [GoalieDirection::Still, GoalieDirection::Right, GoalieDirection::Left];

/// The goalie's new behaviour: indices into the tables of action times and
/// speeds, and a direction.
#[derive(Clone, Copy, Debug, PartialEq, Eq, Structural)]
pub struct GoalieRoll {
    pub action_time: usize,
    pub speed: usize,
    pub direction: GoalieDirection,
}

/// The direction after a reroll: away from an end the goalie stands at, else
/// the randomly drawn one.
pub open spec fn reroll_direction(at_min: bool, at_max: bool, drawn: GoalieDirection) -> GoalieDirection {
    if at_min {
        GoalieDirection::Right
    } else if at_max {
        GoalieDirection::Left
    } else {
        drawn
    }
}

pub fn choose_direction(at_min: bool, at_max: bool, drawn: GoalieDirection) -> (d: GoalieDirection)
    ensures
        d == reroll_direction(at_min, at_max, drawn),
{
    if at_min {
        GoalieDirection::Right
    } else if at_max {
        GoalieDirection::Left
    } else {
        drawn
    }
}

/// Rolls the goalie's next behaviour: an action time and a speed drawn from
/// the four of each, then a direction, which is away from the end of the goal
/// the goalie stands at (`at_min`, `at_max`), or else drawn from still, right
/// and left. The action time and speed are drawn as indices into the caller's
/// four-entry tables: the generator picks an item of a slice by drawing its
/// index, so drawing from the indices draws exactly as drawing from the table.
pub fn reroll(rng: &Rng, at_min: bool, at_max: bool) -> (r: GoalieRoll)
    ensures
        r.action_time < CHOICES,
        r.speed < CHOICES,
        at_min ==> r.direction == GoalieDirection::Right,
        !at_min && at_max ==> r.direction == GoalieDirection::Left,
{
    let indices: [usize; 4] = [0, 1, 2, 3];
    assert(indices@.len() == 4);
    let action_time = sample(rng, &indices).unwrap();
    let speed = sample(rng, &indices).unwrap();
    let direction = if at_min || at_max {
        choose_direction(at_min, at_max, GoalieDirection::Still)
    } else {
        let directions = DIRECTIONS;
        assert(directions@.len() == 3);
        let drawn = sample(rng, &directions).unwrap();
        choose_direction(at_min, at_max, drawn)
    };
    GoalieRoll { action_time, speed, direction }
}

} // verus!
