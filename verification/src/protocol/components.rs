use vstd::prelude::*;
use std::string::String;

use super::primitives::PlayColor;

verus! {

/// What a replicated entity is in the game.
#[derive(Clone, Copy, Debug, PartialEq, Eq, Structural)]
pub enum EntityKindValue {
    Goalie,
    Ball,
}

/// The replicated component that tells clients what an entity is.
#[derive(Clone, Copy, Debug, PartialEq, Eq, Structural)]
pub struct EntityKind {
    pub value: EntityKindValue,
}

impl EntityKind {
    pub fn goalie() -> (k: EntityKind)
        ensures
            k.value == EntityKindValue::Goalie,
    {
        EntityKind { value: EntityKindValue::Goalie }
    }

    pub fn ball() -> (k: EntityKind)
        ensures
            k.value == EntityKindValue::Ball,
    {
        EntityKind { value: EntityKindValue::Ball }
    }
}

/// The replicated component naming the player that owns a ball, and the
/// player's team.
pub struct Player {
    pub name: String,
    pub color: PlayColor,
}

impl Player {
    pub fn new(name: String, color: PlayColor) -> (p: Player)
        ensures
            p.name == name,
            p.color == color,
    {
        Player { name, color }
    }
}

} // verus!
