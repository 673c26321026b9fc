use vstd::prelude::*;
use std::collections::HashMap;
use std::string::String;

verus! {

/// The two teams a player can kick for.
#[derive(Clone, Copy, Debug, PartialEq, Eq, Structural, Hash)]
pub enum PlayColor {
    Blue,
    Pink,
}

/// Goal counts: per player (name and team) and per team.
pub struct Scores {
    pub personal: HashMap<(String, PlayColor), u32>,
    pub blue_total: u32,
    pub pink_total: u32,
}

impl Default for Scores {
    fn default() -> (s: Scores)
        ensures
            s.personal@ == Map::<(String, PlayColor), u32>::empty(),
            s.blue_total == 0,
            s.pink_total == 0,
    {
        Scores { personal: HashMap::new(), blue_total: 0, pink_total: 0 }
    }
}

} // verus!
