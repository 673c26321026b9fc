use vstd::prelude::*;
use std::string::String;

use crate::entity::EntityId;
use super::primitives::PlayColor;
use super::MAGIC_NUMBER;

verus! {

/// The lower-case form of a string, as `str::to_lowercase` gives it (the
/// Unicode `Lowercase` mapping of each character).
pub uninterp spec fn lowercase_of(s: Seq<char>) -> Seq<char>;

/// The ASCII lower case of a character: `A` to `Z` become `a` to `z`, every
/// other character stays.
pub open spec fn ascii_lower(c: char) -> char {
    if 'A' <= c <= 'Z' {
        ((c as u32) + 32) as char
    } else {
        c
    }
}

/// Calls `str::to_lowercase`. The contract claims that the result is
/// determined by the characters of the argument, and that a string of ASCII
/// characters is lowered letter by letter (as the Unicode mapping does for
/// ASCII); what it gives for other characters (the Unicode case tables) is
/// left unsaid.
#[verifier::external_body]
fn to_lowercase(s: &str) -> (r: String)
    ensures
        r@ == lowercase_of(s@),
        vstd::utf8::is_ascii_chars(s@) ==> r@ == s@.map_values(|c: char| ascii_lower(c)),
{
    s.to_lowercase()
}

/// The team that a colour name, already lower-cased, selects: "blue" and
/// "pink" select their team, and any other name falls back to blue.
pub open spec fn color_of_lowercase(name: Seq<char>) -> PlayColor {
    if name == "blue"@ {
        PlayColor::Blue
    } else if name == "pink"@ {
        PlayColor::Pink
    } else {
        PlayColor::Blue
    }
}

/// The team that a colour name selects, ignoring letter case.
pub open spec fn color_of_name(name: Seq<char>) -> PlayColor {
    color_of_lowercase(lowercase_of(name))
}

/// The team of a lower-cased colour name (see `color_of_lowercase`).
pub fn color_from_lowercase(name: &String) -> (c: PlayColor)
    ensures
        c == color_of_lowercase(name@),
{
    let blue = "blue".to_owned();
    let pink = "pink".to_owned();
    if *name == blue {
        PlayColor::Blue
    } else if *name == pink {
        PlayColor::Pink
    } else {
        PlayColor::Blue
    }
}

/// The team that a colour name selects, ignoring letter case.
pub fn color_from_name(name: &str) -> (c: PlayColor)
    ensures
        c == color_of_name(name@),
        vstd::utf8::is_ascii_chars(name@) ==> c == color_of_lowercase(
            name@.map_values(|ch: char| ascii_lower(ch)),
        ),
{
    let lower = to_lowercase(name);
    color_from_lowercase(&lower)
}

/// The first message of a client: who plays, and for which team.
pub struct Auth {
    pub magic_number: u16,
    pub player_name: String,
    pub player_color: PlayColor,
}

impl Auth {
    pub fn new(username: &str, player_color: PlayColor) -> (a: Auth)
        ensures
            a.magic_number == MAGIC_NUMBER,
            a.player_name@ == username@,
            a.player_color == player_color,
    {
        Auth { magic_number: MAGIC_NUMBER, player_name: username.to_owned(), player_color }
    }

    /// Builds the message from a player name and a colour name, as the
    /// browser page hands them over. The colour is read ignoring case; an
    /// unknown colour selects blue.
    pub fn from_user_info(player_name: String, player_color: String) -> (a: Auth)
        ensures
            a.magic_number == MAGIC_NUMBER,
            a.player_name == player_name,
            a.player_color == color_of_name(player_color@),
            vstd::utf8::is_ascii_chars(player_color@) ==> a.player_color == color_of_lowercase(
                player_color@.map_values(|ch: char| ascii_lower(ch)),
            ),
    {
        let color = color_from_name(player_color.as_str());
        Auth { magic_number: MAGIC_NUMBER, player_name, player_color: color }
    }
}


impl From<(String, String)> for Auth {
    fn from(info: (String, String)) -> (a: Auth)
        ensures
            a.magic_number == MAGIC_NUMBER,
            a.player_name == info.0,
            a.player_color == color_of_name(info.1@),
            vstd::utf8::is_ascii_chars(info.1@) ==> a.player_color == color_of_lowercase(
                info.1@.map_values(|ch: char| ascii_lower(ch)),
            ),
    {
        let (player_name, player_color) = info;
        Auth::from_user_info(player_name, player_color)
    }
}

impl vstd::std_specs::convert::FromSpecImpl<(String, String)> for Auth {
    open spec fn obeys_from_spec() -> bool {
        true
    }

    open spec fn from_spec(info: (String, String)) -> Auth {
        Auth {
            magic_number: MAGIC_NUMBER,
            player_name: info.0,
            player_color: color_of_name(info.1@),
        }
    }
}

/// What happened in the game, as the server tells the clients.
#[derive(Clone, Copy, Debug, PartialEq, Eq, Structural)]
pub enum EventKind {
    PinkScored,
    BlueScored,
    ScoreSnapshot(i32),
    Kicked,
    DeniedGoalie,
    DeniedFrame,
}

/// A game event, optionally about one entity (the ball of the player concerned).
#[derive(Clone, Copy, Debug, PartialEq, Eq, Structural)]
pub struct PlayerEvent {
    pub entity: Option<EntityId>,
    pub kind: EventKind,
}

impl PlayerEvent {
    pub fn pink_scored() -> (e: PlayerEvent)
        ensures
            e.entity is None,
            e.kind == EventKind::PinkScored,
    {
        PlayerEvent { entity: None, kind: EventKind::PinkScored }
    }

    pub fn blue_scored() -> (e: PlayerEvent)
        ensures
            e.entity is None,
            e.kind == EventKind::BlueScored,
    {
        PlayerEvent { entity: None, kind: EventKind::BlueScored }
    }

    pub fn kicked() -> (e: PlayerEvent)
        ensures
            e.entity is None,
            e.kind == EventKind::Kicked,
    {
        PlayerEvent { entity: None, kind: EventKind::Kicked }
    }

    pub fn new_denied_goalie() -> (e: PlayerEvent)
        ensures
            e.entity is None,
            e.kind == EventKind::DeniedGoalie,
    {
        PlayerEvent { entity: None, kind: EventKind::DeniedGoalie }
    }

    pub fn new_denied_frame() -> (e: PlayerEvent)
        ensures
            e.entity is None,
            e.kind == EventKind::DeniedFrame,
    {
        PlayerEvent { entity: None, kind: EventKind::DeniedFrame }
    }
}

/// Goals that the server reports in one go, per team.
#[derive(Clone, Copy, Debug, PartialEq, Eq, Structural)]
pub struct TotalScoreState {
    pub blue: u32,
    pub pink: u32,
}

/// A player's input for one tick: whether to put the ball back, and the shot
/// to take, if any. `S` is what describes a shot (where and how the ball is
/// struck); the rules here only ask whether there is one.
pub struct KeyCommand<S> {
    pub entity: Option<EntityId>,
    pub reset: bool,
    pub shoot: Option<S>,
}

impl<S> KeyCommand<S> {
    pub fn new(reset: bool, shoot: Option<S>) -> (c: KeyCommand<S>)
        ensures
            c.entity is None,
            c.reset == reset,
            c.shoot == shoot,
    {
        KeyCommand { entity: None, reset, shoot }
    }
}

/// Tells a client that it now owns (`assign`) or no longer owns an entity.
#[derive(Clone, Copy, Debug, PartialEq, Eq, Structural)]
pub struct EntityAssignment {
    pub entity: Option<EntityId>,
    pub assign: bool,
}

impl EntityAssignment {
    pub fn new(assign: bool) -> (m: EntityAssignment)
        ensures
            m.entity is None,
            m.assign == assign,
    {
        EntityAssignment { entity: None, assign }
    }
}

} // verus!
