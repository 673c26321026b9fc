//! The client's bookkeeping: which ball it owns, its queued command, the
//! camera mode and the scoreboard, driven by the messages of the server and
//! by the player's input.

use vstd::prelude::*;
use std::string::String;

use crate::entity::EntityId;
use crate::protocol::messages::{EventKind, KeyCommand, PlayerEvent, TotalScoreState};
use crate::protocol::primitives::PlayColor;

verus! {

/// The ball a client owns: the server's copy (`confirmed`) and the local copy
/// used for clicking and prediction (`predicted`).
#[derive(Clone, Copy, Debug, PartialEq, Eq, Structural)]
pub struct OwnedEntity {
    pub confirmed: EntityId,
    pub predicted: EntityId,
}

impl OwnedEntity {
    pub fn new(confirmed_entity: EntityId, predicted_entity: EntityId) -> (o: OwnedEntity)
        ensures
            o.confirmed == confirmed_entity,
            o.predicted == predicted_entity,
    {
        OwnedEntity { confirmed: confirmed_entity, predicted: predicted_entity }
    }
}

/// The client's state that the game rules read and change. `S` describes a
/// shot (see `KeyCommand`).
pub struct Global<S> {
    pub camera_is_birdseye: bool,
    pub my_score: u32,
    pub total_pink: u32,
    pub total_blue: u32,
    pub owned_entity: Option<OwnedEntity>,
    pub queued_command: Option<KeyCommand<S>>,
}

impl<S> Default for Global<S> {
    fn default() -> (g: Global<S>)
        ensures
            !g.camera_is_birdseye,
            g.my_score == 0,
            g.total_pink == 0,
            g.total_blue == 0,
            g.owned_entity is None,
            g.queued_command is None,
    {
        Global {
            camera_is_birdseye: false,
            my_score: 0,
            total_pink: 0,
            total_blue: 0,
            owned_entity: None,
            queued_command: None,
        }
    }
}

/// The sound a client plays for a game event.
#[derive(Clone, Copy, Debug, PartialEq, Eq, Structural)]
pub enum Sound {
    BlueGoal,
    PinkGoal,
    Kick,
    GoalieDeny,
    FrameDeny,
}

/// What a game event asks of the client's display: a sound to play, whether
/// the player's own score text changed, and which team total changed.
#[derive(Clone, Copy, Debug, PartialEq, Eq, Structural)]
pub struct PlayerEventEffect {
    pub sound: Option<Sound>,
    pub own_score_changed: bool,
    pub total_changed: Option<PlayColor>,
}

/// A goal is credited to this player when the event names the ball that the
/// player owns.
pub open spec fn credited(owned: Option<OwnedEntity>, entity: Option<EntityId>) -> bool {
    &&& owned is Some
    &&& entity is Some
    &&& owned.unwrap().confirmed == entity.unwrap()
}

/// The scores (own, pink total, blue total) after one game event.
pub open spec fn scores_after(
    scores: (int, int, int),
    owned: Option<OwnedEntity>,
    event: PlayerEvent,
) -> (int, int, int) {
    let credit: int = if credited(owned, event.entity) { 1 } else { 0 };
    match event.kind {
        EventKind::BlueScored => (scores.0 + credit, scores.1, scores.2 + 1),
        EventKind::PinkScored => (scores.0 + credit, scores.1 + 1, scores.2),
        _ => scores,
    }
}

/// The effect on the display of one game event.
pub open spec fn event_effect(owned: Option<OwnedEntity>, event: PlayerEvent) -> PlayerEventEffect {
    match event.kind {
        EventKind::BlueScored => PlayerEventEffect {
            sound: Some(Sound::BlueGoal),
            own_score_changed: credited(owned, event.entity),
            total_changed: Some(PlayColor::Blue),
        },
        EventKind::PinkScored => PlayerEventEffect {
            sound: Some(Sound::PinkGoal),
            own_score_changed: credited(owned, event.entity),
            total_changed: Some(PlayColor::Pink),
        },
        EventKind::ScoreSnapshot(_) => PlayerEventEffect {
            sound: None,
            own_score_changed: false,
            total_changed: None,
        },
        EventKind::Kicked => PlayerEventEffect {
            sound: Some(Sound::Kick),
            own_score_changed: false,
            total_changed: None,
        },
        EventKind::DeniedGoalie => PlayerEventEffect {
            sound: Some(Sound::GoalieDeny),
            own_score_changed: false,
            total_changed: None,
        },
        EventKind::DeniedFrame => PlayerEventEffect {
            sound: Some(Sound::FrameDeny),
            own_score_changed: false,
            total_changed: None,
        },
    }
}

/// What a client does with an entity assignment.
#[derive(Clone, Copy, Debug, PartialEq, Eq, Structural)]
pub enum AssignmentAction {
    /// Take ownership of this (known) ball: the caller spawns the local copy
    /// and then calls `claim`.
    Claim(EntityId),
    /// Give up the owned ball: the caller despawns the local copy and then
    /// calls `release`.
    Release(OwnedEntity),
    /// Nothing to do.
    Ignore,
}

/// The action for an assignment of `entity`, given whether the client knows
/// that entity as a ball.
pub open spec fn assignment_action(
    owned: Option<OwnedEntity>,
    assign: bool,
    entity: EntityId,
    ball_known: bool,
) -> AssignmentAction {
    if assign {
        if ball_known {
            AssignmentAction::Claim(entity)
        } else {
            AssignmentAction::Ignore
        }
    } else if owned is Some && owned.unwrap().confirmed == entity {
        AssignmentAction::Release(owned.unwrap())
    } else {
        AssignmentAction::Ignore
    }
}

/// The queued command after a frame's input: without an owned ball the
/// queue is left as it is; otherwise a queued command takes the new flags
/// and keeps its entity, and an empty queue gets a command for the owned ball.
pub open spec fn queue_after<S>(
    queued: Option<KeyCommand<S>>,
    owned: Option<OwnedEntity>,
    reset: bool,
    shoot: Option<S>,
) -> Option<KeyCommand<S>> {
    match owned {
        None => queued,
        Some(o) => match queued {
            Some(c) => Some(KeyCommand { entity: c.entity, reset, shoot }),
            None => Some(KeyCommand { entity: Some(o.confirmed), reset, shoot }),
        },
    }
}

/// What the tick takes from the queue: the queued command while a ball is
/// owned, nothing otherwise.
pub open spec fn taken_for_tick<S>(queued: Option<KeyCommand<S>>, owned: Option<OwnedEntity>) -> Option<KeyCommand<S>> {
    if owned is Some {
        queued
    } else {
        None
    }
}

/// Where the shot of this frame comes from.
#[derive(Clone, Copy, Debug, PartialEq, Eq, Structural)]
pub enum ShotSource {
    /// The space bar: a straight shot at the middle of the ball.
    Straight,
    /// The mouse: a ray from the cursor.
    Click,
    /// A touch: a ray from the first touch.
    Touch,
    /// No shot.
    NoShot,
}

/// The shot source for the pressed keys and buttons: nothing unless the ball
/// can be shot; then the space bar wins over the mouse, and the mouse over a
/// touch.
pub open spec fn shot_source(can_shoot: bool, space: bool, mouse: bool, touch: bool) -> ShotSource {
    if !can_shoot {
        ShotSource::NoShot
    } else if space {
        ShotSource::Straight
    } else if mouse {
        ShotSource::Click
    } else if touch {
        ShotSource::Touch
    } else {
        ShotSource::NoShot
    }
}

pub fn choose_shot_source(can_shoot: bool, space: bool, mouse: bool, touch: bool) -> (s: ShotSource)
    ensures
        s == shot_source(can_shoot, space, mouse, touch),
        !can_shoot ==> s == ShotSource::NoShot,
        can_shoot && space ==> s == ShotSource::Straight,
        can_shoot && !space && mouse ==> s == ShotSource::Click,
        can_shoot && !space && !mouse && touch ==> s == ShotSource::Touch,
        !space && !mouse && !touch ==> s == ShotSource::NoShot,
{
    match (can_shoot, space, mouse) {
        (true, true, _) => ShotSource::Straight,
        (true, false, true) => ShotSource::Click,
        (true, false, false) => {
            if touch {
                ShotSource::Touch
            } else {
                ShotSource::NoShot
            }
        },
        _ => ShotSource::NoShot,
    }
}

/// How the camera turns around the ball this frame.
#[derive(Clone, Copy, Debug, PartialEq, Eq, Structural)]
pub enum CameraTurn {
    Left,
    Right,
    Still,
}

/// Left wins when both arrows are held.
pub fn camera_turn(left: bool, right: bool) -> (t: CameraTurn)
    ensures
        t == (if left {
            CameraTurn::Left
        } else if right {
            CameraTurn::Right
        } else {
            CameraTurn::Still
        }),
{
    if left {
        CameraTurn::Left
    } else if right {
        CameraTurn::Right
    } else {
        CameraTurn::Still
    }
}

/// The look of a player's ball.
#[derive(Clone, Copy, Debug, PartialEq, Eq, Structural)]
pub enum BallSkin {
    Blue,
    Pink,
}

pub fn ball_skin(color: PlayColor) -> (s: BallSkin)
    ensures
        s == (match color {
            PlayColor::Blue => BallSkin::Blue,
            PlayColor::Pink => BallSkin::Pink,
        }),
{
    if let PlayColor::Blue = color {
        BallSkin::Blue
    } else {
        BallSkin::Pink
    }
}

/// The player's name and colour name, or the stand-in ("Denis", "blue") when
/// the page gave none.
pub fn user_info_or_default(info: Option<(String, String)>) -> (r: (String, String))
    ensures
        info is Some ==> r == info.unwrap(),
        info is None ==> r.0@ == "Denis"@ && r.1@ == "blue"@,
{
    match info {
        Some(i) => i,
        None => ("Denis".to_owned(), "blue".to_owned()),
    }
}

/// Whether the score board puts the player in the blue column: only for the
/// colour name "blue" exactly (other spellings go to the pink column).
pub open spec fn in_blue_column(player_color: Seq<char>) -> bool {
    player_color == "blue"@
}

/// The names shown over the blue and the pink column: the player's name over
/// their column, nothing over the other.
pub fn column_names(player_name: String, player_color: &String) -> (r: (String, String))
    ensures
        in_blue_column(player_color@) ==> r.0 == player_name && r.1@ == Seq::<char>::empty(),
        !in_blue_column(player_color@) ==> r.0@ == Seq::<char>::empty() && r.1 == player_name,
{
    let blue = "blue".to_owned();
    if *player_color == blue {
        (player_name, String::new())
    } else {
        (String::new(), player_name)
    }
}

/// The column whose score text is the player's own.
pub fn own_score_column(player_color: &String) -> (c: PlayColor)
    ensures
        c == (if in_blue_column(player_color@) {
            PlayColor::Blue
        } else {
            PlayColor::Pink
        }),
{
    let blue = "blue".to_owned();
    if *player_color == blue {
        PlayColor::Blue
    } else {
        PlayColor::Pink
    }
}

impl<S> Global<S> {
    /// The three scores, as integers.
    pub open spec fn scores(&self) -> (int, int, int) {
        (self.my_score as int, self.total_pink as int, self.total_blue as int)
    }

    /// Whether applying the event keeps every score within `u32`.
    pub open spec fn event_fits(&self, event: PlayerEvent) -> bool {
        let s = scores_after(self.scores(), self.owned_entity, event);
        s.0 <= u32::MAX && s.1 <= u32::MAX && s.2 <= u32::MAX
    }

    /// Whether `handle_player_event` may be called with this event: whether
    /// the scores it raises stay within `u32`.
    pub fn can_apply_event(&self, event: &PlayerEvent) -> (ok: bool)
        ensures
            ok == self.event_fits(*event),
    {
        let credit = match (self.owned_entity, event.entity) {
            (Some(owned), Some(entity)) => owned.confirmed == entity,
            _ => false,
        };
        let own_fits = !credit || self.my_score < u32::MAX;
        match event.kind {
            EventKind::BlueScored => own_fits && self.total_blue < u32::MAX,
            EventKind::PinkScored => own_fits && self.total_pink < u32::MAX,
            _ => true,
        }
    }

    /// Applies a game event from the server to the scores, and says what the
    /// display must do.
    pub fn handle_player_event(&mut self, event: &PlayerEvent) -> (effect: PlayerEventEffect)
        requires
            old(self).event_fits(*event),
        ensures
            final(self).scores() == scores_after(old(self).scores(), old(self).owned_entity, *event),
            effect == event_effect(old(self).owned_entity, *event),
            effect.own_score_changed == (final(self).my_score != old(self).my_score),
            final(self).my_score == old(self).my_score + if effect.own_score_changed { 1int } else { 0 },
            (effect.total_changed == Some(PlayColor::Blue)) == (final(self).total_blue != old(self).total_blue),
            (effect.total_changed == Some(PlayColor::Pink)) == (final(self).total_pink != old(self).total_pink),
            final(self).owned_entity == old(self).owned_entity,
            final(self).queued_command == old(self).queued_command,
            final(self).camera_is_birdseye == old(self).camera_is_birdseye,
    {
        let credit = match (self.owned_entity, event.entity) {
            (Some(owned), Some(entity)) => owned.confirmed == entity,
            _ => false,
        };
        match event.kind {
            EventKind::BlueScored => {
                if credit {
                    self.my_score = self.my_score + 1;
                }
                self.total_blue = self.total_blue + 1;
                PlayerEventEffect {
                    sound: Some(Sound::BlueGoal),
                    own_score_changed: credit,
                    total_changed: Some(PlayColor::Blue),
                }
            },
            EventKind::PinkScored => {
                if credit {
                    self.my_score = self.my_score + 1;
                }
                self.total_pink = self.total_pink + 1;
                PlayerEventEffect {
                    sound: Some(Sound::PinkGoal),
                    own_score_changed: credit,
                    total_changed: Some(PlayColor::Pink),
                }
            },
            EventKind::ScoreSnapshot(_) => PlayerEventEffect {
                sound: None,
                own_score_changed: false,
                total_changed: None,
            },
            EventKind::Kicked => PlayerEventEffect {
                sound: Some(Sound::Kick),
                own_score_changed: false,
                total_changed: None,
            },
            EventKind::DeniedGoalie => PlayerEventEffect {
                sound: Some(Sound::GoalieDeny),
                own_score_changed: false,
                total_changed: None,
            },
            EventKind::DeniedFrame => PlayerEventEffect {
                sound: Some(Sound::FrameDeny),
                own_score_changed: false,
                total_changed: None,
            },
        }
    }

    /// Adds the goals of a score report to the team totals.
    pub fn apply_total_score(&mut self, state: &TotalScoreState)
        requires
            old(self).total_pink + state.pink <= u32::MAX,
            old(self).total_blue + state.blue <= u32::MAX,
        ensures
            final(self).total_pink == old(self).total_pink + state.pink,
            final(self).total_blue == old(self).total_blue + state.blue,
            final(self).my_score == old(self).my_score,
            final(self).owned_entity == old(self).owned_entity,
            final(self).queued_command == old(self).queued_command,
            final(self).camera_is_birdseye == old(self).camera_is_birdseye,
    {
        self.total_pink = self.total_pink + state.pink;
        self.total_blue = self.total_blue + state.blue;
    }

    /// What to do with an assignment of `entity` from the server.
    pub fn plan_entity_assignment(&self, assign: bool, entity: EntityId, ball_known: bool) -> (a: AssignmentAction)
        ensures
            a == assignment_action(self.owned_entity, assign, entity, ball_known),
    {
        if assign {
            if ball_known {
                AssignmentAction::Claim(entity)
            } else {
                AssignmentAction::Ignore
            }
        } else {
            match self.owned_entity {
                Some(owned) => {
                    if owned.confirmed == entity {
                        AssignmentAction::Release(owned)
                    } else {
                        AssignmentAction::Ignore
                    }
                },
                None => AssignmentAction::Ignore,
            }
        }
    }

    /// Takes ownership of a ball and its local copy.
    pub fn claim(&mut self, confirmed: EntityId, predicted: EntityId)
        ensures
            final(self).owned_entity == Some(OwnedEntity { confirmed, predicted }),
            final(self).scores() == old(self).scores(),
            final(self).queued_command == old(self).queued_command,
            final(self).camera_is_birdseye == old(self).camera_is_birdseye,
    {
        self.owned_entity = Some(OwnedEntity::new(confirmed, predicted));
    }

    /// Gives up the owned ball.
    pub fn release(&mut self)
        ensures
            final(self).owned_entity is None,
            final(self).scores() == old(self).scores(),
            final(self).queued_command == old(self).queued_command,
            final(self).camera_is_birdseye == old(self).camera_is_birdseye,
    {
        self.owned_entity = None;
    }

    /// Records this frame's input in the queued command: without an owned
    /// ball nothing changes; otherwise a queued command takes the new flags,
    /// and an empty queue gets a new command for the owned ball.
    pub fn queue_command(&mut self, reset: bool, shoot: Option<S>)
        ensures
            final(self).queued_command == queue_after(
                old(self).queued_command,
                old(self).owned_entity,
                reset,
                shoot,
            ),
            final(self).owned_entity == old(self).owned_entity,
            final(self).scores() == old(self).scores(),
            final(self).camera_is_birdseye == old(self).camera_is_birdseye,
    {
        if self.owned_entity.is_none() {
            return;
        }
        if let Some(command) = &mut self.queued_command {
            command.reset = reset;
            command.shoot = shoot;
        } else if let Some(owned) = self.owned_entity {
            let mut command = KeyCommand::new(reset, shoot);
            command.entity = Some(owned.confirmed);
            self.queued_command = Some(command);
        }
    }

    /// Takes the queued command to send on this tick. Nothing is sent, and
    /// the queue is left alone, while the client owns no ball.
    pub fn take_command_for_tick(&mut self) -> (c: Option<KeyCommand<S>>)
        ensures
            c == taken_for_tick(old(self).queued_command, old(self).owned_entity),
            old(self).owned_entity is None ==> final(self).queued_command
                == old(self).queued_command,
            old(self).owned_entity is Some ==> final(self).queued_command is None,
            final(self).owned_entity == old(self).owned_entity,
            final(self).scores() == old(self).scores(),
            final(self).camera_is_birdseye == old(self).camera_is_birdseye,
    {
        if self.owned_entity.is_none() {
            return None;
        }
        self.queued_command.take()
    }

    /// Switches between the kick camera and the bird's-eye camera, and
    /// returns whether the bird's-eye camera is now on.
    pub fn toggle_camera(&mut self) -> (birdseye: bool)
        ensures
            final(self).camera_is_birdseye == !old(self).camera_is_birdseye,
            birdseye == final(self).camera_is_birdseye,
            final(self).owned_entity == old(self).owned_entity,
            final(self).scores() == old(self).scores(),
            final(self).queued_command == old(self).queued_command,
    {
        self.camera_is_birdseye = !self.camera_is_birdseye;
        self.camera_is_birdseye
    }
}


/// The scores after a run of game events, taken in order.
pub open spec fn scores_after_all(
    scores: (int, int, int),
    owned: Option<OwnedEntity>,
    events: Seq<PlayerEvent>,
) -> (int, int, int)
    decreases events.len(),
{
    if events.len() == 0 {
        scores
    } else {
        scores_after(scores_after_all(scores, owned, events.drop_last()), owned, events.last())
    }
}

/// How many of the events are of the given kind.
pub open spec fn count_kind(events: Seq<PlayerEvent>, kind: EventKind) -> int
    decreases events.len(),
{
    if events.len() == 0 {
        0
    } else {
        count_kind(events.drop_last(), kind) + if events.last().kind == kind { 1int } else { 0 }
    }
}

/// How many of the events are goals (of either team) credited to this player.
pub open spec fn credited_goals(owned: Option<OwnedEntity>, events: Seq<PlayerEvent>) -> int
    decreases events.len(),
{
    if events.len() == 0 {
        0
    } else {
        credited_goals(owned, events.drop_last()) + if (events.last().kind
            == EventKind::BlueScored || events.last().kind == EventKind::PinkScored) && credited(
            owned,
            events.last().entity,
        ) {
            1int
        } else {
            0
        }
    }
}

/// The score board counts goals: after any run of events, each team total has
/// grown by the number of that team's goal events, and the player's own score
/// by the number of goals scored with the ball the player owns.
pub proof fn lemma_scores_count_goals(
    scores: (int, int, int),
    owned: Option<OwnedEntity>,
    events: Seq<PlayerEvent>,
)
    ensures
        scores_after_all(scores, owned, events) == (
            scores.0 + credited_goals(owned, events),
            scores.1 + count_kind(events, EventKind::PinkScored),
            scores.2 + count_kind(events, EventKind::BlueScored),
        ),
    decreases events.len(),
{
    if events.len() > 0 {
        lemma_scores_count_goals(scores, owned, events.drop_last());
    }
}

/// Scores never go down: every prefix of a run of events leaves each score
/// at most where the whole run leaves it.
pub proof fn lemma_scores_monotone(
    scores: (int, int, int),
    owned: Option<OwnedEntity>,
    events: Seq<PlayerEvent>,
    k: int,
)
    requires
        0 <= k <= events.len(),
    ensures
        scores.0 <= scores_after_all(scores, owned, events.take(k)).0 <= scores_after_all(scores, owned, events).0,
        scores.1 <= scores_after_all(scores, owned, events.take(k)).1 <= scores_after_all(scores, owned, events).1,
        scores.2 <= scores_after_all(scores, owned, events.take(k)).2 <= scores_after_all(scores, owned, events).2,
    decreases events.len(),
{
    if events.len() > 0 {
        if k == events.len() {
            assert(events.take(k) =~= events);
            lemma_scores_monotone(scores, owned, events.drop_last(), k - 1);
        } else {
            assert(events.drop_last().take(k) =~= events.take(k));
            lemma_scores_monotone(scores, owned, events.drop_last(), k);
        }
    } else {
        assert(events.take(k) =~= events);
    }
}

/// A client that has just claimed a ball gives it up on an unassignment of
/// that ball, and on no other assignment.
pub proof fn lemma_claim_then_unassign(
    confirmed: EntityId,
    predicted: EntityId,
    entity: EntityId,
    ball_known: bool,
)
    ensures
        entity == confirmed ==> assignment_action(
            Some(OwnedEntity { confirmed, predicted }),
            false,
            entity,
            ball_known,
        ) == AssignmentAction::Release(OwnedEntity { confirmed, predicted }),
        entity != confirmed ==> assignment_action(
            Some(OwnedEntity { confirmed, predicted }),
            false,
            entity,
            ball_known,
        ) == AssignmentAction::Ignore,
{
}

/// An assignment never releases a ball, and an unassignment never claims
/// one; a client that owns nothing has nothing to release.
pub proof fn lemma_assignment_direction(
    owned: Option<OwnedEntity>,
    assign: bool,
    entity: EntityId,
    ball_known: bool,
)
    ensures
        assign ==> !(assignment_action(owned, assign, entity, ball_known) is Release),
        !assign ==> !(assignment_action(owned, assign, entity, ball_known) is Claim),
        owned is None ==> !(assignment_action(owned, assign, entity, ball_known) is Release),
{
}

/// The input of a frame reaches the server: a client that owns a ball and
/// has nothing queued sends, on the next tick, a command for its ball with
/// exactly that frame's flags, and its queue is then empty; a second tick
/// sends nothing.
pub proof fn lemma_queue_then_take<S>(owned: OwnedEntity, reset: bool, shoot: Option<S>)
    ensures
        taken_for_tick(queue_after(None, Some(owned), reset, shoot), Some(owned)) == Some(
            KeyCommand { entity: Some(owned.confirmed), reset, shoot },
        ),
        taken_for_tick(None::<KeyCommand<S>>, Some(owned)) is None,
{
}

/// While a ball is owned, input of later frames before a tick overrides the
/// earlier input and keeps the command's ball; without an owned ball, input
/// leaves the queue alone.
pub proof fn lemma_later_input_wins<S>(
    queued: Option<KeyCommand<S>>,
    owned: Option<OwnedEntity>,
    reset1: bool,
    shoot1: Option<S>,
    reset2: bool,
    shoot2: Option<S>,
)
    requires
        owned is Some,
    ensures
        queue_after(queue_after(queued, owned, reset1, shoot1), owned, reset2, shoot2) == Some(
            KeyCommand {
                entity: queue_after(queued, owned, reset1, shoot1).unwrap().entity,
                reset: reset2,
                shoot: shoot2,
            },
        ),
        queue_after(queued, None, reset1, shoot1) == queued,
{
}

/// After claiming a ball, goals scored with it (and only with it, not with
/// its local copy) are credited to the player.
pub proof fn lemma_claimed_ball_scores(confirmed: EntityId, predicted: EntityId, entity: EntityId)
    ensures
        credited(Some(OwnedEntity { confirmed, predicted }), Some(entity)) <==> entity == confirmed,
        !credited(None, Some(entity)),
        !credited(Some(OwnedEntity { confirmed, predicted }), None),
{
}

/// The shot source follows the keys: nothing unless the ball can be shot;
/// then the space bar gives a straight shot, else a pressed mouse button a
/// click (whatever the touches), else a touch a touch shot.
pub proof fn lemma_shot_source_priority(can_shoot: bool, space: bool, mouse: bool, touch: bool)
    ensures
        !can_shoot ==> shot_source(can_shoot, space, mouse, touch) == ShotSource::NoShot,
        can_shoot && space ==> shot_source(can_shoot, space, mouse, touch) == ShotSource::Straight,
        can_shoot && !space && mouse ==> shot_source(can_shoot, space, mouse, touch) == ShotSource::Click,
        can_shoot && !space && !mouse && touch ==> shot_source(can_shoot, space, mouse, touch)
            == ShotSource::Touch,
        !space && !mouse && !touch ==> shot_source(can_shoot, space, mouse, touch) == ShotSource::NoShot,
{
}

/// The display is told exactly what changed: the own score text is refreshed
/// exactly when the player's score went up (by one), and a team total text
/// exactly when that team's total went up (by one).
pub proof fn lemma_effect_matches_scores(
    scores: (int, int, int),
    owned: Option<OwnedEntity>,
    event: PlayerEvent,
)
    ensures
        event_effect(owned, event).own_score_changed == (scores_after(scores, owned, event).0 != scores.0),
        scores_after(scores, owned, event).0 == scores.0 + if event_effect(owned, event).own_score_changed { 1int } else { 0 },
        (event_effect(owned, event).total_changed == Some(PlayColor::Pink)) == (scores_after(scores, owned, event).1 != scores.1),
        (event_effect(owned, event).total_changed == Some(PlayColor::Blue)) == (scores_after(scores, owned, event).2 != scores.2),
        (event.kind == EventKind::BlueScored || event.kind == EventKind::PinkScored) ==> event_effect(
            owned,
            event,
        ).own_score_changed == credited(owned, event.entity),
{
}

impl<S> Global<S> {
    /// Applies the game events of one message batch in order, and returns
    /// what each asks of the display.
    pub fn handle_player_events(&mut self, events: &Vec<PlayerEvent>) -> (effects: Vec<PlayerEventEffect>)
        requires
            scores_after_all(old(self).scores(), old(self).owned_entity, events@).0 <= u32::MAX,
            scores_after_all(old(self).scores(), old(self).owned_entity, events@).1 <= u32::MAX,
            scores_after_all(old(self).scores(), old(self).owned_entity, events@).2 <= u32::MAX,
        ensures
            final(self).scores() == scores_after_all(
                old(self).scores(),
                old(self).owned_entity,
                events@,
            ),
            effects@.len() == events@.len(),
            forall|i: int|
                0 <= i < events@.len() ==> #[trigger] effects@[i] == event_effect(
                    old(self).owned_entity,
                    events@[i],
                ),
            final(self).owned_entity == old(self).owned_entity,
            final(self).queued_command == old(self).queued_command,
            final(self).camera_is_birdseye == old(self).camera_is_birdseye,
    {
        let ghost start = self.scores();
        let ghost owned = self.owned_entity;
        let mut effects: Vec<PlayerEventEffect> = Vec::new();
        let mut i: usize = 0;
        while i < events.len()
            invariant
                0 <= i <= events@.len(),
                self.owned_entity == owned,
                self.owned_entity == old(self).owned_entity,
                self.queued_command == old(self).queued_command,
                self.camera_is_birdseye == old(self).camera_is_birdseye,
                start == old(self).scores(),
                self.scores() == scores_after_all(start, owned, events@.take(i as int)),
                scores_after_all(start, owned, events@).0 <= u32::MAX,
                scores_after_all(start, owned, events@).1 <= u32::MAX,
                scores_after_all(start, owned, events@).2 <= u32::MAX,
                effects@.len() == i,
                forall|j: int| 0 <= j < i ==> #[trigger] effects@[j] == event_effect(owned, events@[j]),
            decreases events@.len() - i,
        {
            proof {
                lemma_scores_monotone(start, owned, events@, i + 1);
                assert(events@.take(i + 1).drop_last() =~= events@.take(i as int));
                assert(events@.take(i + 1).last() == events@[i as int]);
            }
            let effect = self.handle_player_event(&events[i]);
            effects.push(effect);
            i = i + 1;
        }
        assert(events@.take(events@.len() as int) =~= events@);
        effects
    }
}

} // verus!
