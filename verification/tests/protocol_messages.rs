use powerbaby::entity::EntityId;
use powerbaby::login;
use powerbaby::protocol::components::{EntityKind, EntityKindValue, Player};
use powerbaby::protocol::messages::{
    color_from_lowercase, color_from_name, Auth, EntityAssignment, EventKind, KeyCommand,
    PlayerEvent,
};
use powerbaby::protocol::primitives::{PlayColor, Scores};
use powerbaby::protocol::{MAGIC_NUMBER, SERVER_AD_URL, SERVER_HANDSHAKE_URL};

#[test]
fn auth_new_carries_magic_number() {
    let a = Auth::new("armorous0772", PlayColor::Pink);
    assert_eq!(a.magic_number, 772);
    assert_eq!(a.magic_number, MAGIC_NUMBER);
    assert_eq!(a.player_name, "armorous0772");
    assert_eq!(a.player_color, PlayColor::Pink);
}

#[test]
fn auth_from_reads_color_ignoring_case() {
    let a = Auth::from(("Denis".to_string(), "blue".to_string()));
    assert_eq!(a.player_color, PlayColor::Blue);
    assert_eq!(a.player_name, "Denis");
    assert_eq!(a.magic_number, MAGIC_NUMBER);
    let b = Auth::from(("Ana".to_string(), "PINK".to_string()));
    assert_eq!(b.player_color, PlayColor::Pink);
    let c = Auth::from(("Ana".to_string(), "PiNk".to_string()));
    assert_eq!(c.player_color, PlayColor::Pink);
    let d = Auth::from(("Bo".to_string(), "BLUE".to_string()));
    assert_eq!(d.player_color, PlayColor::Blue);
}

#[test]
fn auth_from_unknown_color_is_blue() {
    let a = Auth::from(("Bo".to_string(), "green".to_string()));
    assert_eq!(a.player_color, PlayColor::Blue);
    let b = Auth::from(("Bo".to_string(), "".to_string()));
    assert_eq!(b.player_color, PlayColor::Blue);
    let c = Auth::from(("Bo".to_string(), " pink".to_string()));
    assert_eq!(c.player_color, PlayColor::Blue);
}

#[test]
fn auth_from_user_info_matches_from() {
    let a = Auth::from_user_info("Zed".to_string(), "Pink".to_string());
    assert_eq!(a.player_color, PlayColor::Pink);
    assert_eq!(a.player_name, "Zed");
}

#[test]
fn color_names() {
    assert_eq!(color_from_lowercase(&"pink".to_string()), PlayColor::Pink);
    assert_eq!(color_from_lowercase(&"PINK".to_string()), PlayColor::Blue);
    assert_eq!(color_from_lowercase(&"blue".to_string()), PlayColor::Blue);
    assert_eq!(color_from_name("PINK"), PlayColor::Pink);
    assert_eq!(color_from_name("Blue"), PlayColor::Blue);
    assert_eq!(color_from_name("orange"), PlayColor::Blue);
}

#[test]
fn player_event_constructors() {
    assert_eq!(PlayerEvent::pink_scored().kind, EventKind::PinkScored);
    assert_eq!(PlayerEvent::blue_scored().kind, EventKind::BlueScored);
    assert_eq!(PlayerEvent::kicked().kind, EventKind::Kicked);
    assert_eq!(PlayerEvent::new_denied_goalie().kind, EventKind::DeniedGoalie);
    assert_eq!(PlayerEvent::new_denied_frame().kind, EventKind::DeniedFrame);
    assert_eq!(PlayerEvent::pink_scored().entity, None);
    assert_eq!(PlayerEvent::new_denied_frame().entity, None);
}

#[test]
fn entity_assignment_and_key_command() {
    let m = EntityAssignment::new(true);
    assert!(m.assign);
    assert_eq!(m.entity, None);
    assert!(!EntityAssignment::new(false).assign);
    let c: KeyCommand<u8> = KeyCommand::new(true, Some(7));
    assert!(c.reset);
    assert_eq!(c.shoot, Some(7));
    assert_eq!(c.entity, None);
}

#[test]
fn components() {
    assert_eq!(EntityKind::goalie().value, EntityKindValue::Goalie);
    assert_eq!(EntityKind::ball().value, EntityKindValue::Ball);
    let p = Player::new("Ana".to_string(), PlayColor::Pink);
    assert_eq!(p.name, "Ana");
    assert_eq!(p.color, PlayColor::Pink);
}

#[test]
fn scores_start_empty() {
    let s = Scores::default();
    assert!(s.personal.is_empty());
    assert_eq!(s.blue_total, 0);
    assert_eq!(s.pink_total, 0);
}

#[test]
fn server_urls() {
    assert_eq!(SERVER_HANDSHAKE_URL, "http://192.168.0.188:14191");
    assert_eq!(SERVER_AD_URL, "http://192.168.0.188:14192");
}

#[test]
fn login_accepts_only_charlie() {
    assert!(login::accepts(&login::Auth::new("charlie", "12345")));
    assert!(!login::accepts(&login::Auth::new("charlie", "1234")));
    assert!(!login::accepts(&login::Auth::new("Charlie", "12345")));
    assert!(!login::accepts(&login::Auth::new("", "")));
    let a = login::Auth::new("bob", "pw");
    assert_eq!(a.username, "bob");
    assert_eq!(a.password, "pw");
}

#[test]
fn entity_id_round_trip() {
    let e = EntityId::from_bits(0x0000_0001_0000_0005);
    assert_eq!(e.to_bits(), 0x0000_0001_0000_0005);
    assert_eq!(e, EntityId { bits: 0x0000_0001_0000_0005 });
}
