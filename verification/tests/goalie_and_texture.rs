use bevy_turborand::prelude::Rng;
use bevy_turborand::SeededCore;
use powerbaby::debug::{uv_texture, uv_texture_data};
use powerbaby::goalie::{choose_direction, reroll, GoalieDirection, CHOICES, DIRECTIONS};

#[test]
fn goalie_turns_back_at_the_ends() {
    let rng = Rng::with_seed(772);
    for _ in 0..50 {
        let r = reroll(&rng, true, false);
        assert_eq!(r.direction, GoalieDirection::Right);
        assert!(r.action_time < CHOICES && r.speed < CHOICES);
        let r = reroll(&rng, false, true);
        assert_eq!(r.direction, GoalieDirection::Left);
        let r = reroll(&rng, false, false);
        assert!(DIRECTIONS.contains(&r.direction));
        assert!(r.action_time < 4 && r.speed < 4);
    }
}

#[test]
fn goalie_direction_choice() {
    assert_eq!(choose_direction(true, true, GoalieDirection::Left), GoalieDirection::Right);
    assert_eq!(choose_direction(false, true, GoalieDirection::Right), GoalieDirection::Left);
    assert_eq!(choose_direction(false, false, GoalieDirection::Still), GoalieDirection::Still);
}

const PALETTE: [u8; 32] = [
    255, 102, 159, 255, 255, 159, 102, 255, 236, 255, 102, 255, 121, 255, 102, 255, 102, 255, 198,
    255, 102, 198, 255, 255, 121, 102, 255, 255, 236, 102, 255, 255,
];

fn expected() -> Vec<u8> {
    let mut palette = PALETTE;
    let mut out = vec![0u8; 256];
    for y in 0..8 {
        out[y * 32..y * 32 + 32].copy_from_slice(&palette);
        palette.rotate_right(4);
    }
    out
}

#[test]
fn uv_rows_rotate() {
    let d = uv_texture_data();
    assert_eq!(d.len(), 256);
    assert_eq!(&d[0..32], &PALETTE[..]);
    assert_eq!(&d[32..36], &PALETTE[28..32]);
    assert_eq!(d, expected());
}

#[test]
fn uv_image_holds_the_pattern() {
    let img = uv_texture();
    assert_eq!(img.data, expected());
    assert_eq!(img.texture_descriptor.size.width, 8);
    assert_eq!(img.texture_descriptor.size.height, 8);
}
