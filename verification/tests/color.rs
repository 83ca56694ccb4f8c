use palette::{FromColor, Oklch, Srgb};
use wymrs::color::{empty, family_slot, food, missing, wall, FAMILY_SLOTS};
use wymrs::Color;

fn from_oklch(l: f32, chroma: f32, hue: f32) -> Color {
    let rgb: Srgb<u8> = Srgb::from_color(Oklch::new(l, chroma, hue)).into_format();
    let (r, g, b) = rgb.into_components();
    Color { r, g, b }
}

#[test]
fn fixed_colors_match_their_oklch_definitions() {
    assert_eq!(empty(), from_oklch(0.184, 0.052, 249.7));
    assert_eq!(wall(), from_oklch(0.6, 0.09, 300.0));
    assert_eq!(food(), from_oklch(0.4, 0.152, 19.7));
    assert_eq!(missing(), from_oklch(1.0, 0.0, 0.0));
}

#[test]
fn rgb_gives_the_three_bytes() {
    assert_eq!(Color { r: 1, g: 2, b: 3 }.rgb(), (1, 2, 3));
}

#[test]
fn family_slot_walks_the_table() {
    assert_eq!(FAMILY_SLOTS, 15);
    assert_eq!(family_slot(3, 0), 0);
    assert_eq!(family_slot(3, -1), 14);
    assert_eq!(family_slot(3, 3), 3);
    assert_eq!(family_slot(4, -1), 0);
    assert_eq!(family_slot(17, 0), 14);
    assert_eq!(family_slot(17, 1), 0);
    assert_eq!(family_slot(18, 0), 0);
    assert_eq!(family_slot(u16::MAX, 0), 12);
    assert_eq!(family_slot(u16::MAX, 3), 0);
}

#[test]
fn family_slot_stays_in_the_table() {
    for id in [3u16, 4, 16, 17, 18, 1000, u16::MAX] {
        for offset in -1..=3 {
            assert!(family_slot(id, offset) < 15);
        }
    }
}
