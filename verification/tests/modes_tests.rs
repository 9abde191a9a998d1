use keyboard_frames::models::Mode;
use keyboard_frames::modes::{
    get_rgb_modes, get_single_color_modes, is_custom_mode, list_modes, RgbMode, SingleColorMode,
};

fn pairs(modes: &[Mode]) -> Vec<(String, u8)> {
    modes.iter().map(|m| (m.name.clone(), m.mode_bit)).collect()
}

fn expect(list: &[(&str, u8)]) -> Vec<(String, u8)> {
    list.iter().map(|(n, c)| (n.to_string(), *c)).collect()
}

#[test]
fn rgb_modes_are_the_catalogue() {
    let modes = get_rgb_modes();
    assert_eq!(modes.len(), 21);
    assert_eq!(
        pairs(&modes),
        expect(&[
            ("Custom", 0),
            ("Ambilight", 14),
            ("Breathing", 17),
            ("Diagonal Transformation", 13),
            ("Flash Away", 20),
            ("Layer Upon Layer", 7),
            ("Marquee Effect", 9),
            ("Neon", 18),
            ("Neon Stream", 1),
            ("Rainbow Roulette", 5),
            ("Retro Snake", 12),
            ("Rich And Honored", 8),
            ("Ripples Shining", 2),
            ("Rotating Storm", 10),
            ("Rotating Windmill", 3),
            ("Serpentine Horse Race", 11),
            ("Shadow Disappear", 19),
            ("Sine Wave", 4),
            ("Stars Twinkle", 6),
            ("Steady", 16),
            ("Streamer", 15),
        ])
    );
}

#[test]
fn single_color_modes_are_the_catalogue() {
    let modes = get_single_color_modes();
    assert_eq!(modes.len(), 20);
    assert_eq!(
        pairs(&modes),
        expect(&[
            ("Custom", 2),
            ("Ambilight", 7),
            ("Breathing", 3),
            ("Brilliant Point", 9),
            ("Diagonal Transformation", 19),
            ("Drippling Ripples", 8),
            ("Flash Away", 10),
            ("Marquee Effect", 14),
            ("Neon Stream", 5),
            ("Press And Destroy", 4),
            ("Retro Snake", 18),
            ("Rich And Honored", 13),
            ("Ripples Shining", 12),
            ("Rotating Storm", 15),
            ("Serpentine Horse Race", 16),
            ("Shadow Disappear", 11),
            ("Sine Wave", 20),
            ("Stars Twinkle", 17),
            ("Steady", 1),
            ("Streamer", 6),
        ])
    );
}

#[test]
fn rgb_effects_after_custom_are_in_label_order() {
    let modes = get_rgb_modes();
    assert_eq!(modes[0].name, "Custom");
    for w in modes[1..].windows(2) {
        assert!(w[0].name < w[1].name);
    }
}

#[test]
fn single_color_effects_after_custom_are_in_label_order() {
    let modes = get_single_color_modes();
    assert_eq!(modes[0].name, "Custom");
    assert_eq!(modes[0].mode_bit, 2);
    for w in modes[1..].windows(2) {
        assert!(w[0].name < w[1].name);
    }
}

#[test]
fn custom_stands_first_in_each_catalogue() {
    for family in [true, false] {
        let modes = list_modes(family);
        assert!(is_custom_mode(modes[0].mode_bit, family));
        assert!(modes[1..].iter().all(|m| !is_custom_mode(m.mode_bit, family)));
    }
}

#[test]
fn codes_are_distinct_within_a_family() {
    for family in [true, false] {
        let modes = list_modes(family);
        for i in 0..modes.len() {
            for j in 0..i {
                assert_ne!(modes[i].mode_bit, modes[j].mode_bit);
            }
        }
    }
}

#[test]
fn list_modes_selects_the_family() {
    assert_eq!(list_modes(true), get_rgb_modes());
    assert_eq!(list_modes(false), get_single_color_modes());
}

#[test]
fn steady_has_a_code_per_family() {
    assert_eq!(RgbMode::Steady.code(), 16);
    assert_eq!(SingleColorMode::Steady.code(), 1);
    assert_eq!(RgbMode::Steady.label(), "Steady");
    assert_eq!(SingleColorMode::Steady.label(), "Steady");
}

#[test]
fn custom_codes_of_the_families() {
    assert_eq!(RgbMode::Custom.code(), 0);
    assert_eq!(SingleColorMode::Custom.code(), 2);
    assert_eq!(RgbMode::FlashAway.code(), 20);
    assert_eq!(SingleColorMode::SineWave.code(), 20);
}

#[test]
fn to_mode_pairs_label_and_code() {
    let m = RgbMode::NeonStream.to_mode();
    assert_eq!(m, Mode { name: "Neon Stream".to_string(), mode_bit: 1 });
    let s = SingleColorMode::PressAndDestroy.to_mode();
    assert_eq!(s, Mode { name: "Press And Destroy".to_string(), mode_bit: 4 });
}

#[test]
fn zero_is_custom_only_on_rgb() {
    assert!(is_custom_mode(0, true));
    assert!(!is_custom_mode(0, false));
}

#[test]
fn two_is_custom_only_on_single_color() {
    assert!(is_custom_mode(2, false));
    assert!(!is_custom_mode(2, true));
}

#[test]
fn exactly_one_code_is_custom_per_family() {
    for code in 0..=255u8 {
        assert_eq!(is_custom_mode(code, true), code == 0);
        assert_eq!(is_custom_mode(code, false), code == 2);
    }
}

#[test]
fn the_custom_entry_of_each_catalogue_is_the_custom_code() {
    for family in [true, false] {
        for m in list_modes(family) {
            assert_eq!(is_custom_mode(m.mode_bit, family), m.name == "Custom");
        }
    }
}
