use keyboard_frames::models::{
    KeyCode, KeyDescriptor, KeyMapping, KeyMappingConfig, Keyboard, KeyboardConfig,
    LightModeConfig, PerKeyColor, Rgb,
};
use keyboard_frames::protocol::{
    build_buffers, build_custom_light_buffers, build_key_mapping_buffers,
    build_standard_light_buffer, pack_table, set_buffer_key, EncodingError, COLOR_TABLE_SIZE,
    CUSTOM_LIGHT_FRAMES, FRAME_SIZE, KEY_MAP_FRAMES, KEY_TABLE_SIZE,
};

fn keyboard(rgb: bool, key_map_enabled: bool, keys: &[(u8, u32)]) -> Keyboard {
    Keyboard {
        rgb,
        key_map_enabled,
        keys: keys
            .iter()
            .map(|(i, c)| KeyDescriptor { buffer_index: *i, key_code: KeyCode::from_u32(*c) })
            .collect(),
    }
}

fn light(mode_bit: u8, colors: Option<&[(u8, u8, u8, u8)]>) -> LightModeConfig {
    LightModeConfig {
        mode_bit,
        animation: 3,
        brightness: 4,
        color: Some(Rgb { r: 0x11, g: 0x22, b: 0x33 }),
        random_colors: false,
        sleep: 5,
        custom_colors: colors.map(|list| {
            list.iter()
                .map(|(i, r, g, b)| PerKeyColor {
                    buffer_index: *i,
                    color: Rgb { r: *r, g: *g, b: *b },
                })
                .collect()
        }),
    }
}

fn mapping(list: &[(u8, u32)]) -> KeyMappingConfig {
    KeyMappingConfig {
        mappings: list
            .iter()
            .map(|(i, c)| KeyMapping { buffer_index: *i, key_code: KeyCode::from_u32(*c) })
            .collect(),
    }
}

fn slot(code: u32) -> Vec<u8> {
    let mut buffer = vec![0xeeu8; 4];
    set_buffer_key(&mut buffer, KeyCode::from_u32(code));
    buffer
}

/// The bytes that the frames carry behind their headers, in order.
fn payload(frames: &[Vec<u8>], first_header: usize) -> Vec<u8> {
    let mut out = Vec::new();
    for (i, f) in frames.iter().enumerate() {
        let from = if i == 0 { first_header } else { 3 };
        out.extend_from_slice(&f[from..]);
    }
    out
}

#[test]
fn sizes_are_those_of_the_protocol() {
    assert_eq!(FRAME_SIZE, 65);
    assert_eq!(CUSTOM_LIGHT_FRAMES, 7);
    assert_eq!(KEY_MAP_FRAMES, 9);
    assert_eq!(COLOR_TABLE_SIZE, 7 * 65);
    assert_eq!(KEY_TABLE_SIZE, 9 * 65);
}

#[test]
fn key_code_round_trips() {
    assert_eq!(KeyCode::from_u32(0x41).to_u32(), 0x41);
    assert_eq!(KeyCode::from_u32(u32::MAX).to_u32(), u32::MAX);
}

#[test]
fn one_byte_key_code_is_right_justified() {
    assert_eq!(slot(0x41), vec![0x00, 0x00, 0x00, 0x41]);
}

#[test]
fn three_byte_key_code_is_right_justified() {
    assert_eq!(slot(0x0001F600), vec![0x00, 0x01, 0xF6, 0x00]);
}

#[test]
fn key_code_thresholds() {
    assert_eq!(slot(0), vec![0, 0, 0, 0]);
    assert_eq!(slot(0xff), vec![0, 0, 0, 0xff]);
    assert_eq!(slot(0x100), vec![0, 0, 0x01, 0x00]);
    assert_eq!(slot(0xffff), vec![0, 0, 0xff, 0xff]);
    assert_eq!(slot(0x10000), vec![0, 0x01, 0x00, 0x00]);
    assert_eq!(slot(0xffffff), vec![0, 0xff, 0xff, 0xff]);
    assert_eq!(slot(0x1000000), vec![0x01, 0x00, 0x00, 0x00]);
    assert_eq!(slot(0x12345678), vec![0x12, 0x34, 0x56, 0x78]);
    assert_eq!(slot(u32::MAX), vec![0xff, 0xff, 0xff, 0xff]);
}

#[test]
fn key_code_is_big_endian_for_samples() {
    for code in [0u32, 1, 0x41, 0x1234, 0x0001F600, 0x00ABCDEF, 0x80000001, u32::MAX] {
        assert_eq!(slot(code), code.to_be_bytes().to_vec());
    }
}

#[test]
fn set_buffer_key_touches_only_its_slot() {
    let mut buffer = vec![0xaau8; 10];
    set_buffer_key(&mut buffer[3..], KeyCode::from_u32(0x01020304));
    assert_eq!(buffer, vec![0xaa, 0xaa, 0xaa, 1, 2, 3, 4, 0xaa, 0xaa, 0xaa]);
    set_buffer_key(&mut buffer[6..], KeyCode::from_u32(0x41));
    assert_eq!(buffer, vec![0xaa, 0xaa, 0xaa, 1, 2, 3, 0, 0, 0, 0x41]);
}

#[test]
fn standard_frame_layout() {
    let frame = build_standard_light_buffer(&light(16, None)).unwrap();
    let mut want = vec![0u8; 65];
    want[..14].copy_from_slice(&[
        0x0a, 0x01, 0x01, 0x02, 0x29, 16, 0x00, 3, 4, 0x11, 0x22, 0x33, 0x00, 5,
    ]);
    assert_eq!(frame, want);
}

#[test]
fn standard_frame_without_color_leaves_zero() {
    let config = LightModeConfig {
        mode_bit: 0xfe,
        animation: 0xf1,
        brightness: 0xf2,
        color: None,
        random_colors: true,
        sleep: 0xf3,
        custom_colors: None,
    };
    let frame = build_standard_light_buffer(&config).unwrap();
    let mut want = vec![0u8; 65];
    want[..14].copy_from_slice(&[
        0x0a, 0x01, 0x01, 0x02, 0x29, 0xfe, 0x00, 0xf1, 0xf2, 0, 0, 0, 0x01, 0xf3,
    ]);
    assert_eq!(frame, want);
}

#[test]
fn lighting_without_custom_colors_is_one_frame() {
    for (rgb, mode) in [(true, 16u8), (true, 2), (false, 0), (false, 1), (true, 255)] {
        let config = KeyboardConfig { light_mode: Some(light(mode, None)), key_mapping: None };
        let frames = build_buffers(&keyboard(rgb, true, &[(0, 0x41)]), &config).unwrap();
        assert_eq!(frames.len(), 1);
        assert_eq!(frames[0].len(), 65);
        assert_eq!(&frames[0][..5], &[0x0a, 0x01, 0x01, 0x02, 0x29]);
        assert_eq!(frames[0], build_standard_light_buffer(&light(mode, None)).unwrap());
    }
}

#[test]
fn built_in_mode_ignores_custom_colors() {
    let config =
        KeyboardConfig { light_mode: Some(light(16, Some(&[(0, 1, 2, 3)]))), key_mapping: None };
    let frames = build_buffers(&keyboard(true, false, &[]), &config).unwrap();
    assert_eq!(frames.len(), 1);
}

#[test]
fn empty_configuration_gives_no_frame() {
    let config = KeyboardConfig { light_mode: None, key_mapping: None };
    assert_eq!(build_buffers(&keyboard(true, true, &[(0, 1)]), &config), Ok(Vec::new()));
}

#[test]
fn custom_mode_without_colors_fails() {
    let config = KeyboardConfig { light_mode: Some(light(0, None)), key_mapping: None };
    assert_eq!(
        build_buffers(&keyboard(true, false, &[]), &config),
        Err(EncodingError::MissingCustomColors)
    );
    let single = KeyboardConfig {
        light_mode: Some(light(2, None)),
        key_mapping: Some(mapping(&[(0, 0x41)])),
    };
    assert_eq!(
        build_buffers(&keyboard(false, true, &[]), &single),
        Err(EncodingError::MissingCustomColors)
    );
}

#[test]
fn custom_frames_need_colors() {
    assert_eq!(
        build_custom_light_buffers(&keyboard(true, false, &[]), &light(0, None)),
        Err(EncodingError::MissingCustomColors)
    );
}

#[test]
fn error_messages() {
    assert_eq!(EncodingError::MissingCustomColors.message(), "Custom colors not provided");
    assert_eq!(EncodingError::MissingColor.message(), "Color not provided");
}

#[test]
fn custom_frames_follow_the_standard_frame() {
    let colors = [(0u8, 0xa1u8, 0xa2u8, 0xa3u8), (1, 0xb1, 0xb2, 0xb3)];
    for (rgb, mode) in [(true, 0u8), (false, 2)] {
        let config =
            KeyboardConfig { light_mode: Some(light(mode, Some(&colors))), key_mapping: None };
        let frames = build_buffers(&keyboard(rgb, false, &[]), &config).unwrap();
        assert_eq!(frames.len(), 8);
        assert_eq!(&frames[0][..5], &[0x0a, 0x01, 0x01, 0x02, 0x29]);
        assert_eq!(frames[0][5], mode);
        for f in &frames {
            assert_eq!(f.len(), 65);
        }
        assert_eq!(&frames[1][..6], &[0x0a, 0x07, 0x01, 0x03, 0x7e, 0x01]);
        for i in 1..7usize {
            assert_eq!(&frames[1 + i][..3], &[0x0a, 0x07, (i + 1) as u8]);
        }
        assert_eq!(&frames[1][6..12], &[0xa1, 0xa2, 0xa3, 0xb1, 0xb2, 0xb3]);
        assert!(frames[1][12..].iter().all(|b| *b == 0));
        for f in &frames[2..] {
            assert!(f[3..].iter().all(|b| *b == 0));
        }
    }
}

#[test]
fn custom_table_is_consumed_in_sequence() {
    let colors: Vec<(u8, u8, u8, u8)> =
        (0..=150u8).map(|i| (i, i, i.wrapping_add(100), i.wrapping_mul(3))).collect();
    let frames =
        build_custom_light_buffers(&keyboard(true, false, &[]), &light(0, Some(&colors))).unwrap();
    assert_eq!(frames.len(), 7);
    let mut table = vec![0u8; 455];
    for (i, r, g, b) in &colors {
        let at = *i as usize * 3;
        table[at] = *r;
        table[at + 1] = *g;
        table[at + 2] = *b;
    }
    let sent = payload(&frames, 6);
    assert_eq!(sent.len(), 59 + 6 * 62);
    assert_eq!(sent, table[..431].to_vec());
}

#[test]
fn color_that_straddles_two_frames() {
    let frames = build_custom_light_buffers(
        &keyboard(true, false, &[]),
        &light(0, Some(&[(19, 0xc1, 0xc2, 0xc3)])),
    )
    .unwrap();
    assert_eq!(frames[0][63], 0xc1);
    assert_eq!(frames[0][64], 0xc2);
    assert_eq!(frames[1][3], 0xc3);
    assert_eq!(frames[1][4], 0);
}

#[test]
fn last_transmitted_color_bytes() {
    let frames = build_custom_light_buffers(
        &keyboard(true, false, &[]),
        &light(0, Some(&[(143, 0xd1, 0xd2, 0xd3), (144, 0xe1, 0xe2, 0xe3)])),
    )
    .unwrap();
    assert_eq!(frames[6][63], 0xd1);
    assert_eq!(frames[6][64], 0xd2);
    assert!(frames.iter().all(|f| !f.contains(&0xd3) && !f.contains(&0xe1)));
}

#[test]
fn later_color_for_a_position_stays() {
    let frames = build_custom_light_buffers(
        &keyboard(true, false, &[]),
        &light(0, Some(&[(2, 1, 2, 3), (5, 9, 9, 9), (2, 7, 8, 9)])),
    )
    .unwrap();
    assert_eq!(&frames[0][12..15], &[7, 8, 9]);
    assert_eq!(&frames[0][21..24], &[9, 9, 9]);
}

#[test]
fn out_of_range_color_is_dropped() {
    let kept = [(0u8, 1u8, 2u8, 3u8), (20, 4, 5, 6), (142, 7, 8, 9)];
    let with_dropped = [
        (151u8, 0xf1u8, 0xf2u8, 0xf3u8),
        (0, 1, 2, 3),
        (255, 0xf4, 0xf5, 0xf6),
        (20, 4, 5, 6),
        (200, 0xf7, 0xf8, 0xf9),
        (142, 7, 8, 9),
        (152, 0xfa, 0xfb, 0xfc),
    ];
    let kb = keyboard(true, false, &[]);
    let a = build_custom_light_buffers(&kb, &light(0, Some(&kept))).unwrap();
    let b = build_custom_light_buffers(&kb, &light(0, Some(&with_dropped))).unwrap();
    assert_eq!(a, b);
    assert_eq!(&b[0][6..9], &[1, 2, 3]);
    assert_eq!(&b[1][4..7], &[4, 5, 6]);
    assert_eq!(&b[6][60..63], &[7, 8, 9]);
}

#[test]
fn only_out_of_range_colors_give_an_empty_table() {
    let kb = keyboard(true, false, &[]);
    let none = build_custom_light_buffers(&kb, &light(0, Some(&[]))).unwrap();
    let dropped =
        build_custom_light_buffers(&kb, &light(0, Some(&[(151, 9, 9, 9), (255, 8, 8, 8)])))
            .unwrap();
    assert_eq!(none, dropped);
    assert!(payload(&dropped, 6).iter().all(|b| *b == 0));
}

#[test]
fn key_mapping_frames_layout() {
    let kb = keyboard(true, true, &[(0, 0x41), (1, 0x0001F600), (15, 0x01020304)]);
    let frames = build_key_mapping_buffers(&kb, &mapping(&[])).unwrap();
    assert_eq!(frames.len(), 9);
    for f in &frames {
        assert_eq!(f.len(), 65);
    }
    assert_eq!(&frames[0][..5], &[0x0a, 0x09, 0x01, 0x01, 0xf8]);
    for i in 1..9usize {
        assert_eq!(&frames[i][..3], &[0x0a, 0x09, (i + 1) as u8]);
    }
    assert_eq!(&frames[0][5..13], &[0, 0, 0, 0x41, 0, 0x01, 0xF6, 0]);
    assert_eq!(&frames[1][3..7], &[1, 2, 3, 4]);
}

#[test]
fn key_table_is_consumed_in_sequence() {
    let keys: Vec<(u8, u32)> = (0..=145u8).map(|i| (i, 0x01000000 + i as u32 * 0x010203)).collect();
    let frames = build_key_mapping_buffers(&keyboard(true, true, &keys), &mapping(&[])).unwrap();
    let mut table = Vec::new();
    for (_, code) in &keys {
        table.extend_from_slice(&code.to_be_bytes());
    }
    let sent = payload(&frames, 5);
    assert_eq!(sent.len(), 60 + 8 * 62);
    assert_eq!(sent, table[..556].to_vec());
}

#[test]
fn override_wins_over_factory_default() {
    let kb = keyboard(true, true, &[(0, 0x41), (1, 0x42), (2, 0x43)]);
    let config = KeyboardConfig { light_mode: None, key_mapping: Some(mapping(&[(1, 0x0001F600)])) };
    let frames = build_buffers(&kb, &config).unwrap();
    assert_eq!(frames.len(), 9);
    assert_eq!(&frames[0][5..9], &[0, 0, 0, 0x41]);
    assert_eq!(&frames[0][9..13], &[0, 0x01, 0xF6, 0]);
    assert_eq!(&frames[0][13..17], &[0, 0, 0, 0x43]);
}

#[test]
fn override_clears_wider_default() {
    let kb = keyboard(true, true, &[(3, 0xAABBCCDD)]);
    let frames = build_key_mapping_buffers(&kb, &mapping(&[(3, 0x07)])).unwrap();
    assert_eq!(&frames[0][17..21], &[0, 0, 0, 0x07]);
}

#[test]
fn last_override_for_a_position_stays() {
    let kb = keyboard(true, true, &[(4, 0x10)]);
    let frames =
        build_key_mapping_buffers(&kb, &mapping(&[(4, 0x20), (5, 0x99), (4, 0x30)])).unwrap();
    assert_eq!(&frames[0][21..25], &[0, 0, 0, 0x30]);
    assert_eq!(&frames[0][25..29], &[0, 0, 0, 0x99]);
}

#[test]
fn out_of_range_key_positions_are_dropped() {
    let kb = keyboard(true, true, &[(0, 0x41), (146, 0xffffffff), (255, 0xffffffff)]);
    let plain = keyboard(true, true, &[(0, 0x41)]);
    let with = build_key_mapping_buffers(&kb, &mapping(&[(200, 0xeeeeeeee), (1, 0x42)])).unwrap();
    let without = build_key_mapping_buffers(&plain, &mapping(&[(1, 0x42)])).unwrap();
    assert_eq!(with, without);
}

#[test]
fn last_transmitted_key_slot() {
    let kb = keyboard(true, true, &[(138, 0x0a0b0c0d), (139, 0x1a1b1c1d)]);
    let frames = build_key_mapping_buffers(&kb, &mapping(&[])).unwrap();
    assert_eq!(&frames[8][61..65], &[0x0a, 0x0b, 0x0c, 0x0d]);
    assert!(frames.iter().all(|f| !f.contains(&0x1a)));
}

#[test]
fn key_mapping_needs_the_capability() {
    let config = KeyboardConfig {
        light_mode: Some(light(16, None)),
        key_mapping: Some(mapping(&[(1, 0x42)])),
    };
    let frames = build_buffers(&keyboard(true, false, &[(0, 0x41)]), &config).unwrap();
    assert_eq!(frames.len(), 1);
    let none = KeyboardConfig { light_mode: None, key_mapping: None };
    assert_eq!(build_buffers(&keyboard(true, true, &[(0, 0x41)]), &none).unwrap().len(), 0);
}

#[test]
fn standard_and_key_mapping_give_ten_frames() {
    let config = KeyboardConfig {
        light_mode: Some(light(16, None)),
        key_mapping: Some(mapping(&[(1, 0x42)])),
    };
    let frames = build_buffers(&keyboard(true, true, &[(0, 0x41)]), &config).unwrap();
    assert_eq!(frames.len(), 10);
    assert_eq!(&frames[0][..5], &[0x0a, 0x01, 0x01, 0x02, 0x29]);
    assert_eq!(&frames[1][..5], &[0x0a, 0x09, 0x01, 0x01, 0xf8]);
}

#[test]
fn all_sections_give_seventeen_frames_in_order() {
    let kb = keyboard(true, true, &[(0, 0x41)]);
    let l = light(0, Some(&[(0, 1, 2, 3)]));
    let m = mapping(&[(0, 0x42)]);
    let config = KeyboardConfig { light_mode: Some(l.clone()), key_mapping: Some(m.clone()) };
    let frames = build_buffers(&kb, &config).unwrap();
    assert_eq!(frames.len(), 17);
    assert!(frames.iter().all(|f| f.len() == 65));
    assert_eq!(frames[0], build_standard_light_buffer(&l).unwrap());
    assert_eq!(frames[1..8].to_vec(), build_custom_light_buffers(&kb, &l).unwrap());
    assert_eq!(frames[8..].to_vec(), build_key_mapping_buffers(&kb, &m).unwrap());
    assert_eq!(&frames[8][5..9], &[0, 0, 0, 0x42]);
}

#[test]
fn building_twice_gives_the_same_bytes() {
    let kb = keyboard(false, true, &[(0, 0x41), (7, 0x0001F600)]);
    let config = KeyboardConfig {
        light_mode: Some(light(2, Some(&[(3, 1, 2, 3), (200, 4, 5, 6)]))),
        key_mapping: Some(mapping(&[(7, 0x99), (250, 1)])),
    };
    let first = build_buffers(&kb, &config);
    let second = build_buffers(&kb.clone(), &config.clone());
    assert_eq!(first, second);
    assert_eq!(first.unwrap().len(), 17);
}

#[test]
fn pack_table_fills_with_zero_beyond_the_table() {
    let table: Vec<u8> = (1..=70u8).collect();
    let frames = pack_table(&table, 3, &vec![0xaa, 0xbb]);
    assert_eq!(frames.len(), 3);
    assert_eq!(&frames[0][..5], &[0x0a, 3, 1, 0xaa, 0xbb]);
    assert_eq!(frames[0][5..].to_vec(), (1..=60u8).collect::<Vec<u8>>());
    assert_eq!(&frames[1][..3], &[0x0a, 3, 2]);
    assert_eq!(frames[1][3..13].to_vec(), (61..=70u8).collect::<Vec<u8>>());
    assert!(frames[1][13..].iter().all(|b| *b == 0));
    assert_eq!(&frames[2][..3], &[0x0a, 3, 3]);
    assert!(frames[2][3..].iter().all(|b| *b == 0));
}

#[test]
fn pack_table_edge_cases() {
    assert_eq!(pack_table(&vec![1, 2, 3], 0, &Vec::new()), Vec::<Vec<u8>>::new());
    let full_lead: Vec<u8> = (100..162u8).collect();
    let frames = pack_table(&vec![1, 2, 3], 2, &full_lead);
    assert_eq!(&frames[0][..3], &[0x0a, 2, 1]);
    assert_eq!(frames[0][3..].to_vec(), full_lead);
    assert_eq!(&frames[1][..6], &[0x0a, 2, 2, 1, 2, 3]);
    let no_lead = pack_table(&vec![9; 200], 255, &Vec::new());
    assert_eq!(no_lead.len(), 255);
    assert_eq!(no_lead[254][2], 255);
    assert_eq!(no_lead[3][3..17].to_vec(), vec![9u8; 14]);
    assert_eq!(no_lead[3][17], 0);
}
