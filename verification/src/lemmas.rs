//! What holds of the encoding for every keyboard and every configuration.

use vstd::prelude::*;
use crate::models::{
    KeyDescriptor, KeyMapping, Keyboard, KeyboardConfig, LightModeConfig, PerKeyColor,
};
use crate::modes::{
    catalog, differs_at, effects_ascend, is_custom, label_before, rgb_order, single_color_order, RgbMode,
    SingleColorMode,
};
use crate::protocol::{
    byte_or_zero, enter_keys, key_entries, mapping_entries, KeyEntry, color_table, custom_light_frames, encoded,
    frame_header, key_code_bytes, key_mapping_frames, key_table, light_section, mapping_section,
    packed_frame, packed_frames, payload_start, put_color, sends_key_mapping,
    standard_light_frame, zeros, EncodingError, COLOR_TABLE_SIZE, CUSTOM_LIGHT_FRAMES,
    FRAME_SIZE, KEY_MAP_FRAMES, KEY_TABLE_SIZE,
};

verus! {

/// The place of a mode in the multi-colour catalogue.
pub open spec fn rgb_position(mode: RgbMode) -> int {
    match mode {
        RgbMode::Custom => 0,
        RgbMode::Ambilight => 1,
        RgbMode::Breathing => 2,
        RgbMode::DiagonalTransformation => 3,
        RgbMode::FlashAway => 4,
        RgbMode::LayerUponLayer => 5,
        RgbMode::MarqueeEffect => 6,
        RgbMode::Neon => 7,
        RgbMode::NeonStream => 8,
        RgbMode::RainbowRoulette => 9,
        RgbMode::RetroSnake => 10,
        RgbMode::RichAndHonored => 11,
        RgbMode::RipplesShining => 12,
        RgbMode::RotatingStorm => 13,
        RgbMode::RotatingWindmill => 14,
        RgbMode::SerpentineHorseRace => 15,
        RgbMode::ShadowDisappear => 16,
        RgbMode::SineWave => 17,
        RgbMode::StarsTwinkle => 18,
        RgbMode::Steady => 19,
        RgbMode::Streamer => 20,
    }
}

/// The place of a mode in the single-colour catalogue.
pub open spec fn single_color_position(mode: SingleColorMode) -> int {
    match mode {
        SingleColorMode::Custom => 0,
        SingleColorMode::Ambilight => 1,
        SingleColorMode::Breathing => 2,
        SingleColorMode::BrilliantPoint => 3,
        SingleColorMode::DiagonalTransformation => 4,
        SingleColorMode::DripplingRipples => 5,
        SingleColorMode::FlashAway => 6,
        SingleColorMode::MarqueeEffect => 7,
        SingleColorMode::NeonStream => 8,
        SingleColorMode::PressAndDestroy => 9,
        SingleColorMode::RetroSnake => 10,
        SingleColorMode::RichAndHonored => 11,
        SingleColorMode::RipplesShining => 12,
        SingleColorMode::RotatingStorm => 13,
        SingleColorMode::SerpentineHorseRace => 14,
        SingleColorMode::ShadowDisappear => 15,
        SingleColorMode::SineWave => 16,
        SingleColorMode::StarsTwinkle => 17,
        SingleColorMode::Steady => 18,
        SingleColorMode::Streamer => 19,
    }
}

/// No two modes of the multi-colour family share a protocol code.
pub proof fn lemma_rgb_codes_are_distinct(a: RgbMode, b: RgbMode)
    requires
        a.code_spec() == b.code_spec(),
    ensures
        a == b,
{
}

/// No two modes of the single-colour family share a protocol code.
pub proof fn lemma_single_color_codes_are_distinct(a: SingleColorMode, b: SingleColorMode)
    requires
        a.code_spec() == b.code_spec(),
    ensures
        a == b,
{
}

/// Each catalogue offers every mode of its family, and holds the family's
/// custom mode at exactly one place, the first.
pub proof fn lemma_catalog_holds_one_custom_mode(is_rgb: bool, i: int)
    requires
        0 <= i < catalog(is_rgb).len(),
    ensures
        catalog(is_rgb).len() == (if is_rgb { 21int } else { 20int }),
        is_custom(catalog(is_rgb)[i].mode_bit, is_rgb) <==> i == 0,
        forall|m: RgbMode| rgb_order().contains(m),
        forall|m: SingleColorMode| single_color_order().contains(m),
{
    assert forall|m: RgbMode| rgb_order().contains(m) by {
        assert(rgb_order()[rgb_position(m)] == m);
    }
    assert forall|m: SingleColorMode| single_color_order().contains(m) by {
        assert(single_color_order()[single_color_position(m)] == m);
    }
}

/// The built-in effects of the multi-colour catalogue, which follow the
/// custom mode, stand in the order of their labels.
pub proof fn lemma_rgb_effects_are_in_label_order(i: int)
    requires
        1 <= i < 20,
    ensures
        label_before(catalog(true)[i].name, catalog(true)[i + 1].name),
{
    if i == 1 {
        reveal_strlit("Ambilight");
        reveal_strlit("Breathing");
        assert("Ambilight"@.take(0) =~= "Breathing"@.take(0));
        assert(differs_at("Ambilight"@, "Breathing"@, 0));
    } else if i == 2 {
        reveal_strlit("Breathing");
        reveal_strlit("Diagonal Transformation");
        assert("Breathing"@.take(0) =~= "Diagonal Transformation"@.take(0));
        assert(differs_at("Breathing"@, "Diagonal Transformation"@, 0));
    } else if i == 3 {
        reveal_strlit("Diagonal Transformation");
        reveal_strlit("Flash Away");
        assert("Diagonal Transformation"@.take(0) =~= "Flash Away"@.take(0));
        assert(differs_at("Diagonal Transformation"@, "Flash Away"@, 0));
    } else if i == 4 {
        reveal_strlit("Flash Away");
        reveal_strlit("Layer Upon Layer");
        assert("Flash Away"@.take(0) =~= "Layer Upon Layer"@.take(0));
        assert(differs_at("Flash Away"@, "Layer Upon Layer"@, 0));
    } else if i == 5 {
        reveal_strlit("Layer Upon Layer");
        reveal_strlit("Marquee Effect");
        assert("Layer Upon Layer"@.take(0) =~= "Marquee Effect"@.take(0));
        assert(differs_at("Layer Upon Layer"@, "Marquee Effect"@, 0));
    } else if i == 6 {
        reveal_strlit("Marquee Effect");
        reveal_strlit("Neon");
        assert("Marquee Effect"@.take(0) =~= "Neon"@.take(0));
        assert(differs_at("Marquee Effect"@, "Neon"@, 0));
    } else if i == 7 {
        reveal_strlit("Neon");
        reveal_strlit("Neon Stream");
        assert("Neon"@.take(4) =~= "Neon Stream"@.take(4));
        assert(differs_at("Neon"@, "Neon Stream"@, 4));
    } else if i == 8 {
        reveal_strlit("Neon Stream");
        reveal_strlit("Rainbow Roulette");
        assert("Neon Stream"@.take(0) =~= "Rainbow Roulette"@.take(0));
        assert(differs_at("Neon Stream"@, "Rainbow Roulette"@, 0));
    } else if i == 9 {
        reveal_strlit("Rainbow Roulette");
        reveal_strlit("Retro Snake");
        assert("Rainbow Roulette"@.take(1) =~= "Retro Snake"@.take(1));
        assert(differs_at("Rainbow Roulette"@, "Retro Snake"@, 1));
    } else if i == 10 {
        reveal_strlit("Retro Snake");
        reveal_strlit("Rich And Honored");
        assert("Retro Snake"@.take(1) =~= "Rich And Honored"@.take(1));
        assert(differs_at("Retro Snake"@, "Rich And Honored"@, 1));
    } else if i == 11 {
        reveal_strlit("Rich And Honored");
        reveal_strlit("Ripples Shining");
        assert("Rich And Honored"@.take(2) =~= "Ripples Shining"@.take(2));
        assert(differs_at("Rich And Honored"@, "Ripples Shining"@, 2));
    } else if i == 12 {
        reveal_strlit("Ripples Shining");
        reveal_strlit("Rotating Storm");
        assert("Ripples Shining"@.take(1) =~= "Rotating Storm"@.take(1));
        assert(differs_at("Ripples Shining"@, "Rotating Storm"@, 1));
    } else if i == 13 {
        reveal_strlit("Rotating Storm");
        reveal_strlit("Rotating Windmill");
        assert("Rotating Storm"@.take(9) =~= "Rotating Windmill"@.take(9));
        assert(differs_at("Rotating Storm"@, "Rotating Windmill"@, 9));
    } else if i == 14 {
        reveal_strlit("Rotating Windmill");
        reveal_strlit("Serpentine Horse Race");
        assert("Rotating Windmill"@.take(0) =~= "Serpentine Horse Race"@.take(0));
        assert(differs_at("Rotating Windmill"@, "Serpentine Horse Race"@, 0));
    } else if i == 15 {
        reveal_strlit("Serpentine Horse Race");
        reveal_strlit("Shadow Disappear");
        assert("Serpentine Horse Race"@.take(1) =~= "Shadow Disappear"@.take(1));
        assert(differs_at("Serpentine Horse Race"@, "Shadow Disappear"@, 1));
    } else if i == 16 {
        reveal_strlit("Shadow Disappear");
        reveal_strlit("Sine Wave");
        assert("Shadow Disappear"@.take(1) =~= "Sine Wave"@.take(1));
        assert(differs_at("Shadow Disappear"@, "Sine Wave"@, 1));
    } else if i == 17 {
        reveal_strlit("Sine Wave");
        reveal_strlit("Stars Twinkle");
        assert("Sine Wave"@.take(1) =~= "Stars Twinkle"@.take(1));
        assert(differs_at("Sine Wave"@, "Stars Twinkle"@, 1));
    } else if i == 18 {
        reveal_strlit("Stars Twinkle");
        reveal_strlit("Steady");
        assert("Stars Twinkle"@.take(2) =~= "Steady"@.take(2));
        assert(differs_at("Stars Twinkle"@, "Steady"@, 2));
    } else if i == 19 {
        reveal_strlit("Steady");
        reveal_strlit("Streamer");
        assert("Steady"@.take(2) =~= "Streamer"@.take(2));
        assert(differs_at("Steady"@, "Streamer"@, 2));
    }
}

/// The built-in effects of the single-colour catalogue, which follow the
/// custom mode, stand in the order of their labels.
pub proof fn lemma_single_color_effects_are_in_label_order(i: int)
    requires
        1 <= i < 19,
    ensures
        label_before(catalog(false)[i].name, catalog(false)[i + 1].name),
{
    if i == 1 {
        reveal_strlit("Ambilight");
        reveal_strlit("Breathing");
        assert("Ambilight"@.take(0) =~= "Breathing"@.take(0));
        assert(differs_at("Ambilight"@, "Breathing"@, 0));
    } else if i == 2 {
        reveal_strlit("Breathing");
        reveal_strlit("Brilliant Point");
        assert("Breathing"@.take(2) =~= "Brilliant Point"@.take(2));
        assert(differs_at("Breathing"@, "Brilliant Point"@, 2));
    } else if i == 3 {
        reveal_strlit("Brilliant Point");
        reveal_strlit("Diagonal Transformation");
        assert("Brilliant Point"@.take(0) =~= "Diagonal Transformation"@.take(0));
        assert(differs_at("Brilliant Point"@, "Diagonal Transformation"@, 0));
    } else if i == 4 {
        reveal_strlit("Diagonal Transformation");
        reveal_strlit("Drippling Ripples");
        assert("Diagonal Transformation"@.take(1) =~= "Drippling Ripples"@.take(1));
        assert(differs_at("Diagonal Transformation"@, "Drippling Ripples"@, 1));
    } else if i == 5 {
        reveal_strlit("Drippling Ripples");
        reveal_strlit("Flash Away");
        assert("Drippling Ripples"@.take(0) =~= "Flash Away"@.take(0));
        assert(differs_at("Drippling Ripples"@, "Flash Away"@, 0));
    } else if i == 6 {
        reveal_strlit("Flash Away");
        reveal_strlit("Marquee Effect");
        assert("Flash Away"@.take(0) =~= "Marquee Effect"@.take(0));
        assert(differs_at("Flash Away"@, "Marquee Effect"@, 0));
    } else if i == 7 {
        reveal_strlit("Marquee Effect");
        reveal_strlit("Neon Stream");
        assert("Marquee Effect"@.take(0) =~= "Neon Stream"@.take(0));
        assert(differs_at("Marquee Effect"@, "Neon Stream"@, 0));
    } else if i == 8 {
        reveal_strlit("Neon Stream");
        reveal_strlit("Press And Destroy");
        assert("Neon Stream"@.take(0) =~= "Press And Destroy"@.take(0));
        assert(differs_at("Neon Stream"@, "Press And Destroy"@, 0));
    } else if i == 9 {
        reveal_strlit("Press And Destroy");
        reveal_strlit("Retro Snake");
        assert("Press And Destroy"@.take(0) =~= "Retro Snake"@.take(0));
        assert(differs_at("Press And Destroy"@, "Retro Snake"@, 0));
    } else if i == 10 {
        reveal_strlit("Retro Snake");
        reveal_strlit("Rich And Honored");
        assert("Retro Snake"@.take(1) =~= "Rich And Honored"@.take(1));
        assert(differs_at("Retro Snake"@, "Rich And Honored"@, 1));
    } else if i == 11 {
        reveal_strlit("Rich And Honored");
        reveal_strlit("Ripples Shining");
        assert("Rich And Honored"@.take(2) =~= "Ripples Shining"@.take(2));
        assert(differs_at("Rich And Honored"@, "Ripples Shining"@, 2));
    } else if i == 12 {
        reveal_strlit("Ripples Shining");
        reveal_strlit("Rotating Storm");
        assert("Ripples Shining"@.take(1) =~= "Rotating Storm"@.take(1));
        assert(differs_at("Ripples Shining"@, "Rotating Storm"@, 1));
    } else if i == 13 {
        reveal_strlit("Rotating Storm");
        reveal_strlit("Serpentine Horse Race");
        assert("Rotating Storm"@.take(0) =~= "Serpentine Horse Race"@.take(0));
        assert(differs_at("Rotating Storm"@, "Serpentine Horse Race"@, 0));
    } else if i == 14 {
        reveal_strlit("Serpentine Horse Race");
        reveal_strlit("Shadow Disappear");
        assert("Serpentine Horse Race"@.take(1) =~= "Shadow Disappear"@.take(1));
        assert(differs_at("Serpentine Horse Race"@, "Shadow Disappear"@, 1));
    } else if i == 15 {
        reveal_strlit("Shadow Disappear");
        reveal_strlit("Sine Wave");
        assert("Shadow Disappear"@.take(1) =~= "Sine Wave"@.take(1));
        assert(differs_at("Shadow Disappear"@, "Sine Wave"@, 1));
    } else if i == 16 {
        reveal_strlit("Sine Wave");
        reveal_strlit("Stars Twinkle");
        assert("Sine Wave"@.take(1) =~= "Stars Twinkle"@.take(1));
        assert(differs_at("Sine Wave"@, "Stars Twinkle"@, 1));
    } else if i == 17 {
        reveal_strlit("Stars Twinkle");
        reveal_strlit("Steady");
        assert("Stars Twinkle"@.take(2) =~= "Steady"@.take(2));
        assert(differs_at("Stars Twinkle"@, "Steady"@, 2));
    } else if i == 18 {
        reveal_strlit("Steady");
        reveal_strlit("Streamer");
        assert("Steady"@.take(2) =~= "Streamer"@.take(2));
        assert(differs_at("Steady"@, "Streamer"@, 2));
    }
}

/// No label comes before itself.
pub proof fn lemma_label_before_is_strict(a: Seq<char>)
    ensures
        !label_before(a, a),
{
}

/// The order of labels is transitive.
pub proof fn lemma_label_before_is_transitive(a: Seq<char>, b: Seq<char>, c: Seq<char>)
    requires
        label_before(a, b),
        label_before(b, c),
    ensures
        label_before(a, c),
{
    let k1 = choose|k: int| differs_at(a, b, k);
    let k2 = choose|k: int| differs_at(b, c, k);
    let k = if k1 <= k2 { k1 } else { k2 };
    assert(a.take(k) =~= a.take(k1).take(k));
    assert(b.take(k) =~= b.take(k1).take(k));
    assert(b.take(k) =~= b.take(k2).take(k));
    assert(c.take(k) =~= c.take(k2).take(k));
    if k1 < k2 {
        assert(b.take(k2)[k1] == c.take(k2)[k1]);
    } else if k2 < k1 {
        assert(a.take(k1)[k2] == b.take(k1)[k2]);
    }
    assert(differs_at(a, c, k));
}

/// In each catalogue the built-in effects, which follow the custom mode,
/// ascend by label: of any two, the one that stands first has the label that
/// comes first.
pub proof fn lemma_effects_ascend_by_label(is_rgb: bool, i: int, j: int)
    requires
        1 <= i < j < catalog(is_rgb).len(),
    ensures
        label_before(catalog(is_rgb)[i].name, catalog(is_rgb)[j].name),
    decreases j - i,
{
    if is_rgb {
        lemma_rgb_effects_are_in_label_order(j - 1);
    } else {
        lemma_single_color_effects_are_in_label_order(j - 1);
    }
    if i < j - 1 {
        lemma_effects_ascend_by_label(is_rgb, i, j - 1);
        lemma_label_before_is_transitive(
            catalog(is_rgb)[i].name,
            catalog(is_rgb)[j - 1].name,
            catalog(is_rgb)[j].name,
        );
    }
}

/// Each catalogue holds its built-in effects in the order of their labels.
pub proof fn lemma_catalog_effects_ascend(is_rgb: bool)
    ensures
        effects_ascend(catalog(is_rgb)),
{
    assert forall|i: int, j: int| 1 <= i < j < catalog(is_rgb).len() implies label_before(
        #[trigger] catalog(is_rgb)[i].name,
        #[trigger] catalog(is_rgb)[j].name,
    ) by {
        lemma_effects_ascend_by_label(is_rgb, i, j);
    }
}

/// The four bytes of a key code are its digits to the base 256, most
/// significant first.
pub proof fn lemma_key_code_bytes_big_endian(code: u32)
    ensures
        key_code_bytes(code).len() == 4,
        code == key_code_bytes(code)[0] as int * 0x100_0000 + key_code_bytes(code)[1] as int
            * 0x1_0000 + key_code_bytes(code)[2] as int * 0x100 + key_code_bytes(code)[3] as int,
{
}

/// The table of per-key colours has its fixed size, whatever was entered.
pub proof fn lemma_color_table_len(colors: Seq<PerKeyColor>)
    ensures
        color_table(colors).len() == COLOR_TABLE_SIZE,
    decreases colors.len(),
{
    if colors.len() > 0 {
        lemma_color_table_len(colors.drop_last());
    }
}

/// Entering key codes keeps the table's size.
pub proof fn lemma_enter_keys_len(table: Seq<u8>, entries: Seq<KeyEntry>)
    ensures
        enter_keys(table, entries).len() == table.len(),
    decreases entries.len(),
{
    if entries.len() > 0 {
        lemma_enter_keys_len(table, entries.drop_last());
    }
}

/// The table of key codes has its fixed size, whatever was entered.
pub proof fn lemma_key_table_len(keys: Seq<KeyDescriptor>, mappings: Seq<KeyMapping>)
    ensures
        key_table(keys, mappings).len() == KEY_TABLE_SIZE,
{
    lemma_enter_keys_len(
        zeros(KEY_TABLE_SIZE as nat),
        key_entries(keys) + mapping_entries(mappings),
    );
}

/// A packed table is `count` frames of 65 bytes. The first starts with the
/// marker, the count, the number one and the lead; every other frame starts
/// with the marker, the count and its own number counted from one.
pub proof fn lemma_packed_frames_shape(table: Seq<u8>, count: u8, lead: Seq<u8>)
    requires
        lead.len() <= 62,
    ensures
        packed_frames(table, count, lead).len() == count,
        forall|i: int|
            0 <= i < count ==> (#[trigger] packed_frames(table, count, lead)[i]).len()
                == FRAME_SIZE,
        count > 0 ==> packed_frames(table, count, lead)[0].subrange(0, 3 + lead.len() as int) == seq![
            0x0au8,
            count,
            1u8,
        ] + lead,
        forall|i: int|
            0 < i < count ==> (#[trigger] packed_frames(table, count, lead)[i]).subrange(0, 3)
                == seq![0x0au8, count, (i + 1) as u8],
{
    if count > 0 {
        assert(packed_frames(table, count, lead)[0].subrange(0, 3 + lead.len() as int) =~= seq![
            0x0au8,
            count,
            1u8,
        ] + lead);
    }
    assert forall|i: int| 0 < i < count implies (#[trigger] packed_frames(
        table,
        count,
        lead,
    )[i]).subrange(0, 3) == seq![0x0au8, count, (i + 1) as u8] by {
        assert(packed_frames(table, count, lead)[i].subrange(0, 3) =~= seq![
            0x0au8,
            count,
            (i + 1) as u8,
        ]);
    }
}

/// The frames consume the table without a gap: each frame's first table byte
/// is the one after the last table byte of the frame before it.
pub proof fn lemma_payload_is_contiguous(count: u8, lead: Seq<u8>, i: int)
    requires
        0 <= i,
        lead.len() <= 62,
    ensures
        payload_start(lead.len() as int, i + 1) == payload_start(lead.len() as int, i)
            + FRAME_SIZE - frame_header(count, lead, i).len(),
{
}

/// Every byte of a frame behind its header is the table's byte at the
/// frame's place in the table, or zero beyond the table's end.
pub proof fn lemma_payload_bytes(table: Seq<u8>, count: u8, lead: Seq<u8>, i: int, j: int)
    requires
        0 <= i,
        lead.len() <= 62,
        frame_header(count, lead, i).len() <= j < FRAME_SIZE,
    ensures
        packed_frame(table, count, lead, i)[j] == byte_or_zero(
            table,
            payload_start(lead.len() as int, i) + j - frame_header(count, lead, i).len(),
        ),
{
}

/// The standard lighting frame is 65 bytes and starts with its fixed header.
pub proof fn lemma_standard_light_frame_shape(config: LightModeConfig)
    ensures
        standard_light_frame(config).len() == FRAME_SIZE,
        standard_light_frame(config).subrange(0, 5) == seq![
            0x0au8,
            0x01u8,
            0x01u8,
            0x02u8,
            0x29u8,
        ],
{
    assert(standard_light_frame(config).subrange(0, 5) =~= seq![
        0x0au8,
        0x01u8,
        0x01u8,
        0x02u8,
        0x29u8,
    ]);
}

/// The number of frames in the lighting part: none without a lighting
/// configuration, one for a built-in mode, eight for the custom mode.
pub open spec fn light_frame_count(keyboard: Keyboard, config: KeyboardConfig) -> int {
    match config.light_mode {
        None => 0,
        Some(l) => if is_custom(l.mode_bit, keyboard.rgb) {
            8
        } else {
            1
        },
    }
}

/// The number of frames in the key-assignment part: nine where it is sent.
pub open spec fn mapping_frame_count(keyboard: Keyboard, config: KeyboardConfig) -> int {
    if sends_key_mapping(keyboard, config) {
        9
    } else {
        0
    }
}

/// Encoding fails exactly where the family's custom mode is chosen without
/// per-key colours, and then with `MissingCustomColors`.
pub proof fn lemma_fails_only_without_custom_colors(keyboard: Keyboard, config: KeyboardConfig)
    ensures
        encoded(keyboard, config) is Err <==> config.light_mode is Some
            && config.light_mode->0.custom_colors is None
            && is_custom(config.light_mode->0.mode_bit, keyboard.rgb),
        encoded(keyboard, config) is Err
            ==> encoded(keyboard, config)->Err_0 == EncodingError::MissingCustomColors,
{
}

/// Where encoding succeeds, the output is the lighting part followed by nine
/// frames where the key assignment is sent, and every frame is 65 bytes.
pub proof fn lemma_frame_count(keyboard: Keyboard, config: KeyboardConfig)
    requires
        encoded(keyboard, config) is Ok,
    ensures
        encoded(keyboard, config)->Ok_0.len() == light_frame_count(keyboard, config)
            + mapping_frame_count(keyboard, config),
        forall|i: int|
            0 <= i < encoded(keyboard, config)->Ok_0.len()
                ==> (#[trigger] encoded(keyboard, config)->Ok_0[i]).len() == FRAME_SIZE,
{
    let all = encoded(keyboard, config)->Ok_0;
    let light = light_section(keyboard.rgb, config.light_mode)->Ok_0;
    let mapping = mapping_section(keyboard, config);
    if sends_key_mapping(keyboard, config) {
        lemma_packed_frames_shape(
            key_table(keyboard.keys@, config.key_mapping->0.mappings@),
            KEY_MAP_FRAMES,
            seq![0x01u8, 0xf8u8],
        );
    }
    match config.light_mode {
        None => {},
        Some(l) => {
            lemma_standard_light_frame_shape(l);
            if is_custom(l.mode_bit, keyboard.rgb) {
                lemma_packed_frames_shape(
                    color_table(l.colors()->0),
                    CUSTOM_LIGHT_FRAMES,
                    seq![0x03u8, 0x7eu8, 0x01u8],
                );
            }
        },
    }
    assert forall|i: int| 0 <= i < all.len() implies (#[trigger] all[i]).len() == FRAME_SIZE by {
        if i < light.len() {
            if i >= 1 {
                assert(light[i] == custom_light_frames(config.light_mode->0.colors()->0)[i - 1]);
            }
        } else {
            assert((light + mapping)[i] == mapping[i - light.len()]);
        }
    }
}

/// A lighting configuration with a built-in mode and no per-key colours, on
/// its own, is encoded as exactly one frame: the standard lighting frame, of
/// 65 bytes, with its fixed header.
pub proof fn lemma_plain_lighting_is_one_frame(keyboard: Keyboard, config: KeyboardConfig)
    requires
        config.light_mode is Some,
        config.light_mode->0.custom_colors is None,
        !is_custom(config.light_mode->0.mode_bit, keyboard.rgb),
        !sends_key_mapping(keyboard, config),
    ensures
        encoded(keyboard, config) is Ok,
        encoded(keyboard, config)->Ok_0 == seq![standard_light_frame(config.light_mode->0)],
        encoded(keyboard, config)->Ok_0.len() == 1,
        encoded(keyboard, config)->Ok_0[0].len() == FRAME_SIZE,
        encoded(keyboard, config)->Ok_0[0].subrange(0, 5) == seq![
            0x0au8,
            0x01u8,
            0x01u8,
            0x02u8,
            0x29u8,
        ],
{
    lemma_standard_light_frame_shape(config.light_mode->0);
    assert(encoded(keyboard, config)->Ok_0 =~= seq![standard_light_frame(config.light_mode->0)]);
}

/// Whenever lighting is configured and encoding succeeds, the first frame is
/// the standard lighting frame.
pub proof fn lemma_standard_frame_comes_first(keyboard: Keyboard, config: KeyboardConfig)
    requires
        config.light_mode is Some,
        encoded(keyboard, config) is Ok,
    ensures
        encoded(keyboard, config)->Ok_0.len() >= 1,
        encoded(keyboard, config)->Ok_0[0] == standard_light_frame(config.light_mode->0),
{
}

/// With the family's custom mode and per-key colours, the standard frame is
/// followed at once by the seven frames of per-key colours: each is 65 bytes,
/// the first starts with `0a 07 01 03 7e 01`, every other one with `0a 07` and
/// its own number counted from one.
pub proof fn lemma_custom_frames_follow_standard(keyboard: Keyboard, config: KeyboardConfig)
    requires
        config.light_mode is Some,
        config.light_mode->0.custom_colors is Some,
        is_custom(config.light_mode->0.mode_bit, keyboard.rgb),
    ensures
        encoded(keyboard, config) is Ok,
        encoded(keyboard, config)->Ok_0.len() == 8 + mapping_section(keyboard, config).len(),
        encoded(keyboard, config)->Ok_0.subrange(1, 8) == custom_light_frames(
            config.light_mode->0.colors()->0,
        ),
        forall|i: int|
            0 <= i < 7 ==> (#[trigger] encoded(keyboard, config)->Ok_0[1 + i]).len()
                == FRAME_SIZE,
        encoded(keyboard, config)->Ok_0[1].subrange(0, 6) == seq![
            0x0au8,
            0x07u8,
            0x01u8,
            0x03u8,
            0x7eu8,
            0x01u8,
        ],
        forall|i: int|
            0 < i < 7 ==> (#[trigger] encoded(keyboard, config)->Ok_0[1 + i]).subrange(0, 3)
                == seq![0x0au8, 0x07u8, (i + 1) as u8],
{
    let colors = config.light_mode->0.colors()->0;
    let custom = custom_light_frames(colors);
    let all = encoded(keyboard, config)->Ok_0;
    let lead = seq![0x03u8, 0x7eu8, 0x01u8];
    lemma_packed_frames_shape(color_table(colors), CUSTOM_LIGHT_FRAMES, lead);
    assert(all.subrange(1, 8) =~= custom);
    assert forall|i: int| 0 <= i < 7 implies #[trigger] all[1 + i] == custom[i] by {}
    assert(seq![0x0au8, 0x07u8, 1u8] + lead =~= seq![
        0x0au8,
        0x07u8,
        0x01u8,
        0x03u8,
        0x7eu8,
        0x01u8,
    ]);
    assert(all[1] == custom[0]);
    assert forall|i: int| 0 < i < 7 implies (#[trigger] all[1 + i]).subrange(0, 3) == seq![
        0x0au8,
        0x07u8,
        (i + 1) as u8,
    ] by {
        assert(all[1 + i] == custom[i]);
    }
}

/// Where the keyboard can be remapped and a mapping is configured, a
/// successful encoding ends with the nine frames of the key assignment: each
/// is 65 bytes, the first starts with `0a 09 01 01 f8`, every other one with
/// `0a 09` and its own number counted from one.
pub proof fn lemma_key_mapping_frames_close_output(keyboard: Keyboard, config: KeyboardConfig)
    requires
        keyboard.key_map_enabled,
        config.key_mapping is Some,
        encoded(keyboard, config) is Ok,
    ensures
        encoded(keyboard, config)->Ok_0.len() == light_frame_count(keyboard, config) + 9,
        encoded(keyboard, config)->Ok_0.subrange(
            light_frame_count(keyboard, config),
            light_frame_count(keyboard, config) + 9,
        ) == key_mapping_frames(keyboard.keys@, config.key_mapping->0.mappings@),
        forall|i: int|
            0 <= i < 9 ==> (#[trigger] key_mapping_frames(
                keyboard.keys@,
                config.key_mapping->0.mappings@,
            )[i]).len() == FRAME_SIZE,
        key_mapping_frames(keyboard.keys@, config.key_mapping->0.mappings@)[0].subrange(0, 5)
            == seq![0x0au8, 0x09u8, 0x01u8, 0x01u8, 0xf8u8],
        forall|i: int|
            0 < i < 9 ==> (#[trigger] key_mapping_frames(
                keyboard.keys@,
                config.key_mapping->0.mappings@,
            )[i]).subrange(0, 3) == seq![0x0au8, 0x09u8, (i + 1) as u8],
{
    let frames = key_mapping_frames(keyboard.keys@, config.key_mapping->0.mappings@);
    let all = encoded(keyboard, config)->Ok_0;
    let lead = seq![0x01u8, 0xf8u8];
    lemma_frame_count(keyboard, config);
    lemma_packed_frames_shape(
        key_table(keyboard.keys@, config.key_mapping->0.mappings@),
        KEY_MAP_FRAMES,
        lead,
    );
    assert(all.subrange(
        light_frame_count(keyboard, config),
        light_frame_count(keyboard, config) + 9,
    ) =~= frames);
    assert(seq![0x0au8, 0x09u8, 1u8] + lead =~= seq![0x0au8, 0x09u8, 0x01u8, 0x01u8, 0xf8u8]);
}

/// Of the entries for one position, the last one stays in the table,
/// whatever the table held before.
pub proof fn lemma_last_entry_stays(table: Seq<u8>, entries: Seq<KeyEntry>, k: int)
    requires
        0 <= k < entries.len(),
        entries[k].buffer_index as int * 4 + 3 < table.len(),
        forall|j: int|
            k < j < entries.len() ==> entries[j].buffer_index != entries[k].buffer_index,
    ensures
        enter_keys(table, entries).subrange(
            entries[k].buffer_index as int * 4,
            entries[k].buffer_index as int * 4 + 4,
        ) == key_code_bytes(entries[k].code),
    decreases entries.len(),
{
    let at = entries[k].buffer_index as int * 4;
    let before = enter_keys(table, entries.drop_last());
    let after = enter_keys(table, entries);
    lemma_enter_keys_len(table, entries.drop_last());
    if k == entries.len() - 1 {
        assert(after.subrange(at, at + 4) =~= key_code_bytes(entries[k].code));
    } else {
        lemma_last_entry_stays(table, entries.drop_last(), k);
        assert(entries.last().buffer_index != entries[k].buffer_index);
        assert(after.subrange(at, at + 4) =~= before.subrange(at, at + 4));
    }
}

/// An entry whose four bytes do not lie inside the table is dropped: the
/// table is the one that the other entries give without it.
pub proof fn lemma_out_of_range_entry_is_dropped(table: Seq<u8>, entries: Seq<KeyEntry>, k: int)
    requires
        0 <= k < entries.len(),
        entries[k].buffer_index as int * 4 + 3 >= table.len(),
    ensures
        enter_keys(table, entries.remove(k)) == enter_keys(table, entries),
    decreases entries.len(),
{
    lemma_enter_keys_len(table, entries.drop_last());
    if k == entries.len() - 1 {
        assert(entries.remove(k) =~= entries.drop_last());
    } else {
        lemma_out_of_range_entry_is_dropped(table, entries.drop_last(), k);
        assert(entries.remove(k).drop_last() =~= entries.drop_last().remove(k));
        assert(entries.remove(k).last() == entries.last());
    }
}

/// An override always wins over the keyboard's factory assignment: the slot
/// of a position holds the code of the last override for it, whatever the
/// factory assignment is.
pub proof fn lemma_override_wins(keys: Seq<KeyDescriptor>, mappings: Seq<KeyMapping>, k: int)
    requires
        0 <= k < mappings.len(),
        mappings[k].buffer_index as int * 4 + 3 < KEY_TABLE_SIZE,
        forall|j: int|
            k < j < mappings.len() ==> mappings[j].buffer_index != mappings[k].buffer_index,
    ensures
        key_table(keys, mappings).subrange(
            mappings[k].buffer_index as int * 4,
            mappings[k].buffer_index as int * 4 + 4,
        ) == key_code_bytes(mappings[k].key_code@),
{
    lemma_last_entry_stays(
        zeros(KEY_TABLE_SIZE as nat),
        key_entries(keys) + mapping_entries(mappings),
        keys.len() + k,
    );
}

/// A factory assignment stays in the final table where no override names its
/// position.
pub proof fn lemma_default_stays_without_override(
    keys: Seq<KeyDescriptor>,
    mappings: Seq<KeyMapping>,
    k: int,
)
    requires
        0 <= k < keys.len(),
        keys[k].buffer_index as int * 4 + 3 < KEY_TABLE_SIZE,
        forall|j: int| k < j < keys.len() ==> keys[j].buffer_index != keys[k].buffer_index,
        forall|j: int| 0 <= j < mappings.len() ==> mappings[j].buffer_index != keys[k].buffer_index,
    ensures
        key_table(keys, mappings).subrange(
            keys[k].buffer_index as int * 4,
            keys[k].buffer_index as int * 4 + 4,
        ) == key_code_bytes(keys[k].key_code@),
{
    lemma_last_entry_stays(
        zeros(KEY_TABLE_SIZE as nat),
        key_entries(keys) + mapping_entries(mappings),
        k,
    );
}

/// A factory assignment whose four bytes do not lie inside the table is
/// dropped: the table is the one that the keyboard gives without it.
pub proof fn lemma_out_of_range_default_is_dropped(
    keys: Seq<KeyDescriptor>,
    mappings: Seq<KeyMapping>,
    k: int,
)
    requires
        0 <= k < keys.len(),
        keys[k].buffer_index as int * 4 + 3 >= KEY_TABLE_SIZE,
    ensures
        key_table(keys.remove(k), mappings) == key_table(keys, mappings),
{
    let all = key_entries(keys) + mapping_entries(mappings);
    lemma_out_of_range_entry_is_dropped(zeros(KEY_TABLE_SIZE as nat), all, k);
    assert(all.remove(k) =~= key_entries(keys.remove(k)) + mapping_entries(mappings));
}

/// An override whose four bytes do not lie inside the table is dropped: the
/// table is the one that the configuration gives without it.
pub proof fn lemma_out_of_range_override_is_dropped(
    keys: Seq<KeyDescriptor>,
    mappings: Seq<KeyMapping>,
    k: int,
)
    requires
        0 <= k < mappings.len(),
        mappings[k].buffer_index as int * 4 + 3 >= KEY_TABLE_SIZE,
    ensures
        key_table(keys, mappings.remove(k)) == key_table(keys, mappings),
{
    let all = key_entries(keys) + mapping_entries(mappings);
    lemma_out_of_range_entry_is_dropped(zeros(KEY_TABLE_SIZE as nat), all, keys.len() + k);
    assert(all.remove(keys.len() + k) =~= key_entries(keys) + mapping_entries(
        mappings.remove(k),
    ));
}

/// A colour entry whose three bytes do not lie inside the table is dropped:
/// the table is the one that the other entries give without it.
pub proof fn lemma_out_of_range_color_is_dropped(colors: Seq<PerKeyColor>, k: int)
    requires
        0 <= k < colors.len(),
        colors[k].buffer_index as int * 3 + 2 >= COLOR_TABLE_SIZE,
    ensures
        color_table(colors.remove(k)) == color_table(colors),
    decreases colors.len(),
{
    lemma_color_table_len(colors.drop_last());
    if k == colors.len() - 1 {
        assert(colors.remove(k) =~= colors.drop_last());
    } else {
        lemma_out_of_range_color_is_dropped(colors.drop_last(), k);
        assert(colors.remove(k).drop_last() =~= colors.drop_last().remove(k));
        assert(colors.remove(k).last() == colors.last());
    }
}

/// A colour entry changes no byte of the table but the three of its own
/// position, and those hold its colour where they lie inside the table.
pub proof fn lemma_color_entry_is_local(colors: Seq<PerKeyColor>, entry: PerKeyColor)
    ensures
        color_table(colors.push(entry)).len() == COLOR_TABLE_SIZE,
        forall|p: int|
            0 <= p < COLOR_TABLE_SIZE && !(entry.buffer_index as int * 3 <= p
                < entry.buffer_index as int * 3 + 3) ==> #[trigger] color_table(
                colors.push(entry),
            )[p] == color_table(colors)[p],
        entry.buffer_index as int * 3 + 2 < COLOR_TABLE_SIZE ==> color_table(
            colors.push(entry),
        ).subrange(entry.buffer_index as int * 3, entry.buffer_index as int * 3 + 3) == seq![
            entry.color.r,
            entry.color.g,
            entry.color.b,
        ],
{
    let at = entry.buffer_index as int * 3;
    lemma_color_table_len(colors);
    assert(colors.push(entry).drop_last() =~= colors);
    assert(color_table(colors.push(entry)) == put_color(color_table(colors), entry));
    if at + 2 < COLOR_TABLE_SIZE {
        assert(color_table(colors.push(entry)).subrange(at, at + 3) =~= seq![
            entry.color.r,
            entry.color.g,
            entry.color.b,
        ]);
    }
}

/// Of the colour entries for one position, the last one stays in the table.
pub proof fn lemma_last_color_stays(colors: Seq<PerKeyColor>, k: int)
    requires
        0 <= k < colors.len(),
        colors[k].buffer_index as int * 3 + 2 < COLOR_TABLE_SIZE,
        forall|j: int| k < j < colors.len() ==> colors[j].buffer_index != colors[k].buffer_index,
    ensures
        color_table(colors).subrange(
            colors[k].buffer_index as int * 3,
            colors[k].buffer_index as int * 3 + 3,
        ) == seq![colors[k].color.r, colors[k].color.g, colors[k].color.b],
    decreases colors.len(),
{
    let at = colors[k].buffer_index as int * 3;
    let before = color_table(colors.drop_last());
    let after = color_table(colors);
    lemma_color_table_len(colors.drop_last());
    if k == colors.len() - 1 {
        assert(after.subrange(at, at + 3) =~= seq![
            colors[k].color.r,
            colors[k].color.g,
            colors[k].color.b,
        ]);
    } else {
        lemma_last_color_stays(colors.drop_last(), k);
        assert(colors.last().buffer_index != colors[k].buffer_index);
        assert(after.subrange(at, at + 3) =~= before.subrange(at, at + 3));
    }
}

/// A byte of the colour table that belongs to no entry's position is zero.
pub proof fn lemma_unaddressed_color_bytes_are_zero(colors: Seq<PerKeyColor>, p: int)
    requires
        0 <= p < COLOR_TABLE_SIZE,
        forall|k: int| 0 <= k < colors.len() ==> colors[k].buffer_index as int != p / 3,
    ensures
        color_table(colors)[p] == 0,
    decreases colors.len(),
{
    if colors.len() > 0 {
        lemma_color_table_len(colors.drop_last());
        lemma_unaddressed_color_bytes_are_zero(colors.drop_last(), p);
        assert(colors.last().buffer_index as int != p / 3);
    }
}

/// The seven frames of per-key colours carry the first 431 bytes of the
/// colour table and nothing else: byte `j` behind the header of frame `i` is
/// the table's byte at the frame's place, and no frame reaches further.
pub proof fn lemma_custom_light_payload(colors: Seq<PerKeyColor>, i: int, j: int)
    requires
        0 <= i < 7,
        (if i == 0 { 6int } else { 3int }) <= j < FRAME_SIZE,
    ensures
        ({
            let header_len = if i == 0 { 6int } else { 3int };
            let at = payload_start(3, i) + j - header_len;
            &&& 0 <= at < 431
            &&& custom_light_frames(colors)[i][j] == color_table(colors)[at]
        }),
        payload_start(3, 7) == 431,
{
    lemma_color_table_len(colors);
}

/// The nine frames of the key assignment carry the first 556 bytes of the
/// table of key codes and nothing else: byte `j` behind the header of frame
/// `i` is the table's byte at the frame's place, and no frame reaches further.
pub proof fn lemma_key_mapping_payload(
    keys: Seq<KeyDescriptor>,
    mappings: Seq<KeyMapping>,
    i: int,
    j: int,
)
    requires
        0 <= i < 9,
        (if i == 0 { 5int } else { 3int }) <= j < FRAME_SIZE,
    ensures
        ({
            let header_len = if i == 0 { 5int } else { 3int };
            let at = payload_start(2, i) + j - header_len;
            &&& 0 <= at < 556
            &&& key_mapping_frames(keys, mappings)[i][j] == key_table(keys, mappings)[at]
        }),
        payload_start(2, 9) == 556,
{
    lemma_key_table_len(keys, mappings);
}

/// Whether two keyboards hold the same values.
pub open spec fn same_keyboard(a: Keyboard, b: Keyboard) -> bool {
    a.rgb == b.rgb && a.key_map_enabled == b.key_map_enabled && a.keys@ == b.keys@
}

/// Whether two configurations hold the same values.
pub open spec fn same_config(a: KeyboardConfig, b: KeyboardConfig) -> bool {
    &&& match (a.light_mode, b.light_mode) {
        (None, None) => true,
        (Some(x), Some(y)) => x.mode_bit == y.mode_bit && x.animation == y.animation
            && x.brightness == y.brightness && x.color == y.color && x.random_colors
            == y.random_colors && x.sleep == y.sleep && x.colors() == y.colors(),
        _ => false,
    }
    &&& match (a.key_mapping, b.key_mapping) {
        (None, None) => true,
        (Some(x), Some(y)) => x.mappings@ == y.mappings@,
        _ => false,
    }
}

/// Encoding depends on nothing but the values handed in: two keyboards and
/// two configurations that hold the same values give the same frames, byte
/// for byte, or the same error.
pub proof fn lemma_encoding_is_a_function_of_values(
    k1: Keyboard,
    c1: KeyboardConfig,
    k2: Keyboard,
    c2: KeyboardConfig,
)
    requires
        same_keyboard(k1, k2),
        same_config(c1, c2),
    ensures
        encoded(k1, c1) == encoded(k2, c2),
{
    match (c1.light_mode, c2.light_mode) {
        (Some(x), Some(y)) => {
            assert(standard_light_frame(x) =~= standard_light_frame(y));
        },
        _ => {},
    }
}

} // verus!
