//! The frame encoders: from a keyboard and its configuration to the list of
//! 65-byte frames that the firmware expects, in the order it expects them.

use vstd::prelude::*;
use crate::models::{
    KeyCode, KeyDescriptor, KeyMapping, KeyMappingConfig, Keyboard, KeyboardConfig,
    LightModeConfig, PerKeyColor, Rgb,
};
use crate::modes::{is_custom, is_custom_mode};

verus! {

/// The size of every frame, in bytes.
pub const FRAME_SIZE: usize = 65;

/// The number of frames that carry the per-key colours.
pub const CUSTOM_LIGHT_FRAMES: u8 = 7;

/// The number of frames that carry the key assignment.
pub const KEY_MAP_FRAMES: u8 = 9;

/// The size of the table of per-key colours, three bytes per position.
pub const COLOR_TABLE_SIZE: usize = 455;

/// The size of the table of key codes, four bytes per position.
pub const KEY_TABLE_SIZE: usize = 585;

/// Why a configuration could not be encoded.
#[derive(Debug, Clone, Copy, PartialEq, Eq, Structural)]
pub enum EncodingError {
    /// A base colour was required and none was given. The encoders of this
    /// module leave the colour bytes zero instead and never report it.
    MissingColor,
    /// The mode asks for per-key colours and the configuration holds none.
    MissingCustomColors,
}

impl EncodingError {
    /// What the error says, as a sequence of characters.
    pub open spec fn message_spec(self) -> Seq<char> {
        match self {
            EncodingError::MissingColor => "Color not provided"@,
            EncodingError::MissingCustomColors => "Custom colors not provided"@,
        }
    }

    /// What the error says.
    pub fn message(&self) -> (text: String)
        ensures
            text@ == self.message_spec(),
    {
        match self {
            EncodingError::MissingColor => "Color not provided".to_owned(),
            EncodingError::MissingCustomColors => "Custom colors not provided".to_owned(),
        }
    }
}

/// `n` zero bytes.
pub open spec fn zeros(n: nat) -> Seq<u8> {
    Seq::new(n, |i: int| 0u8)
}

/// What a list of frames stands for in contracts.
pub open spec fn frame_list(frames: Seq<Vec<u8>>) -> Seq<Seq<u8>> {
    Seq::new(frames.len(), |i: int| frames[i]@)
}

/// What the outcome of an encoding stands for in contracts: the frames as
/// sequences of bytes, or the error.
pub open spec fn encoding_view(
    result: Result<Vec<Vec<u8>>, EncodingError>,
) -> Result<Seq<Seq<u8>>, EncodingError> {
    match result {
        Ok(frames) => Ok(frame_list(frames@)),
        Err(e) => Err(e),
    }
}

/// `table` with `bytes` written over the positions from `at` on.
pub open spec fn put_bytes(table: Seq<u8>, at: int, bytes: Seq<u8>) -> Seq<u8> {
    Seq::new(
        table.len(),
        |p: int|
            if at <= p < at + bytes.len() {
                bytes[p - at]
            } else {
                table[p]
            },
    )
}

/// The four bytes of a key code, most significant first.
pub open spec fn key_code_bytes(code: u32) -> Seq<u8> {
    seq![
        (code / 0x100_0000) as u8,
        (code / 0x1_0000 % 0x100) as u8,
        (code / 0x100 % 0x100) as u8,
        (code % 0x100) as u8,
    ]
}

/// `table` after the colour of one position was entered. A position whose
/// three bytes do not lie inside the table leaves it as it is.
pub open spec fn put_color(table: Seq<u8>, entry: PerKeyColor) -> Seq<u8> {
    let at = entry.buffer_index as int * 3;
    if at + 2 < table.len() {
        put_bytes(table, at, seq![entry.color.r, entry.color.g, entry.color.b])
    } else {
        table
    }
}

/// `table` after the key code of one position was entered. A position whose
/// four bytes do not lie inside the table leaves it as it is.
pub open spec fn put_key(table: Seq<u8>, buffer_index: u8, code: u32) -> Seq<u8> {
    let at = buffer_index as int * 4;
    if at + 3 < table.len() {
        put_bytes(table, at, key_code_bytes(code))
    } else {
        table
    }
}

/// The table of per-key colours: all zero, then the entries in their order,
/// so that of two entries for one position the later one stays.
pub open spec fn color_table(colors: Seq<PerKeyColor>) -> Seq<u8>
    decreases colors.len(),
{
    if colors.len() == 0 {
        zeros(COLOR_TABLE_SIZE as nat)
    } else {
        put_color(color_table(colors.drop_last()), colors.last())
    }
}

/// A position and the number of the key code entered for it.
pub struct KeyEntry {
    pub buffer_index: u8,
    pub code: u32,
}

/// The factory assignments as entries of the table of key codes.
pub open spec fn key_entries(keys: Seq<KeyDescriptor>) -> Seq<KeyEntry> {
    keys.map_values(|k: KeyDescriptor| (KeyEntry { buffer_index: k.buffer_index, code: k.key_code@ }))
}

/// The overrides as entries of the table of key codes.
pub open spec fn mapping_entries(mappings: Seq<KeyMapping>) -> Seq<KeyEntry> {
    mappings.map_values(|m: KeyMapping| (KeyEntry { buffer_index: m.buffer_index, code: m.key_code@ }))
}

/// `table` after the entries were entered in their order, so that of two
/// entries for one position the later one stays.
pub open spec fn enter_keys(table: Seq<u8>, entries: Seq<KeyEntry>) -> Seq<u8>
    decreases entries.len(),
{
    if entries.len() == 0 {
        table
    } else {
        put_key(
            enter_keys(table, entries.drop_last()),
            entries.last().buffer_index,
            entries.last().code,
        )
    }
}

/// The table of key codes: all zero, then the factory assignments, then the
/// overrides.
pub open spec fn key_table(keys: Seq<KeyDescriptor>, mappings: Seq<KeyMapping>) -> Seq<u8> {
    enter_keys(zeros(KEY_TABLE_SIZE as nat), key_entries(keys) + mapping_entries(mappings))
}

/// The byte of `table` at `at`, and zero beyond its end.
pub open spec fn byte_or_zero(table: Seq<u8>, at: int) -> u8 {
    if 0 <= at < table.len() {
        table[at]
    } else {
        0u8
    }
}

/// The header of frame `i` of `count`: a marker, the number of frames and the
/// frame's number counted from one; the first frame carries `lead` after them.
pub open spec fn frame_header(count: u8, lead: Seq<u8>, i: int) -> Seq<u8> {
    if i == 0 {
        seq![0x0au8, count, 1u8] + lead
    } else {
        seq![0x0au8, count, (i + 1) as u8]
    }
}

/// The position in the table of the first byte that frame `i` carries, where
/// the first frame's header is `lead_len` bytes longer than the others'.
pub open spec fn payload_start(lead_len: int, i: int) -> int {
    if i == 0 {
        0
    } else {
        (62 - lead_len) + 62 * (i - 1)
    }
}

/// Frame `i` of a table packed into `count` frames: its header, then the
/// table's bytes from where the frame before it stopped.
pub open spec fn packed_frame(table: Seq<u8>, count: u8, lead: Seq<u8>, i: int) -> Seq<u8> {
    let header = frame_header(count, lead, i);
    Seq::new(
        FRAME_SIZE as nat,
        |j: int|
            if j < header.len() {
                header[j]
            } else {
                byte_or_zero(table, payload_start(lead.len() as int, i) + j - header.len())
            },
    )
}

/// A table packed into `count` frames.
pub open spec fn packed_frames(table: Seq<u8>, count: u8, lead: Seq<u8>) -> Seq<Seq<u8>> {
    Seq::new(count as nat, |i: int| packed_frame(table, count, lead, i))
}

/// The frame that carries the base lighting settings.
pub open spec fn standard_light_frame(config: LightModeConfig) -> Seq<u8> {
    let color = match config.color {
        Some(c) => c,
        None => (Rgb { r: 0, g: 0, b: 0 }),
    };
    seq![
        0x0au8,
        0x01u8,
        0x01u8,
        0x02u8,
        0x29u8,
        config.mode_bit,
        0x00u8,
        config.animation,
        config.brightness,
        color.r,
        color.g,
        color.b,
        if config.random_colors { 0x01u8 } else { 0x00u8 },
        config.sleep,
    ] + zeros(51)
}

/// The frames that carry the per-key colours.
pub open spec fn custom_light_frames(colors: Seq<PerKeyColor>) -> Seq<Seq<u8>> {
    packed_frames(color_table(colors), CUSTOM_LIGHT_FRAMES, seq![0x03u8, 0x7eu8, 0x01u8])
}

/// What encoding the per-key colours gives: their seven frames, or an error
/// where there are none.
pub open spec fn custom_light_section(
    colors: Option<Seq<PerKeyColor>>,
) -> Result<Seq<Seq<u8>>, EncodingError> {
    match colors {
        Some(colors) => Ok(custom_light_frames(colors)),
        None => Err(EncodingError::MissingCustomColors),
    }
}

/// The frames that carry the key assignment.
pub open spec fn key_mapping_frames(
    keys: Seq<KeyDescriptor>,
    mappings: Seq<KeyMapping>,
) -> Seq<Seq<u8>> {
    packed_frames(key_table(keys, mappings), KEY_MAP_FRAMES, seq![0x01u8, 0xf8u8])
}

/// The lighting part of the output: nothing without a lighting
/// configuration; else the standard frame, followed by the per-key colours
/// where the mode is the family's custom mode. A custom mode without per-key
/// colours is an error.
pub open spec fn light_section(
    is_rgb: bool,
    light: Option<LightModeConfig>,
) -> Result<Seq<Seq<u8>>, EncodingError> {
    match light {
        None => Ok(Seq::empty()),
        Some(l) => if is_custom(l.mode_bit, is_rgb) {
            match l.colors() {
                Some(colors) => Ok(seq![standard_light_frame(l)] + custom_light_frames(colors)),
                None => Err(EncodingError::MissingCustomColors),
            }
        } else {
            Ok(seq![standard_light_frame(l)])
        },
    }
}

/// Whether the key assignment is sent: the keyboard can be remapped and the
/// configuration holds a mapping.
pub open spec fn sends_key_mapping(keyboard: Keyboard, config: KeyboardConfig) -> bool {
    keyboard.key_map_enabled && config.key_mapping is Some
}

/// The key-assignment part of the output.
pub open spec fn mapping_section(keyboard: Keyboard, config: KeyboardConfig) -> Seq<Seq<u8>> {
    if sends_key_mapping(keyboard, config) {
        key_mapping_frames(keyboard.keys@, config.key_mapping->0.mappings@)
    } else {
        Seq::empty()
    }
}

/// What encoding a configuration for a keyboard gives: the lighting part, then
/// the key-assignment part, or the error of the lighting part.
pub open spec fn encoded(
    keyboard: Keyboard,
    config: KeyboardConfig,
) -> Result<Seq<Seq<u8>>, EncodingError> {
    match light_section(keyboard.rgb, config.light_mode) {
        Ok(frames) => Ok(frames + mapping_section(keyboard, config)),
        Err(e) => Err(e),
    }
}

/// Writes the four bytes of `key_code`, most significant first, at the start
/// of `buffer`, and leaves the rest of it as it is.
pub fn set_buffer_key(buffer: &mut [u8], key_code: KeyCode)
    requires
        old(buffer)@.len() >= 4,
    ensures
        final(buffer)@ == put_bytes(old(buffer)@, 0, key_code_bytes(key_code@)),
{
    let code: u32 = key_code.to_u32();
    let b0: u8 = if code >= 0x0100_0000 { ((code >> 24) & 0xff) as u8 } else { 0x00 };
    let b1: u8 = if code >= 0x01_0000 { ((code >> 16) & 0xff) as u8 } else { 0x00 };
    let b2: u8 = if code >= 0x0100 { ((code >> 8) & 0xff) as u8 } else { 0x00 };
    let b3: u8 = (code & 0xff) as u8;
    proof {
        assert(((code >> 24) & 0xff) == code / 0x100_0000) by (bit_vector);
        assert(((code >> 16) & 0xff) == code / 0x1_0000 % 0x100) by (bit_vector);
        assert(((code >> 8) & 0xff) == code / 0x100 % 0x100) by (bit_vector);
        assert((code & 0xff) == code % 0x100) by (bit_vector);
    }
    buffer[0] = b0;
    buffer[1] = b1;
    buffer[2] = b2;
    buffer[3] = b3;
    assert(buffer@ =~= put_bytes(old(buffer)@, 0, key_code_bytes(key_code@)));
}

/// Enters the key code of one position into the table of key codes. A
/// position whose four bytes do not lie inside the table is passed over.
fn enter_key(table: &mut Vec<u8>, buffer_index: u8, key_code: KeyCode)
    ensures
        final(table)@ == put_key(old(table)@, buffer_index, key_code@),
{
    let at: usize = buffer_index as usize * 4;
    if at + 3 < table.len() {
        let ghost before = table@;
        let (_, slot) = table.as_mut_slice().split_at_mut(at);
        set_buffer_key(slot, key_code);
        assert(table@ =~= put_bytes(before, at as int, key_code_bytes(key_code@)));
    }
}

/// Packs `table` into `frame_count` frames. Each frame starts with a marker,
/// the number of frames and its own number counted from one; the first frame
/// carries `lead` after them. The rest of each frame is filled from the table,
/// each frame going on where the one before it stopped, with zero beyond the
/// table's end.
pub fn pack_table(table: &Vec<u8>, frame_count: u8, lead: &Vec<u8>) -> (frames: Vec<Vec<u8>>)
    requires
        lead.len() <= 62,
    ensures
        frame_list(frames@) == packed_frames(table@, frame_count, lead@),
{
    let mut frames: Vec<Vec<u8>> = Vec::new();
    let mut next: usize = 0;
    let mut i: u8 = 0;
    while i < frame_count
        invariant
            i <= frame_count,
            lead.len() <= 62,
            frames@.len() == i,
            next == payload_start(lead@.len() as int, i as int),
            forall|k: int|
                0 <= k < i ==> (#[trigger] frames@[k])@ == packed_frame(
                    table@,
                    frame_count,
                    lead@,
                    k,
                ),
        decreases frame_count - i,
    {
        let ghost want = packed_frame(table@, frame_count, lead@, i as int);
        let ghost start = next as int;
        let mut frame: Vec<u8> = vec![0u8; FRAME_SIZE];
        frame[0] = 0x0a;
        frame[1] = frame_count;
        frame[2] = i + 1;
        let mut at: usize = 3;
        if i == 0 {
            while at < 3 + lead.len()
                invariant
                    i == 0,
                    lead.len() <= 62,
                    3 <= at <= 3 + lead.len(),
                    frame@.len() == FRAME_SIZE,
                    want == packed_frame(table@, frame_count, lead@, 0),
                    forall|j: int| 0 <= j < at ==> frame@[j] == want[j],
                    forall|j: int| at <= j < FRAME_SIZE ==> frame@[j] == 0,
                decreases 3 + lead.len() - at,
            {
                frame[at] = lead[at - 3];
                at += 1;
            }
        }
        let first: usize = at;
        while at < FRAME_SIZE
            invariant
                first <= at <= FRAME_SIZE,
                first == frame_header(frame_count, lead@, i as int).len(),
                3 <= first <= 65,
                frame@.len() == FRAME_SIZE,
                start == payload_start(lead@.len() as int, i as int),
                0 <= start <= 62 * 255,
                next == start + (at - first),
                want == packed_frame(table@, frame_count, lead@, i as int),
                forall|j: int| 0 <= j < at ==> frame@[j] == want[j],
                forall|j: int| at <= j < FRAME_SIZE ==> frame@[j] == 0,
            decreases FRAME_SIZE - at,
        {
            if next < table.len() {
                frame[at] = table[next];
            }
            next += 1;
            at += 1;
        }
        assert(frame@ =~= want);
        frames.push(frame);
        i += 1;
    }
    assert(frame_list(frames@) =~= packed_frames(table@, frame_count, lead@));
    frames
}

/// Encodes the base lighting settings as one frame. A configuration without
/// a base colour leaves the colour bytes zero.
pub fn build_standard_light_buffer(
    config: &LightModeConfig,
) -> (result: Result<Vec<u8>, EncodingError>)
    ensures
        result is Ok,
        result->Ok_0@ == standard_light_frame(*config),
{
    let mut buffer: Vec<u8> = vec![0u8; FRAME_SIZE];
    buffer[0] = 0x0a;
    buffer[1] = 0x01;
    buffer[2] = 0x01;
    buffer[3] = 0x02;
    buffer[4] = 0x29;
    buffer[5] = config.mode_bit;
    buffer[7] = config.animation;
    buffer[8] = config.brightness;
    if let Some(color) = &config.color {
        buffer[9] = color.r;
        buffer[10] = color.g;
        buffer[11] = color.b;
    }
    buffer[12] = if config.random_colors { 0x01 } else { 0x00 };
    buffer[13] = config.sleep;
    assert(buffer@ =~= standard_light_frame(*config));
    Ok(buffer)
}

/// Encodes the per-key colours of `config` as seven frames. Fails where the
/// configuration holds no per-key colours.
pub fn build_custom_light_buffers(
    _keyboard: &Keyboard,
    config: &LightModeConfig,
) -> (result: Result<Vec<Vec<u8>>, EncodingError>)
    ensures
        encoding_view(result) == custom_light_section(config.colors()),
{
    let custom_colors = match &config.custom_colors {
        Some(colors) => colors,
        None => {
            return Err(EncodingError::MissingCustomColors);
        },
    };
    let mut table: Vec<u8> = vec![0u8; COLOR_TABLE_SIZE];
    assert(table@ =~= zeros(COLOR_TABLE_SIZE as nat));
    let mut i: usize = 0;
    while i < custom_colors.len()
        invariant
            i <= custom_colors.len(),
            table@.len() == COLOR_TABLE_SIZE,
            table@ == color_table(custom_colors@.take(i as int)),
        decreases custom_colors.len() - i,
    {
        let per_key = custom_colors[i];
        let at: usize = per_key.buffer_index as usize * 3;
        if at + 2 < table.len() {
            table[at] = per_key.color.r;
            table[at + 1] = per_key.color.g;
            table[at + 2] = per_key.color.b;
        }
        proof {
            assert(custom_colors@.take(i + 1).drop_last() =~= custom_colors@.take(i as int));
        }
        i += 1;
    }
    assert(custom_colors@.take(i as int) =~= custom_colors@);
    let mut lead: Vec<u8> = Vec::new();
    lead.push(0x03);
    lead.push(0x7e);
    lead.push(0x01);
    assert(lead@ =~= seq![0x03u8, 0x7eu8, 0x01u8]);
    Ok(pack_table(&table, CUSTOM_LIGHT_FRAMES, &lead))
}

/// Encodes the key assignment as nine frames: the keyboard's factory
/// assignment, with the overrides of `config` entered over it.
pub fn build_key_mapping_buffers(
    keyboard: &Keyboard,
    config: &KeyMappingConfig,
) -> (result: Result<Vec<Vec<u8>>, EncodingError>)
    ensures
        encoding_view(result) == Ok::<Seq<Seq<u8>>, EncodingError>(
            key_mapping_frames(keyboard.keys@, config.mappings@),
        ),
{
    let ghost defaults = key_entries(keyboard.keys@);
    let ghost overrides = mapping_entries(config.mappings@);
    let mut table: Vec<u8> = vec![0u8; KEY_TABLE_SIZE];
    assert(table@ =~= zeros(KEY_TABLE_SIZE as nat));
    let mut i: usize = 0;
    while i < keyboard.keys.len()
        invariant
            i <= keyboard.keys.len(),
            defaults == key_entries(keyboard.keys@),
            table@ == enter_keys(zeros(KEY_TABLE_SIZE as nat), defaults.take(i as int)),
        decreases keyboard.keys.len() - i,
    {
        let key = keyboard.keys[i];
        enter_key(&mut table, key.buffer_index, key.key_code);
        proof {
            assert(defaults.take(i + 1).drop_last() =~= defaults.take(i as int));
        }
        i += 1;
    }
    assert(defaults.take(i as int) =~= defaults + overrides.take(0));
    let mut k: usize = 0;
    while k < config.mappings.len()
        invariant
            k <= config.mappings.len(),
            overrides == mapping_entries(config.mappings@),
            table@ == enter_keys(
                zeros(KEY_TABLE_SIZE as nat),
                defaults + overrides.take(k as int),
            ),
        decreases config.mappings.len() - k,
    {
        let mapping = config.mappings[k];
        enter_key(&mut table, mapping.buffer_index, mapping.key_code);
        proof {
            assert((defaults + overrides.take(k + 1)).drop_last() =~= defaults + overrides.take(
                k as int,
            ));
        }
        k += 1;
    }
    assert(overrides.take(k as int) =~= overrides);
    let mut lead: Vec<u8> = Vec::new();
    lead.push(0x01);
    lead.push(0xf8);
    assert(lead@ =~= seq![0x01u8, 0xf8u8]);
    Ok(pack_table(&table, KEY_MAP_FRAMES, &lead))
}

/// Encodes `config` for `keyboard`: the standard lighting frame where lighting
/// is configured, the seven frames of per-key colours where its mode is the
/// family's custom mode, and the nine frames of the key assignment where the
/// keyboard can be remapped and a mapping is configured. Fails, with no frame,
/// where the custom mode is chosen without per-key colours.
pub fn build_buffers(
    keyboard: &Keyboard,
    config: &KeyboardConfig,
) -> (result: Result<Vec<Vec<u8>>, EncodingError>)
    ensures
        encoding_view(result) == encoded(*keyboard, *config),
{
    let mut buffers: Vec<Vec<u8>> = Vec::new();
    if let Some(light_config) = &config.light_mode {
        let standard = match build_standard_light_buffer(light_config) {
            Ok(buffer) => buffer,
            Err(e) => {
                return Err(e);
            },
        };
        buffers.push(standard);
        if is_custom_mode(light_config.mode_bit, keyboard.rgb) {
            let mut custom = match build_custom_light_buffers(keyboard, light_config) {
                Ok(frames) => frames,
                Err(e) => {
                    return Err(e);
                },
            };
            buffers.append(&mut custom);
        }
    }
    assert(frame_list(buffers@) =~= light_section(keyboard.rgb, config.light_mode)->Ok_0);
    if keyboard.key_map_enabled {
        if let Some(key_mapping) = &config.key_mapping {
            let mut mapping = match build_key_mapping_buffers(keyboard, key_mapping) {
                Ok(frames) => frames,
                Err(e) => {
                    return Err(e);
                },
            };
            buffers.append(&mut mapping);
        }
    }
    assert(frame_list(buffers@) =~= encoded(*keyboard, *config)->Ok_0);
    Ok(buffers)
}

} // verus!
