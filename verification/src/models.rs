//! Plain data describing a keyboard and the configuration chosen for it.

use vstd::prelude::*;

verus! {

/// A colour as three 8-bit channels.
#[derive(Debug, Clone, Copy, PartialEq, Eq, Structural)]
pub struct Rgb {
    pub r: u8,
    pub g: u8,
    pub b: u8,
}

/// An opaque key identifier. Its view is the unsigned 32-bit number that the
/// firmware knows the key by.
#[derive(Debug, Clone, Copy, PartialEq, Eq, Structural)]
pub struct KeyCode {
    code: u32,
}

impl View for KeyCode {
    type V = u32;

    closed spec fn view(&self) -> u32 {
        self.code
    }
}

impl KeyCode {
    /// The key identified by `code`.
    pub fn from_u32(code: u32) -> (key: KeyCode)
        ensures
            key@ == code,
    {
        KeyCode { code }
    }

    /// The number that identifies this key.
    pub fn to_u32(self) -> (code: u32)
        ensures
            code == self@,
    {
        self.code
    }
}

/// The factory assignment of one physical key position.
#[derive(Debug, Clone, Copy, PartialEq, Eq, Structural)]
pub struct KeyDescriptor {
    pub buffer_index: u8,
    pub key_code: KeyCode,
}

/// The colour chosen for one physical key position.
#[derive(Debug, Clone, Copy, PartialEq, Eq, Structural)]
pub struct PerKeyColor {
    pub buffer_index: u8,
    pub color: Rgb,
}

/// A user override of the key sent by one physical key position.
#[derive(Debug, Clone, Copy, PartialEq, Eq, Structural)]
pub struct KeyMapping {
    pub buffer_index: u8,
    pub key_code: KeyCode,
}

/// A physical keyboard: its family, whether its keys can be remapped, and the
/// factory assignment of its keys.
#[derive(Debug, Clone, PartialEq, Eq)]
pub struct Keyboard {
    pub rgb: bool,
    pub key_map_enabled: bool,
    pub keys: Vec<KeyDescriptor>,
}

/// The lighting settings chosen by the user.
#[derive(Debug, Clone, PartialEq, Eq)]
pub struct LightModeConfig {
    pub mode_bit: u8,
    pub animation: u8,
    pub brightness: u8,
    pub color: Option<Rgb>,
    pub random_colors: bool,
    pub sleep: u8,
    pub custom_colors: Option<Vec<PerKeyColor>>,
}

impl LightModeConfig {
    /// The per-key colours as a sequence, where there are any.
    pub open spec fn colors(self) -> Option<Seq<PerKeyColor>> {
        match self.custom_colors {
            Some(colors) => Some(colors@),
            None => None,
        }
    }
}

/// The key overrides chosen by the user, keyed by physical position.
#[derive(Debug, Clone, PartialEq, Eq)]
pub struct KeyMappingConfig {
    pub mappings: Vec<KeyMapping>,
}

/// What the user configured. An absent part leaves that subsystem untouched.
#[derive(Debug, Clone, PartialEq, Eq)]
pub struct KeyboardConfig {
    pub light_mode: Option<LightModeConfig>,
    pub key_mapping: Option<KeyMappingConfig>,
}

/// What a `Mode` stands for in contracts.
pub struct ModeView {
    pub name: Seq<char>,
    pub mode_bit: u8,
}

/// A lighting mode as shown to the user: a label and its protocol code.
#[derive(Debug, Clone, PartialEq, Eq)]
pub struct Mode {
    pub name: String,
    pub mode_bit: u8,
}

impl View for Mode {
    type V = ModeView;

    open spec fn view(&self) -> ModeView {
        ModeView { name: self.name@, mode_bit: self.mode_bit }
    }
}

} // verus!
