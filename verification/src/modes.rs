//! The lighting modes of the two keyboard families.

use vstd::prelude::*;
use crate::lemmas::lemma_catalog_effects_ascend;
use crate::models::{Mode, ModeView};

verus! {

/// Lighting modes of multi-colour keyboards.
#[derive(Debug, Clone, Copy, PartialEq, Eq, Structural)]
pub enum RgbMode {
    Custom,
    NeonStream,
    RipplesShining,
    RotatingWindmill,
    SineWave,
    RainbowRoulette,
    StarsTwinkle,
    LayerUponLayer,
    RichAndHonored,
    MarqueeEffect,
    RotatingStorm,
    SerpentineHorseRace,
    RetroSnake,
    DiagonalTransformation,
    Ambilight,
    Streamer,
    Steady,
    Breathing,
    Neon,
    ShadowDisappear,
    FlashAway,
}

/// Lighting modes of single-colour keyboards.
#[derive(Debug, Clone, Copy, PartialEq, Eq, Structural)]
pub enum SingleColorMode {
    Steady,
    Custom,
    Breathing,
    PressAndDestroy,
    NeonStream,
    Streamer,
    Ambilight,
    DripplingRipples,
    BrilliantPoint,
    FlashAway,
    ShadowDisappear,
    RipplesShining,
    RichAndHonored,
    MarqueeEffect,
    RotatingStorm,
    SerpentineHorseRace,
    StarsTwinkle,
    RetroSnake,
    DiagonalTransformation,
    SineWave,
}

impl RgbMode {
    /// The protocol code of the mode.
    pub open spec fn code_spec(self) -> u8 {
        match self {
            RgbMode::Custom => 0,
            RgbMode::NeonStream => 1,
            RgbMode::RipplesShining => 2,
            RgbMode::RotatingWindmill => 3,
            RgbMode::SineWave => 4,
            RgbMode::RainbowRoulette => 5,
            RgbMode::StarsTwinkle => 6,
            RgbMode::LayerUponLayer => 7,
            RgbMode::RichAndHonored => 8,
            RgbMode::MarqueeEffect => 9,
            RgbMode::RotatingStorm => 10,
            RgbMode::SerpentineHorseRace => 11,
            RgbMode::RetroSnake => 12,
            RgbMode::DiagonalTransformation => 13,
            RgbMode::Ambilight => 14,
            RgbMode::Streamer => 15,
            RgbMode::Steady => 16,
            RgbMode::Breathing => 17,
            RgbMode::Neon => 18,
            RgbMode::ShadowDisappear => 19,
            RgbMode::FlashAway => 20,
        }
    }

    /// The label shown for the mode.
    pub open spec fn label_spec(self) -> Seq<char> {
        match self {
            RgbMode::Custom => "Custom"@,
            RgbMode::NeonStream => "Neon Stream"@,
            RgbMode::RipplesShining => "Ripples Shining"@,
            RgbMode::RotatingWindmill => "Rotating Windmill"@,
            RgbMode::SineWave => "Sine Wave"@,
            RgbMode::RainbowRoulette => "Rainbow Roulette"@,
            RgbMode::StarsTwinkle => "Stars Twinkle"@,
            RgbMode::LayerUponLayer => "Layer Upon Layer"@,
            RgbMode::RichAndHonored => "Rich And Honored"@,
            RgbMode::MarqueeEffect => "Marquee Effect"@,
            RgbMode::RotatingStorm => "Rotating Storm"@,
            RgbMode::SerpentineHorseRace => "Serpentine Horse Race"@,
            RgbMode::RetroSnake => "Retro Snake"@,
            RgbMode::DiagonalTransformation => "Diagonal Transformation"@,
            RgbMode::Ambilight => "Ambilight"@,
            RgbMode::Streamer => "Streamer"@,
            RgbMode::Steady => "Steady"@,
            RgbMode::Breathing => "Breathing"@,
            RgbMode::Neon => "Neon"@,
            RgbMode::ShadowDisappear => "Shadow Disappear"@,
            RgbMode::FlashAway => "Flash Away"@,
        }
    }

    /// The catalogue entry of the mode.
    pub open spec fn entry(self) -> ModeView {
        ModeView { name: self.label_spec(), mode_bit: self.code_spec() }
    }

    /// The protocol code of the mode.
    pub fn code(self) -> (code: u8)
        ensures
            code == self.code_spec(),
    {
        match self {
            RgbMode::Custom => 0,
            RgbMode::NeonStream => 1,
            RgbMode::RipplesShining => 2,
            RgbMode::RotatingWindmill => 3,
            RgbMode::SineWave => 4,
            RgbMode::RainbowRoulette => 5,
            RgbMode::StarsTwinkle => 6,
            RgbMode::LayerUponLayer => 7,
            RgbMode::RichAndHonored => 8,
            RgbMode::MarqueeEffect => 9,
            RgbMode::RotatingStorm => 10,
            RgbMode::SerpentineHorseRace => 11,
            RgbMode::RetroSnake => 12,
            RgbMode::DiagonalTransformation => 13,
            RgbMode::Ambilight => 14,
            RgbMode::Streamer => 15,
            RgbMode::Steady => 16,
            RgbMode::Breathing => 17,
            RgbMode::Neon => 18,
            RgbMode::ShadowDisappear => 19,
            RgbMode::FlashAway => 20,
        }
    }

    /// The label shown for the mode.
    pub fn label(self) -> (label: &'static str)
        ensures
            label@ == self.label_spec(),
    {
        match self {
            RgbMode::Custom => "Custom",
            RgbMode::NeonStream => "Neon Stream",
            RgbMode::RipplesShining => "Ripples Shining",
            RgbMode::RotatingWindmill => "Rotating Windmill",
            RgbMode::SineWave => "Sine Wave",
            RgbMode::RainbowRoulette => "Rainbow Roulette",
            RgbMode::StarsTwinkle => "Stars Twinkle",
            RgbMode::LayerUponLayer => "Layer Upon Layer",
            RgbMode::RichAndHonored => "Rich And Honored",
            RgbMode::MarqueeEffect => "Marquee Effect",
            RgbMode::RotatingStorm => "Rotating Storm",
            RgbMode::SerpentineHorseRace => "Serpentine Horse Race",
            RgbMode::RetroSnake => "Retro Snake",
            RgbMode::DiagonalTransformation => "Diagonal Transformation",
            RgbMode::Ambilight => "Ambilight",
            RgbMode::Streamer => "Streamer",
            RgbMode::Steady => "Steady",
            RgbMode::Breathing => "Breathing",
            RgbMode::Neon => "Neon",
            RgbMode::ShadowDisappear => "Shadow Disappear",
            RgbMode::FlashAway => "Flash Away",
        }
    }

    /// The mode as a catalogue entry.
    pub fn to_mode(self) -> (mode: Mode)
        ensures
            mode@ == self.entry(),
    {
        Mode { name: self.label().to_owned(), mode_bit: self.code() }
    }
}

impl SingleColorMode {
    /// The protocol code of the mode.
    pub open spec fn code_spec(self) -> u8 {
        match self {
            SingleColorMode::Steady => 1,
            SingleColorMode::Custom => 2,
            SingleColorMode::Breathing => 3,
            SingleColorMode::PressAndDestroy => 4,
            SingleColorMode::NeonStream => 5,
            SingleColorMode::Streamer => 6,
            SingleColorMode::Ambilight => 7,
            SingleColorMode::DripplingRipples => 8,
            SingleColorMode::BrilliantPoint => 9,
            SingleColorMode::FlashAway => 10,
            SingleColorMode::ShadowDisappear => 11,
            SingleColorMode::RipplesShining => 12,
            SingleColorMode::RichAndHonored => 13,
            SingleColorMode::MarqueeEffect => 14,
            SingleColorMode::RotatingStorm => 15,
            SingleColorMode::SerpentineHorseRace => 16,
            SingleColorMode::StarsTwinkle => 17,
            SingleColorMode::RetroSnake => 18,
            SingleColorMode::DiagonalTransformation => 19,
            SingleColorMode::SineWave => 20,
        }
    }

    /// The label shown for the mode.
    pub open spec fn label_spec(self) -> Seq<char> {
        match self {
            SingleColorMode::Steady => "Steady"@,
            SingleColorMode::Custom => "Custom"@,
            SingleColorMode::Breathing => "Breathing"@,
            SingleColorMode::PressAndDestroy => "Press And Destroy"@,
            SingleColorMode::NeonStream => "Neon Stream"@,
            SingleColorMode::Streamer => "Streamer"@,
            SingleColorMode::Ambilight => "Ambilight"@,
            SingleColorMode::DripplingRipples => "Drippling Ripples"@,
            SingleColorMode::BrilliantPoint => "Brilliant Point"@,
            SingleColorMode::FlashAway => "Flash Away"@,
            SingleColorMode::ShadowDisappear => "Shadow Disappear"@,
            SingleColorMode::RipplesShining => "Ripples Shining"@,
            SingleColorMode::RichAndHonored => "Rich And Honored"@,
            SingleColorMode::MarqueeEffect => "Marquee Effect"@,
            SingleColorMode::RotatingStorm => "Rotating Storm"@,
            SingleColorMode::SerpentineHorseRace => "Serpentine Horse Race"@,
            SingleColorMode::StarsTwinkle => "Stars Twinkle"@,
            SingleColorMode::RetroSnake => "Retro Snake"@,
            SingleColorMode::DiagonalTransformation => "Diagonal Transformation"@,
            SingleColorMode::SineWave => "Sine Wave"@,
        }
    }

    /// The catalogue entry of the mode.
    pub open spec fn entry(self) -> ModeView {
        ModeView { name: self.label_spec(), mode_bit: self.code_spec() }
    }

    /// The protocol code of the mode.
    pub fn code(self) -> (code: u8)
        ensures
            code == self.code_spec(),
    {
        match self {
            SingleColorMode::Steady => 1,
            SingleColorMode::Custom => 2,
            SingleColorMode::Breathing => 3,
            SingleColorMode::PressAndDestroy => 4,
            SingleColorMode::NeonStream => 5,
            SingleColorMode::Streamer => 6,
            SingleColorMode::Ambilight => 7,
            SingleColorMode::DripplingRipples => 8,
            SingleColorMode::BrilliantPoint => 9,
            SingleColorMode::FlashAway => 10,
            SingleColorMode::ShadowDisappear => 11,
            SingleColorMode::RipplesShining => 12,
            SingleColorMode::RichAndHonored => 13,
            SingleColorMode::MarqueeEffect => 14,
            SingleColorMode::RotatingStorm => 15,
            SingleColorMode::SerpentineHorseRace => 16,
            SingleColorMode::StarsTwinkle => 17,
            SingleColorMode::RetroSnake => 18,
            SingleColorMode::DiagonalTransformation => 19,
            SingleColorMode::SineWave => 20,
        }
    }

    /// The label shown for the mode.
    pub fn label(self) -> (label: &'static str)
        ensures
            label@ == self.label_spec(),
    {
        match self {
            SingleColorMode::Steady => "Steady",
            SingleColorMode::Custom => "Custom",
            SingleColorMode::Breathing => "Breathing",
            SingleColorMode::PressAndDestroy => "Press And Destroy",
            SingleColorMode::NeonStream => "Neon Stream",
            SingleColorMode::Streamer => "Streamer",
            SingleColorMode::Ambilight => "Ambilight",
            SingleColorMode::DripplingRipples => "Drippling Ripples",
            SingleColorMode::BrilliantPoint => "Brilliant Point",
            SingleColorMode::FlashAway => "Flash Away",
            SingleColorMode::ShadowDisappear => "Shadow Disappear",
            SingleColorMode::RipplesShining => "Ripples Shining",
            SingleColorMode::RichAndHonored => "Rich And Honored",
            SingleColorMode::MarqueeEffect => "Marquee Effect",
            SingleColorMode::RotatingStorm => "Rotating Storm",
            SingleColorMode::SerpentineHorseRace => "Serpentine Horse Race",
            SingleColorMode::StarsTwinkle => "Stars Twinkle",
            SingleColorMode::RetroSnake => "Retro Snake",
            SingleColorMode::DiagonalTransformation => "Diagonal Transformation",
            SingleColorMode::SineWave => "Sine Wave",
        }
    }

    /// The mode as a catalogue entry.
    pub fn to_mode(self) -> (mode: Mode)
        ensures
            mode@ == self.entry(),
    {
        Mode { name: self.label().to_owned(), mode_bit: self.code() }
    }
}

/// The multi-colour modes in the order in which they are offered: the custom
/// mode first, the built-in effects after it by label.
pub open spec fn rgb_order() -> Seq<RgbMode> {
    seq![
        RgbMode::Custom,
        RgbMode::Ambilight,
        RgbMode::Breathing,
        RgbMode::DiagonalTransformation,
        RgbMode::FlashAway,
        RgbMode::LayerUponLayer,
        RgbMode::MarqueeEffect,
        RgbMode::Neon,
        RgbMode::NeonStream,
        RgbMode::RainbowRoulette,
        RgbMode::RetroSnake,
        RgbMode::RichAndHonored,
        RgbMode::RipplesShining,
        RgbMode::RotatingStorm,
        RgbMode::RotatingWindmill,
        RgbMode::SerpentineHorseRace,
        RgbMode::ShadowDisappear,
        RgbMode::SineWave,
        RgbMode::StarsTwinkle,
        RgbMode::Steady,
        RgbMode::Streamer,
    ]
}

/// The single-colour modes in the order in which they are offered: the
/// custom mode first, the built-in effects after it by label.
pub open spec fn single_color_order() -> Seq<SingleColorMode> {
    seq![
        SingleColorMode::Custom,
        SingleColorMode::Ambilight,
        SingleColorMode::Breathing,
        SingleColorMode::BrilliantPoint,
        SingleColorMode::DiagonalTransformation,
        SingleColorMode::DripplingRipples,
        SingleColorMode::FlashAway,
        SingleColorMode::MarqueeEffect,
        SingleColorMode::NeonStream,
        SingleColorMode::PressAndDestroy,
        SingleColorMode::RetroSnake,
        SingleColorMode::RichAndHonored,
        SingleColorMode::RipplesShining,
        SingleColorMode::RotatingStorm,
        SingleColorMode::SerpentineHorseRace,
        SingleColorMode::ShadowDisappear,
        SingleColorMode::SineWave,
        SingleColorMode::StarsTwinkle,
        SingleColorMode::Steady,
        SingleColorMode::Streamer,
    ]
}

/// Whether `a` and `b` agree in their first `k` characters and `a` comes
/// first by what follows: it ends there and `b` goes on, or its next
/// character is the smaller one.
pub open spec fn differs_at(a: Seq<char>, b: Seq<char>, k: int) -> bool {
    &&& 0 <= k <= a.len()
    &&& k <= b.len()
    &&& a.take(k) == b.take(k)
    &&& if k == a.len() {
        k < b.len()
    } else {
        k < b.len() && (a[k] as u32) < (b[k] as u32)
    }
}

/// Whether label `a` comes before label `b` in the order of a dictionary.
pub open spec fn label_before(a: Seq<char>, b: Seq<char>) -> bool {
    exists|k: int| #[trigger] differs_at(a, b, k)
}

/// Whether the entries that follow the first ascend by label: of any two,
/// the one that stands first has the label that comes first.
pub open spec fn effects_ascend(list: Seq<ModeView>) -> bool {
    forall|i: int, j: int|
        1 <= i < j < list.len() ==> label_before(#[trigger] list[i].name, #[trigger] list[j].name)
}

/// The catalogue of a family as contracts see it.
pub open spec fn catalog(is_rgb: bool) -> Seq<ModeView> {
    if is_rgb {
        rgb_order().map_values(|m: RgbMode| m.entry())
    } else {
        single_color_order().map_values(|m: SingleColorMode| m.entry())
    }
}

/// What a list of modes stands for in contracts.
pub open spec fn mode_views(modes: Seq<Mode>) -> Seq<ModeView> {
    modes.map_values(|m: Mode| m@)
}

/// Whether `mode_bit` is the code that the family reserves for per-key colours.
pub open spec fn is_custom(mode_bit: u8, is_rgb: bool) -> bool {
    if is_rgb {
        mode_bit == RgbMode::Custom.code_spec()
    } else {
        mode_bit == SingleColorMode::Custom.code_spec()
    }
}

/// All lighting modes of multi-colour keyboards.
pub fn get_rgb_modes() -> (modes: Vec<Mode>)
    ensures
        modes@.len() == 21,
        mode_views(modes@) == catalog(true),
        effects_ascend(mode_views(modes@)),
{
    let mut modes: Vec<Mode> = Vec::new();
    modes.push(RgbMode::Custom.to_mode());
    modes.push(RgbMode::Ambilight.to_mode());
    modes.push(RgbMode::Breathing.to_mode());
    modes.push(RgbMode::DiagonalTransformation.to_mode());
    modes.push(RgbMode::FlashAway.to_mode());
    modes.push(RgbMode::LayerUponLayer.to_mode());
    modes.push(RgbMode::MarqueeEffect.to_mode());
    modes.push(RgbMode::Neon.to_mode());
    modes.push(RgbMode::NeonStream.to_mode());
    modes.push(RgbMode::RainbowRoulette.to_mode());
    modes.push(RgbMode::RetroSnake.to_mode());
    modes.push(RgbMode::RichAndHonored.to_mode());
    modes.push(RgbMode::RipplesShining.to_mode());
    modes.push(RgbMode::RotatingStorm.to_mode());
    modes.push(RgbMode::RotatingWindmill.to_mode());
    modes.push(RgbMode::SerpentineHorseRace.to_mode());
    modes.push(RgbMode::ShadowDisappear.to_mode());
    modes.push(RgbMode::SineWave.to_mode());
    modes.push(RgbMode::StarsTwinkle.to_mode());
    modes.push(RgbMode::Steady.to_mode());
    modes.push(RgbMode::Streamer.to_mode());
    assert(mode_views(modes@) =~= catalog(true));
    proof {
        lemma_catalog_effects_ascend(true);
    }
    modes
}

/// All lighting modes of single-colour keyboards.
pub fn get_single_color_modes() -> (modes: Vec<Mode>)
    ensures
        modes@.len() == 20,
        mode_views(modes@) == catalog(false),
        effects_ascend(mode_views(modes@)),
{
    let mut modes: Vec<Mode> = Vec::new();
    modes.push(SingleColorMode::Custom.to_mode());
    modes.push(SingleColorMode::Ambilight.to_mode());
    modes.push(SingleColorMode::Breathing.to_mode());
    modes.push(SingleColorMode::BrilliantPoint.to_mode());
    modes.push(SingleColorMode::DiagonalTransformation.to_mode());
    modes.push(SingleColorMode::DripplingRipples.to_mode());
    modes.push(SingleColorMode::FlashAway.to_mode());
    modes.push(SingleColorMode::MarqueeEffect.to_mode());
    modes.push(SingleColorMode::NeonStream.to_mode());
    modes.push(SingleColorMode::PressAndDestroy.to_mode());
    modes.push(SingleColorMode::RetroSnake.to_mode());
    modes.push(SingleColorMode::RichAndHonored.to_mode());
    modes.push(SingleColorMode::RipplesShining.to_mode());
    modes.push(SingleColorMode::RotatingStorm.to_mode());
    modes.push(SingleColorMode::SerpentineHorseRace.to_mode());
    modes.push(SingleColorMode::ShadowDisappear.to_mode());
    modes.push(SingleColorMode::SineWave.to_mode());
    modes.push(SingleColorMode::StarsTwinkle.to_mode());
    modes.push(SingleColorMode::Steady.to_mode());
    modes.push(SingleColorMode::Streamer.to_mode());
    assert(mode_views(modes@) =~= catalog(false));
    proof {
        lemma_catalog_effects_ascend(false);
    }
    modes
}

/// The lighting modes of the given family.
pub fn list_modes(is_rgb: bool) -> (modes: Vec<Mode>)
    ensures
        modes@.len() == (if is_rgb { 21int } else { 20int }),
        mode_views(modes@) == catalog(is_rgb),
        effects_ascend(mode_views(modes@)),
{
    if is_rgb {
        get_rgb_modes()
    } else {
        get_single_color_modes()
    }
}

/// Whether `mode_bit` selects per-key colours on a keyboard of the given family.
pub fn is_custom_mode(mode_bit: u8, is_rgb: bool) -> (custom: bool)
    ensures
        custom == is_custom(mode_bit, is_rgb),
        custom == ((is_rgb && mode_bit == 0) || (!is_rgb && mode_bit == 2)),
{
    if is_rgb {
        mode_bit == RgbMode::Custom.code()
    } else {
        mode_bit == SingleColorMode::Custom.code()
    }
}

} // verus!
