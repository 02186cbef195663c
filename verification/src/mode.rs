//! The closed set of game modes the facade supports, the numeric tag each
//! mode carries across the foreign boundary, and the rule that decides when
//! a calculation counts as a mode conversion.

use vstd::prelude::*;

verus! {

/// One of the four supported rhythm-game modes.
#[derive(Clone, Copy, Debug, PartialEq, Eq, Structural, Hash)]
pub enum Mode {
    Osu,
    Taiko,
    Catch,
    Mania,
}

/// The foreign-safe numeric tag of a mode: 0 for Osu, 1 for Taiko,
/// 2 for Catch, 3 for Mania.
pub open spec fn mode_tag_spec(m: Mode) -> u8 {
    match m {
        Mode::Osu => 0u8,
        Mode::Taiko => 1u8,
        Mode::Catch => 2u8,
        Mode::Mania => 3u8,
    }
}

impl Mode {
    /// The numeric tag used in the flat result record.
    pub fn tag(self) -> (r: u8)
        ensures
            r == mode_tag_spec(self),
    {
        match self {
            Mode::Osu => 0u8,
            Mode::Taiko => 1u8,
            Mode::Catch => 2u8,
            Mode::Mania => 3u8,
        }
    }
}

impl Default for Mode {
    /// The default mode is Osu.
    fn default() -> (r: Self)
        ensures
            r == Mode::Osu,
    {
        Mode::Osu
    }
}

/// A calculation is a mode conversion exactly when the beatmap is natively
/// an Osu map and the requested output mode is a different one. The basic
/// attribute builder applies cross-mode AR/OD conversion rules only then.
pub open spec fn is_convert_spec(native: Mode, out: Mode) -> bool {
    native == Mode::Osu && out != Mode::Osu
}

/// Decide whether recomputing basic attributes must treat the beatmap as a
/// converted map.
pub fn is_convert(native: Mode, out: Mode) -> (r: bool)
    ensures
        r == is_convert_spec(native, out),
{
    match native {
        Mode::Osu => !matches!(out, Mode::Osu),
        _ => false,
    }
}

/// The conversion flag is raised exactly for an Osu-native beatmap and a
/// non-Osu output mode; requesting Osu output never raises it, whatever the
/// native mode.
pub proof fn lemma_mode_conversion_flag(native: Mode, out: Mode)
    ensures
        native == Mode::Osu && (out == Mode::Catch || out == Mode::Mania)
            ==> is_convert_spec(native, out),
        out == Mode::Osu ==> !is_convert_spec(native, out),
        native != Mode::Osu ==> !is_convert_spec(native, out),
{
}

} // verus!
