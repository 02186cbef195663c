//! The mode-tagged union of performance attributes that the engine computes,
//! and the basic beatmap attributes that are recomputed per call. Scalar
//! values are carried as IEEE-754 bit patterns in `u64` fields.

use vstd::prelude::*;

use crate::mode::Mode;

verus! {

/// Performance attributes of an Osu calculation.
#[derive(Clone, Copy, Debug, PartialEq, Eq, Structural)]
pub struct OsuAttrs {
    pub pp: u64,
    pub pp_acc: u64,
    pub pp_aim: u64,
    pub pp_flashlight: u64,
    pub pp_speed: u64,
    pub effective_miss_count: u64,
    pub stars: u64,
    pub slider_factor: u64,
    pub max_combo: u32,
    pub n_circles: u32,
    pub n_sliders: u32,
    pub n_spinners: u32,
}

/// Performance attributes of a Taiko calculation.
#[derive(Clone, Copy, Debug, PartialEq, Eq, Structural)]
pub struct TaikoAttrs {
    pub pp: u64,
    pub pp_acc: u64,
    pub pp_difficulty: u64,
    pub effective_miss_count: u64,
    pub stars: u64,
    pub max_combo: u32,
}

/// Performance attributes of a Catch calculation.
#[derive(Clone, Copy, Debug, PartialEq, Eq, Structural)]
pub struct CatchAttrs {
    pub pp: u64,
    pub stars: u64,
    pub n_fruits: u32,
    pub n_droplets: u32,
    pub n_tiny_droplets: u32,
}

/// Performance attributes of a Mania calculation.
#[derive(Clone, Copy, Debug, PartialEq, Eq, Structural)]
pub struct ManiaAttrs {
    pub pp: u64,
    pub pp_difficulty: u64,
    pub stars: u64,
    pub n_objects: u32,
    pub n_hold_notes: u32,
}

/// The closed union of per-mode performance attributes, one variant per
/// supported mode.
#[derive(Clone, Copy, Debug, PartialEq, Eq, Structural)]
pub enum ModeAttrs {
    Osu(OsuAttrs),
    Taiko(TaikoAttrs),
    Catch(CatchAttrs),
    Mania(ManiaAttrs),
}

/// The mode a set of performance attributes belongs to.
pub open spec fn mode_of(a: ModeAttrs) -> Mode {
    match a {
        ModeAttrs::Osu(_) => Mode::Osu,
        ModeAttrs::Taiko(_) => Mode::Taiko,
        ModeAttrs::Catch(_) => Mode::Catch,
        ModeAttrs::Mania(_) => Mode::Mania,
    }
}

/// The performance-point bit pattern shared by every variant.
pub open spec fn pp_bits_of(a: ModeAttrs) -> u64 {
    match a {
        ModeAttrs::Osu(o) => o.pp,
        ModeAttrs::Taiko(t) => t.pp,
        ModeAttrs::Catch(c) => c.pp,
        ModeAttrs::Mania(m) => m.pp,
    }
}

/// The star-rating bit pattern shared by every variant.
pub open spec fn stars_bits_of(a: ModeAttrs) -> u64 {
    match a {
        ModeAttrs::Osu(o) => o.stars,
        ModeAttrs::Taiko(t) => t.stars,
        ModeAttrs::Catch(c) => c.stars,
        ModeAttrs::Mania(m) => m.stars,
    }
}

impl ModeAttrs {
    /// The mode tag of this attribute union.
    pub fn mode(&self) -> (m: Mode)
        ensures
            m == mode_of(*self),
    {
        match self {
            ModeAttrs::Osu(_) => Mode::Osu,
            ModeAttrs::Taiko(_) => Mode::Taiko,
            ModeAttrs::Catch(_) => Mode::Catch,
            ModeAttrs::Mania(_) => Mode::Mania,
        }
    }
}

/// Basic beatmap attributes rebuilt for one calculation: approach rate,
/// overall difficulty, circle size, drain rate, the effective clock rate,
/// and the two hit windows, all as bit patterns of doubles.
#[derive(Clone, Copy, Debug, PartialEq, Eq, Structural)]
pub struct BasicAttrs {
    pub ar: u64,
    pub od: u64,
    pub cs: u64,
    pub hp: u64,
    pub clock_rate: u64,
    pub hw_ar: u64,
    pub hw_od_great: u64,
}

} // verus!
