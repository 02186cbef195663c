//! Normalization of one calculation's outcome: the mode-tagged attribute
//! union, the rebuilt basic attributes, and the beatmap's own data are
//! flattened into one fixed-layout record whose optional fields are
//! populated exactly for the fields meaningful to the result's mode.

use vstd::prelude::*;

use crate::attrs::{BasicAttrs, ModeAttrs};
use crate::beatmap::BeatmapHandle;
use crate::engine::{build_basic_attrs, mods_rate_bits, mul_bits, mul_f64_bits};
use crate::mode::{is_convert, mode_tag_spec, Mode};

verus! {

/// The flat, foreign-safe result record: a superset of every mode's fields.
/// `u64` scalars are bit patterns of doubles; optional fields are populated
/// only for the mode the result belongs to.
#[derive(Clone, Copy, Debug, PartialEq)]
pub struct CalculateResult {
    pub mode: u8,
    pub stars: u64,
    pub pp: u64,
    pub pp_acc: Option<u64>,
    pub pp_aim: Option<u64>,
    pub pp_flashlight: Option<u64>,
    pub pp_speed: Option<u64>,
    pub pp_strain: Option<u64>,
    pub n_fruits: Option<u32>,
    pub n_droplets: Option<u32>,
    pub n_tiny_droplets: Option<u32>,
    pub aim_strain: Option<u64>,
    pub speed_strain: Option<u64>,
    pub flashlight_rating: Option<u64>,
    pub slider_factor: Option<u64>,
    pub pp_difficulty: Option<u64>,
    pub effective_miss_count: Option<u64>,
    pub ar: u64,
    pub cs: u64,
    pub hp: u64,
    pub od: u64,
    pub bpm: u64,
    pub clock_rate: u64,
    pub time_preempt: Option<u64>,
    pub great_hit_window: Option<u64>,
    pub n_objects: Option<u32>,
    pub n_sliders: Option<u32>,
    pub n_spinners: Option<u32>,
    pub max_combo: Option<u32>,
}

/// The sum of two counts, reduced to the record's width as the foreign
/// layout demands.
pub open spec fn combo_sum(a: u32, b: u32) -> u32 {
    ((a + b) % 0x1_0000_0000) as u32
}

/// The record every mode starts from: tag, pp and stars of the union,
/// basic attributes as rebuilt, the displayed bpm as the base bpm times
/// the effective clock rate, and every optional field unset.
pub open spec fn base_flat(m: Mode, pp: u64, stars: u64, basic: BasicAttrs, map_bpm: u64) -> CalculateResult {
    CalculateResult {
        mode: mode_tag_spec(m),
        stars: stars,
        pp: pp,
        pp_acc: None,
        pp_aim: None,
        pp_flashlight: None,
        pp_speed: None,
        pp_strain: None,
        n_fruits: None,
        n_droplets: None,
        n_tiny_droplets: None,
        aim_strain: None,
        speed_strain: None,
        flashlight_rating: None,
        slider_factor: None,
        pp_difficulty: None,
        effective_miss_count: None,
        ar: basic.ar,
        cs: basic.cs,
        hp: basic.hp,
        od: basic.od,
        bpm: mul_bits(map_bpm, basic.clock_rate),
        clock_rate: basic.clock_rate,
        time_preempt: None,
        great_hit_window: None,
        n_objects: None,
        n_sliders: None,
        n_spinners: None,
        max_combo: None,
    }
}

/// The flattened record for one attribute union: the base record with
/// exactly the fields of the union's mode filled in. For Taiko the object
/// count deliberately comes from the beatmap's own hit-object list, not
/// from the difficulty attributes.
pub open spec fn flat_spec(a: ModeAttrs, basic: BasicAttrs, map_bpm: u64, map_objects: u32) -> CalculateResult {
    match a {
        ModeAttrs::Osu(o) => CalculateResult {
            pp_acc: Some(o.pp_acc),
            pp_aim: Some(o.pp_aim),
            pp_flashlight: Some(o.pp_flashlight),
            pp_speed: Some(o.pp_speed),
            effective_miss_count: Some(o.effective_miss_count),
            max_combo: Some(o.max_combo),
            aim_strain: Some(o.pp_aim),
            speed_strain: Some(o.pp_speed),
            flashlight_rating: Some(o.pp_flashlight),
            slider_factor: Some(o.slider_factor),
            n_objects: Some(o.n_circles),
            n_sliders: Some(o.n_sliders),
            n_spinners: Some(o.n_spinners),
            time_preempt: Some(basic.hw_ar),
            great_hit_window: Some(basic.hw_od_great),
            ..base_flat(Mode::Osu, o.pp, o.stars, basic, map_bpm)
        },
        ModeAttrs::Taiko(t) => CalculateResult {
            pp_acc: Some(t.pp_acc),
            pp_difficulty: Some(t.pp_difficulty),
            effective_miss_count: Some(t.effective_miss_count),
            max_combo: Some(t.max_combo),
            n_objects: Some(map_objects),
            great_hit_window: Some(basic.hw_od_great),
            ..base_flat(Mode::Taiko, t.pp, t.stars, basic, map_bpm)
        },
        ModeAttrs::Catch(c) => CalculateResult {
            max_combo: Some(combo_sum(c.n_fruits, c.n_droplets)),
            n_fruits: Some(c.n_fruits),
            n_droplets: Some(c.n_droplets),
            n_tiny_droplets: Some(c.n_tiny_droplets),
            ..base_flat(Mode::Catch, c.pp, c.stars, basic, map_bpm)
        },
        ModeAttrs::Mania(m) => CalculateResult {
            pp_difficulty: Some(m.pp_difficulty),
            n_sliders: Some(m.n_hold_notes),
            n_objects: Some(m.n_objects),
            great_hit_window: Some(basic.hw_od_great),
            ..base_flat(Mode::Mania, m.pp, m.stars, basic, map_bpm)
        },
    }
}

/// A result is a normalization of the union for a map with the given base
/// bpm and object count under some rebuilt basic attributes.
pub open spec fn normalized(a: ModeAttrs, map_bpm: u64, map_objects: u32, r: CalculateResult) -> bool {
    exists|basic: BasicAttrs| r == flat_spec(a, basic, map_bpm, map_objects)
}

/// Which optional fields a record populates for a given mode: exactly the
/// fields meaningful to that mode, and nothing else.
pub open spec fn populated_for_mode(r: CalculateResult, m: Mode) -> bool {
    &&& r.pp_acc.is_some() == (m == Mode::Osu || m == Mode::Taiko)
    &&& r.pp_aim.is_some() == (m == Mode::Osu)
    &&& r.pp_flashlight.is_some() == (m == Mode::Osu)
    &&& r.pp_speed.is_some() == (m == Mode::Osu)
    &&& !r.pp_strain.is_some()
    &&& r.n_fruits.is_some() == (m == Mode::Catch)
    &&& r.n_droplets.is_some() == (m == Mode::Catch)
    &&& r.n_tiny_droplets.is_some() == (m == Mode::Catch)
    &&& r.aim_strain.is_some() == (m == Mode::Osu)
    &&& r.speed_strain.is_some() == (m == Mode::Osu)
    &&& r.flashlight_rating.is_some() == (m == Mode::Osu)
    &&& r.slider_factor.is_some() == (m == Mode::Osu)
    &&& r.pp_difficulty.is_some() == (m == Mode::Taiko || m == Mode::Mania)
    &&& r.effective_miss_count.is_some() == (m == Mode::Osu || m == Mode::Taiko)
    &&& r.time_preempt.is_some() == (m == Mode::Osu)
    &&& r.great_hit_window.is_some() == (m == Mode::Osu || m == Mode::Taiko || m == Mode::Mania)
    &&& r.n_objects.is_some() == (m == Mode::Osu || m == Mode::Taiko || m == Mode::Mania)
    &&& r.n_sliders.is_some() == (m == Mode::Osu || m == Mode::Mania)
    &&& r.n_spinners.is_some() == (m == Mode::Osu)
    &&& r.max_combo.is_some() == (m == Mode::Osu || m == Mode::Taiko || m == Mode::Catch)
}

/// Add two counts, reducing the sum to the record's width.
pub fn add_counts(a: u32, b: u32) -> (r: u32)
    ensures
        r == combo_sum(a, b),
{
    let s: u64 = (a as u64) + (b as u64);
    if s <= 0xFFFF_FFFFu64 {
        s as u32
    } else {
        (s - 0x1_0000_0000u64) as u32
    }
}

/// The base record, executable form.
fn base_record(m: Mode, pp: u64, stars: u64, basic: BasicAttrs, map_bpm: u64) -> (r: CalculateResult)
    ensures
        r == base_flat(m, pp, stars, basic, map_bpm),
{
    let bpm = mul_f64_bits(map_bpm, basic.clock_rate);
    CalculateResult {
        mode: m.tag(),
        stars: stars,
        pp: pp,
        pp_acc: None,
        pp_aim: None,
        pp_flashlight: None,
        pp_speed: None,
        pp_strain: None,
        n_fruits: None,
        n_droplets: None,
        n_tiny_droplets: None,
        aim_strain: None,
        speed_strain: None,
        flashlight_rating: None,
        slider_factor: None,
        pp_difficulty: None,
        effective_miss_count: None,
        ar: basic.ar,
        cs: basic.cs,
        hp: basic.hp,
        od: basic.od,
        bpm: bpm,
        clock_rate: basic.clock_rate,
        time_preempt: None,
        great_hit_window: None,
        n_objects: None,
        n_sliders: None,
        n_spinners: None,
        max_combo: None,
    }
}

/// Flatten one attribute union over already-rebuilt basic attributes.
pub fn assemble(a: ModeAttrs, basic: BasicAttrs, map_bpm: u64, map_objects: u32) -> (r: CalculateResult)
    ensures
        r == flat_spec(a, basic, map_bpm, map_objects),
{
    match a {
        ModeAttrs::Osu(o) => CalculateResult {
            pp_acc: Some(o.pp_acc),
            pp_aim: Some(o.pp_aim),
            pp_flashlight: Some(o.pp_flashlight),
            pp_speed: Some(o.pp_speed),
            effective_miss_count: Some(o.effective_miss_count),
            max_combo: Some(o.max_combo),
            aim_strain: Some(o.pp_aim),
            speed_strain: Some(o.pp_speed),
            flashlight_rating: Some(o.pp_flashlight),
            slider_factor: Some(o.slider_factor),
            n_objects: Some(o.n_circles),
            n_sliders: Some(o.n_sliders),
            n_spinners: Some(o.n_spinners),
            time_preempt: Some(basic.hw_ar),
            great_hit_window: Some(basic.hw_od_great),
            ..base_record(Mode::Osu, o.pp, o.stars, basic, map_bpm)
        },
        ModeAttrs::Taiko(t) => CalculateResult {
            pp_acc: Some(t.pp_acc),
            pp_difficulty: Some(t.pp_difficulty),
            effective_miss_count: Some(t.effective_miss_count),
            max_combo: Some(t.max_combo),
            n_objects: Some(map_objects),
            great_hit_window: Some(basic.hw_od_great),
            ..base_record(Mode::Taiko, t.pp, t.stars, basic, map_bpm)
        },
        ModeAttrs::Catch(c) => CalculateResult {
            max_combo: Some(add_counts(c.n_fruits, c.n_droplets)),
            n_fruits: Some(c.n_fruits),
            n_droplets: Some(c.n_droplets),
            n_tiny_droplets: Some(c.n_tiny_droplets),
            ..base_record(Mode::Catch, c.pp, c.stars, basic, map_bpm)
        },
        ModeAttrs::Mania(m) => CalculateResult {
            pp_difficulty: Some(m.pp_difficulty),
            n_sliders: Some(m.n_hold_notes),
            n_objects: Some(m.n_objects),
            great_hit_window: Some(basic.hw_od_great),
            ..base_record(Mode::Mania, m.pp, m.stars, basic, map_bpm)
        },
    }
}

impl CalculateResult {
    /// Normalize one calculation: rebuild the basic attributes for the
    /// union's mode under the mods and the optional clock-rate override
    /// (raising the conversion flag exactly for a non-Osu result on an
    /// Osu-native map), then flatten the union over them. The record's
    /// effective clock rate is the override where one was supplied, and
    /// the rate the mods imply otherwise.
    pub fn new(a: ModeAttrs, map: &BeatmapHandle, mods: u32, clock_rate: Option<u64>) -> (r: CalculateResult)
        ensures
            normalized(a, map.bpm, map.n_hit_objects, r),
            clock_rate matches Some(cr) ==> r.clock_rate == cr,
            clock_rate is None ==> r.clock_rate == mods_rate_bits(mods),
    {
        let out_mode = a.mode();
        let convert = is_convert(map.native_mode, out_mode);
        let basic = build_basic_attrs(&map.raw, mods, out_mode, convert, clock_rate);
        assemble(a, basic, map.bpm, map.n_hit_objects)
    }
}

/// Field isolation: a normalized record carries its mode's tag and
/// populates exactly the optional fields meaningful to that mode.
pub proof fn lemma_field_isolation(a: ModeAttrs, map_bpm: u64, map_objects: u32, r: CalculateResult)
    requires
        normalized(a, map_bpm, map_objects, r),
    ensures
        r.mode == mode_tag_spec(crate::attrs::mode_of(a)),
        populated_for_mode(r, crate::attrs::mode_of(a)),
{
}

/// Round-trip bpm: a normalized record's displayed bpm is always the
/// map's base bpm multiplied by the record's own effective clock rate.
pub proof fn lemma_bpm_round_trip(a: ModeAttrs, map_bpm: u64, map_objects: u32, r: CalculateResult)
    requires
        normalized(a, map_bpm, map_objects, r),
    ensures
        r.bpm == mul_bits(map_bpm, r.clock_rate),
{
}

} // verus!
