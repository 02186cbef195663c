//! The trusted boundary to the rosu-pp engine. Every item here is believed,
//! not proved: each wrapper's body makes one engine call and only converts
//! plain values at its edges, and each doc comment names the engine function
//! it relies on. Doubles never cross into verified code; they are carried as
//! `u64` bit patterns, and `bytemuck::cast` reinterprets a pattern as the
//! double an engine call expects.

use vstd::prelude::*;

use crate::attrs::{BasicAttrs, CatchAttrs, ManiaAttrs, ModeAttrs, OsuAttrs, TaikoAttrs};
use crate::mode::Mode;
use rosu_pp::any::{HitResultPriority, Performance, PerformanceAttributes};
use rosu_pp::catch::CatchPerformanceAttributes;
use rosu_pp::mania::ManiaPerformanceAttributes;
use rosu_pp::model::beatmap::HitWindows;
use rosu_pp::model::mode::GameMode;
use rosu_pp::osu::OsuPerformanceAttributes;
use rosu_pp::taiko::TaikoPerformanceAttributes;
use rosu_pp::Beatmap;

verus! {

#[verifier::external_type_specification]
#[verifier::external_body]
pub struct ExBeatmap(Beatmap);

#[verifier::external_type_specification]
#[verifier::external_body]
pub struct ExPerformance<'map>(Performance<'map>);

#[verifier::external_type_specification]
#[verifier::external_body]
pub struct ExOsuPerformanceAttributes(OsuPerformanceAttributes);

#[verifier::external_type_specification]
#[verifier::external_body]
pub struct ExTaikoPerformanceAttributes(TaikoPerformanceAttributes);

#[verifier::external_type_specification]
#[verifier::external_body]
pub struct ExCatchPerformanceAttributes(CatchPerformanceAttributes);

#[verifier::external_type_specification]
#[verifier::external_body]
pub struct ExManiaPerformanceAttributes(ManiaPerformanceAttributes);

/// What the double multiplication of two bit patterns returns; a pure
/// function of the two operands.
pub uninterp spec fn mul_bits(a: u64, b: u64) -> u64;

/// Whether the engine accepts the given bytes as a beatmap; a pure
/// function of the bytes.
pub uninterp spec fn parses(bytes: Seq<u8>) -> bool;

/// The effective clock rate implied by a legacy mod bitmask alone, as a
/// bit pattern; a pure function of the bitmask.
pub uninterp spec fn mods_rate_bits(mods: u32) -> u64;

/// Relies on the host's double multiplication. The double type itself
/// cannot be written in this crate, so the engine's `HitWindows` record,
/// whose fields are plain public doubles, anchors the reinterpretation of
/// the two operands; `bytemuck::cast` reinterprets each bit pattern.
#[verifier::external_body]
pub(crate) fn mul_f64_bits(a: u64, b: u64) -> (r: u64)
    ensures
        r == mul_bits(a, b),
{
    let w = HitWindows {
        ar: bytemuck::cast(a), od_great: bytemuck::cast(b), od_ok: None, od_meh: None,
    };
    (w.ar * w.od_great).to_bits()
}

/// Relies on Beatmap::from_bytes: parses the content of a `.osu` file;
/// `None` exactly when the engine rejected the bytes, which depends on the
/// bytes alone.
#[verifier::external_body]
pub(crate) fn parse_beatmap(bytes: &[u8]) -> (r: Option<Beatmap>)
    ensures
        (r is Some) == parses(bytes@),
{
    Beatmap::from_bytes(bytes).ok()
}

/// Relies on the public `mode` field of Beatmap, telling its variants apart.
#[verifier::external_body]
pub(crate) fn map_native_mode(map: &Beatmap) -> (r: Mode) {
    match map.mode {
        GameMode::Osu => Mode::Osu,
        GameMode::Taiko => Mode::Taiko,
        GameMode::Catch => Mode::Catch,
        GameMode::Mania => Mode::Mania,
    }
}

/// Relies on Beatmap::bpm: the base beats per minute of the map.
#[verifier::external_body]
pub(crate) fn map_bpm_bits(map: &Beatmap) -> (r: u64) {
    map.bpm().to_bits()
}

/// Relies on the public `hit_objects` field of Beatmap: the number of hit
/// objects on the map, truncated to the record's width.
#[verifier::external_body]
pub(crate) fn map_object_count(map: &Beatmap) -> (r: u32) {
    map.hit_objects.len() as u32
}

/// Relies on Performance::new on a parsed beatmap.
#[verifier::external_body]
pub(crate) fn perf_new<'m>(map: &'m Beatmap) -> (r: Performance<'m>) {
    Performance::new(map)
}

/// Relies on Performance::mode_or_ignore: converts the map to the given
/// mode, or keeps it unchanged where the conversion is incompatible.
#[verifier::external_body]
pub(crate) fn perf_mode_or_ignore<'m>(p: Performance<'m>, mode: Mode) -> (r: Performance<'m>) {
    let gm = match mode {
        Mode::Osu => GameMode::Osu,
        Mode::Taiko => GameMode::Taiko,
        Mode::Catch => GameMode::Catch,
        Mode::Mania => GameMode::Mania,
    };
    p.mode_or_ignore(gm)
}

/// Relies on Performance::n300.
#[verifier::external_body]
pub(crate) fn perf_n300<'m>(p: Performance<'m>, v: u32) -> (r: Performance<'m>) {
    p.n300(v)
}

/// Relies on Performance::n100.
#[verifier::external_body]
pub(crate) fn perf_n100<'m>(p: Performance<'m>, v: u32) -> (r: Performance<'m>) {
    p.n100(v)
}

/// Relies on Performance::n50.
#[verifier::external_body]
pub(crate) fn perf_n50<'m>(p: Performance<'m>, v: u32) -> (r: Performance<'m>) {
    p.n50(v)
}

/// Relies on Performance::misses.
#[verifier::external_body]
pub(crate) fn perf_misses<'m>(p: Performance<'m>, v: u32) -> (r: Performance<'m>) {
    p.misses(v)
}

/// Relies on Performance::n_katu.
#[verifier::external_body]
pub(crate) fn perf_n_katu<'m>(p: Performance<'m>, v: u32) -> (r: Performance<'m>) {
    p.n_katu(v)
}

/// Relies on Performance::combo.
#[verifier::external_body]
pub(crate) fn perf_combo<'m>(p: Performance<'m>, v: u32) -> (r: Performance<'m>) {
    p.combo(v)
}

/// Relies on Performance::passed_objects.
#[verifier::external_body]
pub(crate) fn perf_passed_objects<'m>(p: Performance<'m>, v: u32) -> (r: Performance<'m>) {
    p.passed_objects(v)
}

/// Relies on Performance::clock_rate; the bit pattern is reinterpreted as
/// the double the engine expects.
#[verifier::external_body]
pub(crate) fn perf_clock_rate_bits<'m>(p: Performance<'m>, bits: u64) -> (r: Performance<'m>) {
    p.clock_rate(bytemuck::cast(bits))
}

/// Relies on Performance::mods with a legacy mod bitmask.
#[verifier::external_body]
pub(crate) fn perf_mods<'m>(p: Performance<'m>, mods: u32) -> (r: Performance<'m>) {
    p.mods(mods)
}

/// Relies on Performance::hitresult_priority with the engine's `Fastest`
/// policy, the one deterministic hit-result synthesis this facade forces.
#[verifier::external_body]
pub(crate) fn perf_hitresult_fastest<'m>(p: Performance<'m>) -> (r: Performance<'m>) {
    p.hitresult_priority(HitResultPriority::Fastest)
}

/// Relies on Performance::accuracy; the bit pattern is reinterpreted as the
/// double the engine expects.
#[verifier::external_body]
pub(crate) fn perf_accuracy_bits<'m>(p: Performance<'m>, bits: u64) -> (r: Performance<'m>) {
    p.accuracy(bytemuck::cast(bits))
}

/// Relies on Performance::calculate, telling the variants of the returned
/// attribute union apart; each payload is converted field by field. The
/// conversion expectation inside `calculate` cannot fire for a calculator
/// built from a beatmap, since its variant always matches the map's mode.
#[verifier::external_body]
pub(crate) fn perf_calculate<'m>(p: Performance<'m>) -> (r: ModeAttrs) {
    match p.calculate() {
        PerformanceAttributes::Osu(a) => ModeAttrs::Osu(cvt_osu(a)),
        PerformanceAttributes::Taiko(a) => ModeAttrs::Taiko(cvt_taiko(a)),
        PerformanceAttributes::Catch(a) => ModeAttrs::Catch(cvt_catch(a)),
        PerformanceAttributes::Mania(a) => ModeAttrs::Mania(cvt_mania(a)),
    }
}

/// Relies on the public fields of OsuPerformanceAttributes and its nested
/// difficulty record; moves each field, doubles as bit patterns.
#[verifier::external_body]
pub(crate) fn cvt_osu(a: OsuPerformanceAttributes) -> (r: OsuAttrs) {
    OsuAttrs {
        pp: a.pp.to_bits(), pp_acc: a.pp_acc.to_bits(), pp_aim: a.pp_aim.to_bits(),
        pp_flashlight: a.pp_flashlight.to_bits(), pp_speed: a.pp_speed.to_bits(),
        effective_miss_count: a.effective_miss_count.to_bits(),
        stars: a.difficulty.stars.to_bits(), slider_factor: a.difficulty.slider_factor.to_bits(),
        max_combo: a.difficulty.max_combo, n_circles: a.difficulty.n_circles,
        n_sliders: a.difficulty.n_sliders, n_spinners: a.difficulty.n_spinners,
    }
}

/// Relies on the public fields of TaikoPerformanceAttributes and its nested
/// difficulty record; moves each field, doubles as bit patterns.
#[verifier::external_body]
pub(crate) fn cvt_taiko(a: TaikoPerformanceAttributes) -> (r: TaikoAttrs) {
    TaikoAttrs {
        pp: a.pp.to_bits(), pp_acc: a.pp_acc.to_bits(),
        pp_difficulty: a.pp_difficulty.to_bits(),
        effective_miss_count: a.effective_miss_count.to_bits(),
        stars: a.difficulty.stars.to_bits(), max_combo: a.difficulty.max_combo,
    }
}

/// Relies on the public fields of CatchPerformanceAttributes and its nested
/// difficulty record; moves each field, doubles as bit patterns.
#[verifier::external_body]
pub(crate) fn cvt_catch(a: CatchPerformanceAttributes) -> (r: CatchAttrs) {
    CatchAttrs {
        pp: a.pp.to_bits(), stars: a.difficulty.stars.to_bits(),
        n_fruits: a.difficulty.n_fruits, n_droplets: a.difficulty.n_droplets,
        n_tiny_droplets: a.difficulty.n_tiny_droplets,
    }
}

/// Relies on the public fields of ManiaPerformanceAttributes and its nested
/// difficulty record; moves each field, doubles as bit patterns.
#[verifier::external_body]
pub(crate) fn cvt_mania(a: ManiaPerformanceAttributes) -> (r: ManiaAttrs) {
    ManiaAttrs {
        pp: a.pp.to_bits(), pp_difficulty: a.pp_difficulty.to_bits(),
        stars: a.difficulty.stars.to_bits(), n_objects: a.difficulty.n_objects,
        n_hold_notes: a.difficulty.n_hold_notes,
    }
}

/// Relies on Beatmap::attributes and the builder's mods, mode and
/// clock_rate settings, then on BeatmapAttributesBuilder::build; the built
/// doubles come back as bit patterns. `build` takes the effective clock
/// rate verbatim from the override when one is given, and otherwise from
/// the mod bitmask alone, which the two clauses record.
#[verifier::external_body]
pub(crate) fn build_basic_attrs(
    map: &Beatmap,
    mods: u32,
    mode: Mode,
    convert: bool,
    clock_rate_bits: Option<u64>,
) -> (r: BasicAttrs)
    ensures
        clock_rate_bits matches Some(cr) ==> r.clock_rate == cr,
        clock_rate_bits is None ==> r.clock_rate == mods_rate_bits(mods),
{
    let gm = match mode {
        Mode::Osu => GameMode::Osu, Mode::Taiko => GameMode::Taiko,
        Mode::Catch => GameMode::Catch, Mode::Mania => GameMode::Mania,
    };
    let mut b = map.attributes().mods(mods).mode(gm, convert);
    if let Some(bits) = clock_rate_bits {
        b = b.clock_rate(bytemuck::cast(bits));
    }
    let a = b.build();
    BasicAttrs {
        ar: a.ar.to_bits(), od: a.od.to_bits(), cs: a.cs.to_bits(), hp: a.hp.to_bits(),
        clock_rate: a.clock_rate.to_bits(), hw_ar: a.hit_windows.ar.to_bits(),
        hw_od_great: a.hit_windows.od_great.to_bits(),
    }
}

} // verus!
