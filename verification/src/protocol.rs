//! The application protocol between the accumulated score parameters and
//! the engine calculator. The engine's builder itself is opaque, so a
//! verified shim pairs every engine call with one entry of a ghost trace:
//! a caller's contract can then pin down exactly which configuration calls
//! the engine received, and in which order.

use vstd::prelude::*;

use crate::attrs::ModeAttrs;
use crate::engine::{
    perf_accuracy_bits, perf_calculate, perf_clock_rate_bits, perf_combo,
    perf_hitresult_fastest, perf_misses, perf_mode_or_ignore, perf_mods, perf_n100, perf_n300,
    perf_n50, perf_n_katu, perf_new, perf_passed_objects,
};
use crate::mode::Mode;
use rosu_pp::any::Performance;
use rosu_pp::Beatmap;

verus! {

/// One configuration call handed to the engine calculator.
pub enum EngineOp {
    SetMode(Mode),
    SetN300(u32),
    SetN100(u32),
    SetN50(u32),
    SetMisses(u32),
    SetKatu(u32),
    SetCombo(u32),
    SetPassedObjects(u32),
    SetClockRate(u64),
    SetMods(u32),
    ForceFastestHitResults,
    SetAccuracy(u64),
}

/// An engine calculator together with the trace of configuration calls it
/// has received so far. Every method below makes exactly one engine call
/// and appends exactly one trace entry.
pub(crate) struct EngineCalculator<'m> {
    pub(crate) perf: Performance<'m>,
    pub ops: Ghost<Seq<EngineOp>>,
}

impl<'m> EngineCalculator<'m> {
    /// A fresh engine calculator for the map, with nothing applied yet.
    pub(crate) fn new(map: &'m Beatmap) -> (r: Self)
        ensures
            r.ops@ == Seq::<EngineOp>::empty(),
    {
        EngineCalculator { perf: perf_new(map), ops: Ghost(Seq::empty()) }
    }

    /// Convert the map to the given mode, or keep it where incompatible.
    pub(crate) fn mode_or_ignore(self, mode: Mode) -> (r: Self)
        ensures
            r.ops@ == self.ops@.push(EngineOp::SetMode(mode)),
    {
        let ghost t = self.ops@.push(EngineOp::SetMode(mode));
        EngineCalculator { perf: perf_mode_or_ignore(self.perf, mode), ops: Ghost(t) }
    }

    /// Set the number of 300s.
    pub(crate) fn n300(self, v: u32) -> (r: Self)
        ensures
            r.ops@ == self.ops@.push(EngineOp::SetN300(v)),
    {
        let ghost t = self.ops@.push(EngineOp::SetN300(v));
        EngineCalculator { perf: perf_n300(self.perf, v), ops: Ghost(t) }
    }

    /// Set the number of 100s.
    pub(crate) fn n100(self, v: u32) -> (r: Self)
        ensures
            r.ops@ == self.ops@.push(EngineOp::SetN100(v)),
    {
        let ghost t = self.ops@.push(EngineOp::SetN100(v));
        EngineCalculator { perf: perf_n100(self.perf, v), ops: Ghost(t) }
    }

    /// Set the number of 50s.
    pub(crate) fn n50(self, v: u32) -> (r: Self)
        ensures
            r.ops@ == self.ops@.push(EngineOp::SetN50(v)),
    {
        let ghost t = self.ops@.push(EngineOp::SetN50(v));
        EngineCalculator { perf: perf_n50(self.perf, v), ops: Ghost(t) }
    }

    /// Set the number of misses.
    pub(crate) fn misses(self, v: u32) -> (r: Self)
        ensures
            r.ops@ == self.ops@.push(EngineOp::SetMisses(v)),
    {
        let ghost t = self.ops@.push(EngineOp::SetMisses(v));
        EngineCalculator { perf: perf_misses(self.perf, v), ops: Ghost(t) }
    }

    /// Set the number of katus.
    pub(crate) fn n_katu(self, v: u32) -> (r: Self)
        ensures
            r.ops@ == self.ops@.push(EngineOp::SetKatu(v)),
    {
        let ghost t = self.ops@.push(EngineOp::SetKatu(v));
        EngineCalculator { perf: perf_n_katu(self.perf, v), ops: Ghost(t) }
    }

    /// Set the combo.
    pub(crate) fn combo(self, v: u32) -> (r: Self)
        ensures
            r.ops@ == self.ops@.push(EngineOp::SetCombo(v)),
    {
        let ghost t = self.ops@.push(EngineOp::SetCombo(v));
        EngineCalculator { perf: perf_combo(self.perf, v), ops: Ghost(t) }
    }

    /// Set the number of passed objects.
    pub(crate) fn passed_objects(self, v: u32) -> (r: Self)
        ensures
            r.ops@ == self.ops@.push(EngineOp::SetPassedObjects(v)),
    {
        let ghost t = self.ops@.push(EngineOp::SetPassedObjects(v));
        EngineCalculator { perf: perf_passed_objects(self.perf, v), ops: Ghost(t) }
    }

    /// Set the clock-rate override, as the bit pattern of a double.
    pub(crate) fn clock_rate(self, bits: u64) -> (r: Self)
        ensures
            r.ops@ == self.ops@.push(EngineOp::SetClockRate(bits)),
    {
        let ghost t = self.ops@.push(EngineOp::SetClockRate(bits));
        EngineCalculator { perf: perf_clock_rate_bits(self.perf, bits), ops: Ghost(t) }
    }

    /// Set the mod bitmask.
    pub(crate) fn mods(self, mods: u32) -> (r: Self)
        ensures
            r.ops@ == self.ops@.push(EngineOp::SetMods(mods)),
    {
        let ghost t = self.ops@.push(EngineOp::SetMods(mods));
        EngineCalculator { perf: perf_mods(self.perf, mods), ops: Ghost(t) }
    }

    /// Force the engine's deterministic hit-result synthesis.
    pub(crate) fn hitresult_fastest(self) -> (r: Self)
        ensures
            r.ops@ == self.ops@.push(EngineOp::ForceFastestHitResults),
    {
        let ghost t = self.ops@.push(EngineOp::ForceFastestHitResults);
        EngineCalculator { perf: perf_hitresult_fastest(self.perf), ops: Ghost(t) }
    }

    /// Set the accuracy, as the bit pattern of a double.
    pub(crate) fn accuracy(self, bits: u64) -> (r: Self)
        ensures
            r.ops@ == self.ops@.push(EngineOp::SetAccuracy(bits)),
    {
        let ghost t = self.ops@.push(EngineOp::SetAccuracy(bits));
        EngineCalculator { perf: perf_accuracy_bits(self.perf, bits), ops: Ghost(t) }
    }

    /// Run the calculation on whatever has been applied.
    pub(crate) fn calculate(self) -> ModeAttrs {
        perf_calculate(self.perf)
    }
}

} // verus!
