//! The calculator: it owns one parsed beatmap and runs one calculation per
//! call, threading the accumulated score parameters through a freshly built
//! engine calculator and normalizing whatever the engine returns.

use vstd::prelude::*;

use crate::attrs::ModeAttrs;
use crate::beatmap::BeatmapHandle;
use crate::engine::{mods_rate_bits, mul_bits, parses};
use crate::error::Error;
use crate::flatten::{normalized, populated_for_mode, CalculateResult};
use crate::mode::{mode_tag_spec, Mode};
use crate::params::ScoreParams;
use crate::protocol::EngineCalculator;

verus! {

/// Owns one parsed beatmap; repeated calculations on it are independent.
pub struct Calculator {
    pub inner: BeatmapHandle,
}

impl Calculator {
    /// Construct a calculator from the content of a `.osu` file: a
    /// calculator exactly when the engine accepts the bytes, and a
    /// structured error — never an abort — when it rejects them.
    pub fn from_data(beatmap_data: &[u8]) -> (r: Result<Calculator, Error>)
        ensures
            (r is Ok) == parses(beatmap_data@),
            r is Err ==> r == Err::<Calculator, Error>(Error::InvalidBeatmap),
    {
        match BeatmapHandle::load(beatmap_data) {
            Some(inner) => Ok(Calculator { inner }),
            None => Err(Error::InvalidBeatmap),
        }
    }

    /// Run one calculation: read mods and the clock-rate override out of
    /// the parameters, apply the parameters onto a fresh engine calculator
    /// for the owned beatmap (the engine receives exactly
    /// `apply_ops(*score_params)`, accuracy last), and normalize the
    /// engine's result. The calculator itself is left unchanged, so
    /// repeated calls with equal parameters normalize equal engine
    /// outcomes identically.
    pub fn calculate(&mut self, score_params: &ScoreParams) -> (r: CalculateResult)
        ensures
            *final(self) == *old(self),
            exists|a: ModeAttrs| normalized(a, old(self).inner.bpm, old(self).inner.n_hit_objects, r),
            exists|m: Mode| r.mode == mode_tag_spec(m) && populated_for_mode(r, m),
            r.bpm == mul_bits(old(self).inner.bpm, r.clock_rate),
            score_params.clock_rate matches Some(cr) ==> r.clock_rate == cr,
            score_params.clock_rate is None ==> r.clock_rate == mods_rate_bits(score_params.mods),
    {
        let mods = score_params.mods;
        let clock_rate = score_params.clock_rate;
        let params = *score_params;
        let c = EngineCalculator::new(&self.inner.raw);
        let c = params.apply(c);
        let attrs = c.calculate();
        let r = CalculateResult::new(attrs, &self.inner, mods, clock_rate);
        proof {
            crate::flatten::lemma_bpm_round_trip(attrs, self.inner.bpm, self.inner.n_hit_objects, r);
            crate::flatten::lemma_field_isolation(attrs, self.inner.bpm, self.inner.n_hit_objects, r);
        }
        r
    }
}

} // verus!
