//! Optional score parameters. Each field is independently either unset (the
//! engine default applies) or set (it overrides the engine default). The
//! setters only record values; `apply` drives them into a fresh engine
//! calculator in one fixed order, with an explicit accuracy applied last so
//! that it overrides whatever the hit counts would imply.

use vstd::prelude::*;

use crate::mode::Mode;
use crate::protocol::{EngineCalculator, EngineOp};

verus! {

/// Accumulated optional score-state overrides. `mods` is always present and
/// defaults to 0; every other field starts unset. The `acc` and
/// `clock_rate` values are bit patterns of doubles. The `score` value is
/// recorded for the caller's benefit but never forwarded: the engine has no
/// use for it.
#[derive(Clone, Copy, Debug, PartialEq, Eq)]
pub struct ScoreParams {
    pub mode: Option<Mode>,
    pub mods: u32,
    pub acc: Option<u64>,
    pub n300: Option<u32>,
    pub n100: Option<u32>,
    pub n50: Option<u32>,
    pub n_misses: Option<u32>,
    pub n_katu: Option<u32>,
    pub combo: Option<u32>,
    pub score: Option<u32>,
    pub passed_objects: Option<u32>,
    pub clock_rate: Option<u64>,
}

/// The freshly constructed parameter record: mods 0, everything else unset.
pub open spec fn init_params() -> ScoreParams {
    ScoreParams {
        mode: None,
        mods: 0u32,
        acc: None,
        n300: None,
        n100: None,
        n50: None,
        n_misses: None,
        n_katu: None,
        combo: None,
        score: None,
        passed_objects: None,
        clock_rate: None,
    }
}

pub open spec fn with_mode(p: ScoreParams, v: Mode) -> ScoreParams {
    ScoreParams { mode: Some(v), ..p }
}

pub open spec fn with_mods(p: ScoreParams, v: u32) -> ScoreParams {
    ScoreParams { mods: v, ..p }
}

pub open spec fn with_acc(p: ScoreParams, v: u64) -> ScoreParams {
    ScoreParams { acc: Some(v), ..p }
}

pub open spec fn with_n300(p: ScoreParams, v: u32) -> ScoreParams {
    ScoreParams { n300: Some(v), ..p }
}

pub open spec fn with_n100(p: ScoreParams, v: u32) -> ScoreParams {
    ScoreParams { n100: Some(v), ..p }
}

pub open spec fn with_n50(p: ScoreParams, v: u32) -> ScoreParams {
    ScoreParams { n50: Some(v), ..p }
}

pub open spec fn with_n_misses(p: ScoreParams, v: u32) -> ScoreParams {
    ScoreParams { n_misses: Some(v), ..p }
}

pub open spec fn with_n_katu(p: ScoreParams, v: u32) -> ScoreParams {
    ScoreParams { n_katu: Some(v), ..p }
}

pub open spec fn with_combo(p: ScoreParams, v: u32) -> ScoreParams {
    ScoreParams { combo: Some(v), ..p }
}

pub open spec fn with_score(p: ScoreParams, v: u32) -> ScoreParams {
    ScoreParams { score: Some(v), ..p }
}

pub open spec fn with_passed_objects(p: ScoreParams, v: u32) -> ScoreParams {
    ScoreParams { passed_objects: Some(v), ..p }
}

pub open spec fn with_clock_rate(p: ScoreParams, v: u64) -> ScoreParams {
    ScoreParams { clock_rate: Some(v), ..p }
}

impl ScoreParams {
    /// A fresh record with every override unset and mods 0.
    pub fn new() -> (r: ScoreParams)
        ensures
            r == init_params(),
    {
        ScoreParams {
            mode: None,
            mods: 0u32,
            acc: None,
            n300: None,
            n100: None,
            n50: None,
            n_misses: None,
            n_katu: None,
            combo: None,
            score: None,
            passed_objects: None,
            clock_rate: None,
        }
    }

    /// Set the requested output mode.
    pub fn mode(&mut self, mode: Mode)
        ensures
            *final(self) == with_mode(*old(self), mode),
    {
        self.mode = Some(mode);
    }

    /// Set the mod bitmask.
    pub fn mods(&mut self, mods: u32)
        ensures
            *final(self) == with_mods(*old(self), mods),
    {
        self.mods = mods;
    }

    /// Set the accuracy override, as the bit pattern of a double.
    pub fn acc(&mut self, acc: u64)
        ensures
            *final(self) == with_acc(*old(self), acc),
    {
        self.acc = Some(acc);
    }

    /// Set the number of 300s.
    pub fn n300(&mut self, n300: u32)
        ensures
            *final(self) == with_n300(*old(self), n300),
    {
        self.n300 = Some(n300);
    }

    /// Set the number of 100s.
    pub fn n100(&mut self, n100: u32)
        ensures
            *final(self) == with_n100(*old(self), n100),
    {
        self.n100 = Some(n100);
    }

    /// Set the number of 50s.
    pub fn n50(&mut self, n50: u32)
        ensures
            *final(self) == with_n50(*old(self), n50),
    {
        self.n50 = Some(n50);
    }

    /// Set the number of misses.
    pub fn n_misses(&mut self, n_misses: u32)
        ensures
            *final(self) == with_n_misses(*old(self), n_misses),
    {
        self.n_misses = Some(n_misses);
    }

    /// Set the number of katus.
    pub fn n_katu(&mut self, n_katu: u32)
        ensures
            *final(self) == with_n_katu(*old(self), n_katu),
    {
        self.n_katu = Some(n_katu);
    }

    /// Set the combo.
    pub fn combo(&mut self, combo: u32)
        ensures
            *final(self) == with_combo(*old(self), combo),
    {
        self.combo = Some(combo);
    }

    /// Set the score.
    pub fn score(&mut self, score: u32)
        ensures
            *final(self) == with_score(*old(self), score),
    {
        self.score = Some(score);
    }

    /// Set the number of passed objects. This setter, alone among the
    /// setters, is declared to fall back to leaving the record usable
    /// rather than aborting on a bad call; like every verified function
    /// here it simply never fails.
    pub fn passed_objects(&mut self, passed_objects: u32)
        ensures
            *final(self) == with_passed_objects(*old(self), passed_objects),
    {
        self.passed_objects = Some(passed_objects);
    }

    /// Set the clock-rate override, as the bit pattern of a double.
    pub fn clock_rate(&mut self, clock_rate: u64)
        ensures
            *final(self) == with_clock_rate(*old(self), clock_rate),
    {
        self.clock_rate = Some(clock_rate);
    }

    /// Drive every set override into the engine calculator, in the fixed
    /// order: mode, hit counts and the other scalar overrides, mods, the
    /// forced deterministic hit-result policy, and an explicit accuracy
    /// last, so that the engine's last-applied-wins rule makes accuracy
    /// override the hit counts. The ensures pins the whole protocol: the
    /// engine receives exactly `apply_ops(self)`, a function of the field
    /// values alone, never of the order in which setters were called.
    #[verifier::rlimit(100)]
    pub(crate) fn apply<'m>(self, calculator: EngineCalculator<'m>) -> (r: EngineCalculator<'m>)
        ensures
            r.ops@ == calculator.ops@ + apply_ops(self),
    {
        let ghost base = calculator.ops@;
        let mut c = calculator;
        c = step_mode(self, c);
        c = step_n300(self, c);
        c = step_n100(self, c);
        c = step_n50(self, c);
        c = step_misses(self, c);
        c = step_katu(self, c);
        c = step_combo(self, c);
        c = step_passed_objects(self, c);
        c = step_clock_rate(self, c);
        c = step_mods_policy(self, c);
        c = step_acc(self, c);
        proof {
            assert(c.ops@ =~= base + apply_ops(self));
        }
        c
    }
}

/// Apply the mode override, where one is set.
fn step_mode<'m>(p: ScoreParams, c: EngineCalculator<'m>) -> (r: EngineCalculator<'m>)
    ensures
        r.ops@ == c.ops@ + mode_step(p),
{
    if let Some(mode) = p.mode {
        let r = c.mode_or_ignore(mode);
        proof {
            assert(r.ops@ =~= c.ops@ + mode_step(p));
        }
        r
    } else {
        proof {
            assert(c.ops@ =~= c.ops@ + mode_step(p));
        }
        c
    }
}

/// Apply the n300 override, where one is set.
fn step_n300<'m>(p: ScoreParams, c: EngineCalculator<'m>) -> (r: EngineCalculator<'m>)
    ensures
        r.ops@ == c.ops@ + n300_step(p),
{
    if let Some(v) = p.n300 {
        let r = c.n300(v);
        proof {
            assert(r.ops@ =~= c.ops@ + n300_step(p));
        }
        r
    } else {
        proof {
            assert(c.ops@ =~= c.ops@ + n300_step(p));
        }
        c
    }
}

/// Apply the n100 override, where one is set.
fn step_n100<'m>(p: ScoreParams, c: EngineCalculator<'m>) -> (r: EngineCalculator<'m>)
    ensures
        r.ops@ == c.ops@ + n100_step(p),
{
    if let Some(v) = p.n100 {
        let r = c.n100(v);
        proof {
            assert(r.ops@ =~= c.ops@ + n100_step(p));
        }
        r
    } else {
        proof {
            assert(c.ops@ =~= c.ops@ + n100_step(p));
        }
        c
    }
}

/// Apply the n50 override, where one is set.
fn step_n50<'m>(p: ScoreParams, c: EngineCalculator<'m>) -> (r: EngineCalculator<'m>)
    ensures
        r.ops@ == c.ops@ + n50_step(p),
{
    if let Some(v) = p.n50 {
        let r = c.n50(v);
        proof {
            assert(r.ops@ =~= c.ops@ + n50_step(p));
        }
        r
    } else {
        proof {
            assert(c.ops@ =~= c.ops@ + n50_step(p));
        }
        c
    }
}

/// Apply the miss-count override, where one is set.
fn step_misses<'m>(p: ScoreParams, c: EngineCalculator<'m>) -> (r: EngineCalculator<'m>)
    ensures
        r.ops@ == c.ops@ + misses_step(p),
{
    if let Some(v) = p.n_misses {
        let r = c.misses(v);
        proof {
            assert(r.ops@ =~= c.ops@ + misses_step(p));
        }
        r
    } else {
        proof {
            assert(c.ops@ =~= c.ops@ + misses_step(p));
        }
        c
    }
}

/// Apply the katu-count override, where one is set.
fn step_katu<'m>(p: ScoreParams, c: EngineCalculator<'m>) -> (r: EngineCalculator<'m>)
    ensures
        r.ops@ == c.ops@ + katu_step(p),
{
    if let Some(v) = p.n_katu {
        let r = c.n_katu(v);
        proof {
            assert(r.ops@ =~= c.ops@ + katu_step(p));
        }
        r
    } else {
        proof {
            assert(c.ops@ =~= c.ops@ + katu_step(p));
        }
        c
    }
}

/// Apply the combo override, where one is set.
fn step_combo<'m>(p: ScoreParams, c: EngineCalculator<'m>) -> (r: EngineCalculator<'m>)
    ensures
        r.ops@ == c.ops@ + combo_step(p),
{
    if let Some(v) = p.combo {
        let r = c.combo(v);
        proof {
            assert(r.ops@ =~= c.ops@ + combo_step(p));
        }
        r
    } else {
        proof {
            assert(c.ops@ =~= c.ops@ + combo_step(p));
        }
        c
    }
}

/// Apply the passed-objects override, where one is set.
fn step_passed_objects<'m>(p: ScoreParams, c: EngineCalculator<'m>) -> (r: EngineCalculator<'m>)
    ensures
        r.ops@ == c.ops@ + passed_objects_step(p),
{
    if let Some(v) = p.passed_objects {
        let r = c.passed_objects(v);
        proof {
            assert(r.ops@ =~= c.ops@ + passed_objects_step(p));
        }
        r
    } else {
        proof {
            assert(c.ops@ =~= c.ops@ + passed_objects_step(p));
        }
        c
    }
}

/// Apply the clock-rate override, where one is set.
fn step_clock_rate<'m>(p: ScoreParams, c: EngineCalculator<'m>) -> (r: EngineCalculator<'m>)
    ensures
        r.ops@ == c.ops@ + clock_rate_step(p),
{
    if let Some(v) = p.clock_rate {
        let r = c.clock_rate(v);
        proof {
            assert(r.ops@ =~= c.ops@ + clock_rate_step(p));
        }
        r
    } else {
        proof {
            assert(c.ops@ =~= c.ops@ + clock_rate_step(p));
        }
        c
    }
}

/// Apply the mods (always) and force the deterministic hit-result policy
/// (always).
fn step_mods_policy<'m>(p: ScoreParams, c: EngineCalculator<'m>) -> (r: EngineCalculator<'m>)
    ensures
        r.ops@ == c.ops@ + seq![EngineOp::SetMods(p.mods), EngineOp::ForceFastestHitResults],
{
    let r = c.mods(p.mods);
    let r = r.hitresult_fastest();
    proof {
        assert(r.ops@ =~= c.ops@
            + seq![EngineOp::SetMods(p.mods), EngineOp::ForceFastestHitResults]);
    }
    r
}

/// Apply the accuracy override, where one is set, as the last engine call.
fn step_acc<'m>(p: ScoreParams, c: EngineCalculator<'m>) -> (r: EngineCalculator<'m>)
    ensures
        r.ops@ == c.ops@ + acc_step(p),
{
    if let Some(v) = p.acc {
        let r = c.accuracy(v);
        proof {
            assert(r.ops@ =~= c.ops@ + acc_step(p));
        }
        r
    } else {
        proof {
            assert(c.ops@ =~= c.ops@ + acc_step(p));
        }
        c
    }
}

/// The trace entry for the mode override, where one is set.
pub open spec fn mode_step(p: ScoreParams) -> Seq<EngineOp> {
    match p.mode {
        Some(m) => seq![EngineOp::SetMode(m)],
        None => seq![],
    }
}

/// The trace entry for the n300 override, where one is set.
pub open spec fn n300_step(p: ScoreParams) -> Seq<EngineOp> {
    match p.n300 {
        Some(v) => seq![EngineOp::SetN300(v)],
        None => seq![],
    }
}

/// The trace entry for the n100 override, where one is set.
pub open spec fn n100_step(p: ScoreParams) -> Seq<EngineOp> {
    match p.n100 {
        Some(v) => seq![EngineOp::SetN100(v)],
        None => seq![],
    }
}

/// The trace entry for the n50 override, where one is set.
pub open spec fn n50_step(p: ScoreParams) -> Seq<EngineOp> {
    match p.n50 {
        Some(v) => seq![EngineOp::SetN50(v)],
        None => seq![],
    }
}

/// The trace entry for the miss-count override, where one is set.
pub open spec fn misses_step(p: ScoreParams) -> Seq<EngineOp> {
    match p.n_misses {
        Some(v) => seq![EngineOp::SetMisses(v)],
        None => seq![],
    }
}

/// The trace entry for the katu-count override, where one is set.
pub open spec fn katu_step(p: ScoreParams) -> Seq<EngineOp> {
    match p.n_katu {
        Some(v) => seq![EngineOp::SetKatu(v)],
        None => seq![],
    }
}

/// The trace entry for the combo override, where one is set.
pub open spec fn combo_step(p: ScoreParams) -> Seq<EngineOp> {
    match p.combo {
        Some(v) => seq![EngineOp::SetCombo(v)],
        None => seq![],
    }
}

/// The trace entry for the passed-objects override, where one is set.
pub open spec fn passed_objects_step(p: ScoreParams) -> Seq<EngineOp> {
    match p.passed_objects {
        Some(v) => seq![EngineOp::SetPassedObjects(v)],
        None => seq![],
    }
}

/// The trace entry for the clock-rate override, where one is set.
pub open spec fn clock_rate_step(p: ScoreParams) -> Seq<EngineOp> {
    match p.clock_rate {
        Some(v) => seq![EngineOp::SetClockRate(v)],
        None => seq![],
    }
}

/// The trace entry for the accuracy override, where one is set.
pub open spec fn acc_step(p: ScoreParams) -> Seq<EngineOp> {
    match p.acc {
        Some(v) => seq![EngineOp::SetAccuracy(v)],
        None => seq![],
    }
}

/// Everything `apply` hands to the engine before the accuracy step: the
/// set overrides in their fixed order, then the mods (always) and the
/// forced deterministic hit-result policy (always).
pub open spec fn hit_config_ops(p: ScoreParams) -> Seq<EngineOp> {
    mode_step(p) + n300_step(p) + n100_step(p) + n50_step(p) + misses_step(p) + katu_step(p)
        + combo_step(p) + passed_objects_step(p) + clock_rate_step(p)
        + seq![EngineOp::SetMods(p.mods), EngineOp::ForceFastestHitResults]
}

/// The whole sequence of configuration calls `apply` hands to the engine
/// for a given parameter record: the fixed-order configuration, then the
/// explicit accuracy, where one is set, as the very last call.
pub open spec fn apply_ops(p: ScoreParams) -> Seq<EngineOp> {
    hit_config_ops(p) + acc_step(p)
}

/// The applied engine configuration is a function of the parameter record
/// alone (`apply_ops` takes nothing else), so records built by the same
/// setters in any order configure identical engine state; and an explicit
/// accuracy is always the engine's last configuration call — no call
/// before the accuracy step is an accuracy call — so the engine's
/// last-applied-wins rule makes it override the hit counts.
pub proof fn lemma_accuracy_applied_last(p: ScoreParams)
    ensures
        apply_ops(p) == hit_config_ops(p) + acc_step(p),
        forall|i: int|
            0 <= i < hit_config_ops(p).len() ==> !(#[trigger] hit_config_ops(p)[i] is SetAccuracy),
        p.acc matches Some(v) ==> acc_step(p) == seq![EngineOp::SetAccuracy(v)],
        p.acc matches Some(v) ==> apply_ops(p).last() == EngineOp::SetAccuracy(v),
        p.acc is None ==> acc_step(p) == Seq::<EngineOp>::empty(),
{
    assert forall|i: int|
        0 <= i < hit_config_ops(p).len() implies !(#[trigger] hit_config_ops(p)[i] is SetAccuracy) by {
        assert(hit_config_ops(p) == mode_step(p) + n300_step(p) + n100_step(p) + n50_step(p)
            + misses_step(p) + katu_step(p) + combo_step(p) + passed_objects_step(p)
            + clock_rate_step(p)
            + seq![EngineOp::SetMods(p.mods), EngineOp::ForceFastestHitResults]);
    }
}

/// The hit-count setters commute pairwise: applying any two of them to a
/// record in either order yields the same record. Since adjacent swaps
/// generate every permutation, the four hit-count setters yield one record
/// in any order, and `apply` drives the engine from that record alone. An
/// explicit accuracy also commutes with each of them as a record update;
/// `apply` nevertheless always hands it to the engine after the hit counts,
/// so an explicit accuracy wins over them.
pub proof fn lemma_hit_count_setters_commute(p: ScoreParams, a: u32, b: u32)
    ensures
        with_n300(with_n100(p, b), a) == with_n100(with_n300(p, a), b),
        with_n300(with_n50(p, b), a) == with_n50(with_n300(p, a), b),
        with_n300(with_n_misses(p, b), a) == with_n_misses(with_n300(p, a), b),
        with_n100(with_n50(p, b), a) == with_n50(with_n100(p, a), b),
        with_n100(with_n_misses(p, b), a) == with_n_misses(with_n100(p, a), b),
        with_n50(with_n_misses(p, b), a) == with_n_misses(with_n50(p, a), b),
        with_acc(with_n300(p, b), a as u64) == with_n300(with_acc(p, a as u64), b),
        with_acc(with_n100(p, b), a as u64) == with_n100(with_acc(p, a as u64), b),
        with_acc(with_n50(p, b), a as u64) == with_n50(with_acc(p, a as u64), b),
        with_acc(with_n_misses(p, b), a as u64) == with_n_misses(with_acc(p, a as u64), b),
{
}

/// Every setter overwrites its own field and leaves every other field
/// unchanged, so a setter applied twice keeps only the second value.
pub proof fn lemma_setter_overwrites(p: ScoreParams, a: u32, b: u32)
    ensures
        with_n300(with_n300(p, a), b) == with_n300(p, b),
        with_acc(with_acc(p, a as u64), b as u64) == with_acc(p, b as u64),
{
}

} // verus!
