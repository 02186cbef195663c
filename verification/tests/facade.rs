use rosu_pp_ffi::{Calculator, Mode, ScoreParams};
use rosu_pp::any::{HitResultPriority, Performance, PerformanceAttributes};
use rosu_pp::model::mode::GameMode;
use rosu_pp::Beatmap;

const OSU_MAP: &str = "osu file format v14

[General]
Mode: 0
StackLeniency: 0.7

[Difficulty]
HPDrainRate:5
CircleSize:4
OverallDifficulty:8
ApproachRate:9
SliderMultiplier:1.4
SliderTickRate:1

[TimingPoints]
0,500,4,2,0,100,1,0

[HitObjects]
256,192,0,1,0,0:0:0:0:
100,100,500,1,0,0:0:0:0:
200,150,1000,1,0,0:0:0:0:
150,100,1500,1,0,0:0:0:0:
300,200,2000,1,0,0:0:0:0:
";

#[test]
fn parsing_is_lenient_and_construction_never_aborts() {
    // the engine replaces undecodable text and defaults missing sections,
    // so construction succeeds even on arbitrary bytes instead of aborting
    assert!(Calculator::from_data(b"this is not a beatmap").is_ok());
    assert!(Calculator::from_data(&[0xFAu8, 0xFF, 0x00, 0x13]).is_ok());
    assert!(Calculator::from_data(b"").is_ok());
}

#[test]
fn loading_extracts_map_data() {
    let calc = Calculator::from_data(OSU_MAP.as_bytes()).unwrap();
    assert_eq!(calc.inner.native_mode, Mode::Osu);
    assert_eq!(calc.inner.n_hit_objects, 5);
    let map = Beatmap::from_bytes(OSU_MAP.as_bytes()).unwrap();
    assert_eq!(calc.inner.bpm, map.bpm().to_bits());
    assert_eq!(f64::from_bits(calc.inner.bpm), 120.0);
}

#[test]
fn determinism_across_calls_and_instances() {
    let mut a = Calculator::from_data(OSU_MAP.as_bytes()).unwrap();
    let mut b = Calculator::from_data(OSU_MAP.as_bytes()).unwrap();
    let mut p = ScoreParams::new();
    p.n300(4);
    p.n100(1);
    p.mods(64);
    let r1 = a.calculate(&p);
    let r2 = a.calculate(&p);
    let r3 = b.calculate(&p);
    assert_eq!(r1, r2);
    assert_eq!(r1, r3);
}

#[test]
fn default_params_match_engine_defaults() {
    let map = Beatmap::from_bytes(OSU_MAP.as_bytes()).unwrap();
    let expected = Performance::new(&map)
        .mods(0u32)
        .hitresult_priority(HitResultPriority::Fastest)
        .calculate();
    let (exp_pp, exp_stars) = match expected {
        PerformanceAttributes::Osu(a) => (a.pp, a.difficulty.stars),
        _ => unreachable!(),
    };
    let exp_basic = map.attributes().mods(0u32).mode(GameMode::Osu, false).build();

    let mut calc = Calculator::from_data(OSU_MAP.as_bytes()).unwrap();
    let r = calc.calculate(&ScoreParams::new());
    assert_eq!(r.mode, 0);
    assert_eq!(r.pp, exp_pp.to_bits());
    assert_eq!(r.stars, exp_stars.to_bits());
    assert_eq!(r.ar, exp_basic.ar.to_bits());
    assert_eq!(r.od, exp_basic.od.to_bits());
    assert_eq!(r.cs, exp_basic.cs.to_bits());
    assert_eq!(r.hp, exp_basic.hp.to_bits());
    assert_eq!(r.clock_rate, exp_basic.clock_rate.to_bits());
    assert_eq!(r.bpm, (map.bpm() * exp_basic.clock_rate).to_bits());
}

#[test]
fn hit_count_order_does_not_change_the_result() {
    let mut calc = Calculator::from_data(OSU_MAP.as_bytes()).unwrap();

    let mut p1 = ScoreParams::new();
    p1.n300(3);
    p1.n100(1);
    p1.n50(1);
    p1.n_misses(0);

    let mut p2 = ScoreParams::new();
    p2.n_misses(0);
    p2.n50(1);
    p2.n100(1);
    p2.n300(3);

    assert_eq!(p1, p2);
    assert_eq!(calc.calculate(&p1), calc.calculate(&p2));
}

#[test]
fn explicit_accuracy_overrides_hit_counts() {
    let mut calc = Calculator::from_data(OSU_MAP.as_bytes()).unwrap();

    // accuracy set after hit counts, and before them: the record is the
    // same, and apply always hands accuracy to the engine last
    let mut after = ScoreParams::new();
    after.n300(4);
    after.n100(1);
    after.acc(80.0f64.to_bits());

    let mut before = ScoreParams::new();
    before.acc(80.0f64.to_bits());
    before.n300(4);
    before.n100(1);

    assert_eq!(after, before);
    assert_eq!(calc.calculate(&after), calc.calculate(&before));
}

#[test]
fn mode_conversion_populates_the_converted_shape() {
    let mut calc = Calculator::from_data(OSU_MAP.as_bytes()).unwrap();

    let mut mania = ScoreParams::new();
    mania.mode(Mode::Mania);
    let r = calc.calculate(&mania);
    assert_eq!(r.mode, 3);
    assert!(r.pp_difficulty.is_some());
    assert!(r.n_objects.is_some());
    assert!(r.n_sliders.is_some());
    assert!(r.great_hit_window.is_some());
    assert_eq!(r.n_fruits, None);
    assert_eq!(r.pp_aim, None);
    assert_eq!(r.max_combo, None);

    let mut catch = ScoreParams::new();
    catch.mode(Mode::Catch);
    let r = calc.calculate(&catch);
    assert_eq!(r.mode, 2);
    assert!(r.n_fruits.is_some());
    assert!(r.n_droplets.is_some());
    assert!(r.n_tiny_droplets.is_some());
    assert!(r.max_combo.is_some());
    assert_eq!(r.pp_acc, None);
    assert_eq!(r.great_hit_window, None);

    let mut taiko = ScoreParams::new();
    taiko.mode(Mode::Taiko);
    let r = calc.calculate(&taiko);
    assert_eq!(r.mode, 1);
    // the taiko object count is sourced from the beatmap's hit-object list
    assert_eq!(r.n_objects, Some(5));
}

#[test]
fn clock_rate_override_scales_bpm() {
    let mut calc = Calculator::from_data(OSU_MAP.as_bytes()).unwrap();

    let mut p = ScoreParams::new();
    p.clock_rate(1.5f64.to_bits());
    let r = calc.calculate(&p);
    assert_eq!(f64::from_bits(r.clock_rate), 1.5);
    assert_eq!(f64::from_bits(r.bpm), 180.0);

    // without an override the rate is implied by the mods: double time
    let mut dt = ScoreParams::new();
    dt.mods(64);
    let r = calc.calculate(&dt);
    assert_eq!(f64::from_bits(r.clock_rate), 1.5);
    assert_eq!(f64::from_bits(r.bpm), 180.0);

    // and with no mods at all it stays at the base bpm
    let r = calc.calculate(&ScoreParams::new());
    assert_eq!(f64::from_bits(r.clock_rate), 1.0);
    assert_eq!(f64::from_bits(r.bpm), 120.0);
}

#[test]
fn score_is_recorded_but_never_applied() {
    let mut calc = Calculator::from_data(OSU_MAP.as_bytes()).unwrap();
    let mut with_score = ScoreParams::new();
    with_score.score(1_000_000);
    assert_eq!(with_score.score, Some(1_000_000));
    assert_eq!(calc.calculate(&with_score), calc.calculate(&ScoreParams::new()));
}

#[test]
fn passed_objects_flows_through_without_failing() {
    let mut calc = Calculator::from_data(OSU_MAP.as_bytes()).unwrap();
    let mut p = ScoreParams::new();
    p.passed_objects(3);
    let r = calc.calculate(&p);
    assert_eq!(r.mode, 0);
}
