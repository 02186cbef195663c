use rosu_pp_ffi::attrs::{BasicAttrs, CatchAttrs, ManiaAttrs, ModeAttrs, OsuAttrs, TaikoAttrs};
use rosu_pp_ffi::flatten::assemble;

fn basic() -> BasicAttrs {
    BasicAttrs {
        ar: 9.0f64.to_bits(),
        od: 8.0f64.to_bits(),
        cs: 4.0f64.to_bits(),
        hp: 5.0f64.to_bits(),
        clock_rate: 1.5f64.to_bits(),
        hw_ar: 600.0f64.to_bits(),
        hw_od_great: 59.0f64.to_bits(),
    }
}

#[test]
fn osu_fields_exactly() {
    let o = OsuAttrs {
        pp: 100.0f64.to_bits(),
        pp_acc: 30.0f64.to_bits(),
        pp_aim: 40.0f64.to_bits(),
        pp_flashlight: 1.0f64.to_bits(),
        pp_speed: 25.0f64.to_bits(),
        effective_miss_count: 0.5f64.to_bits(),
        stars: 5.25f64.to_bits(),
        slider_factor: 0.9f64.to_bits(),
        max_combo: 727,
        n_circles: 300,
        n_sliders: 150,
        n_spinners: 2,
    };
    let b = basic();
    let base_bpm = 120.0f64.to_bits();
    let r = assemble(ModeAttrs::Osu(o), b, base_bpm, 452);

    assert_eq!(r.mode, 0);
    assert_eq!(r.pp, o.pp);
    assert_eq!(r.stars, o.stars);
    assert_eq!(r.pp_acc, Some(o.pp_acc));
    assert_eq!(r.pp_aim, Some(o.pp_aim));
    assert_eq!(r.pp_flashlight, Some(o.pp_flashlight));
    assert_eq!(r.pp_speed, Some(o.pp_speed));
    assert_eq!(r.effective_miss_count, Some(o.effective_miss_count));
    assert_eq!(r.max_combo, Some(727));
    assert_eq!(r.aim_strain, Some(o.pp_aim));
    assert_eq!(r.speed_strain, Some(o.pp_speed));
    assert_eq!(r.flashlight_rating, Some(o.pp_flashlight));
    assert_eq!(r.slider_factor, Some(o.slider_factor));
    assert_eq!(r.n_objects, Some(300));
    assert_eq!(r.n_sliders, Some(150));
    assert_eq!(r.n_spinners, Some(2));
    assert_eq!(r.time_preempt, Some(b.hw_ar));
    assert_eq!(r.great_hit_window, Some(b.hw_od_great));
    // never populated for osu
    assert_eq!(r.pp_strain, None);
    assert_eq!(r.pp_difficulty, None);
    assert_eq!(r.n_fruits, None);
    assert_eq!(r.n_droplets, None);
    assert_eq!(r.n_tiny_droplets, None);
    // basics always populated
    assert_eq!(r.ar, b.ar);
    assert_eq!(r.od, b.od);
    assert_eq!(r.cs, b.cs);
    assert_eq!(r.hp, b.hp);
    assert_eq!(r.clock_rate, b.clock_rate);
    assert_eq!(r.bpm, (120.0f64 * 1.5f64).to_bits());
}

#[test]
fn taiko_fields_exactly() {
    let t = TaikoAttrs {
        pp: 80.0f64.to_bits(),
        pp_acc: 20.0f64.to_bits(),
        pp_difficulty: 55.0f64.to_bits(),
        effective_miss_count: 1.0f64.to_bits(),
        stars: 4.5f64.to_bits(),
        max_combo: 500,
    };
    let b = basic();
    let r = assemble(ModeAttrs::Taiko(t), b, 120.0f64.to_bits(), 452);

    assert_eq!(r.mode, 1);
    assert_eq!(r.pp, t.pp);
    assert_eq!(r.stars, t.stars);
    assert_eq!(r.pp_acc, Some(t.pp_acc));
    assert_eq!(r.pp_difficulty, Some(t.pp_difficulty));
    assert_eq!(r.effective_miss_count, Some(t.effective_miss_count));
    assert_eq!(r.max_combo, Some(500));
    // the object count comes from the beatmap's hit-object list
    assert_eq!(r.n_objects, Some(452));
    assert_eq!(r.great_hit_window, Some(b.hw_od_great));
    assert_eq!(r.pp_aim, None);
    assert_eq!(r.pp_flashlight, None);
    assert_eq!(r.pp_speed, None);
    assert_eq!(r.pp_strain, None);
    assert_eq!(r.aim_strain, None);
    assert_eq!(r.speed_strain, None);
    assert_eq!(r.flashlight_rating, None);
    assert_eq!(r.slider_factor, None);
    assert_eq!(r.n_fruits, None);
    assert_eq!(r.n_droplets, None);
    assert_eq!(r.n_tiny_droplets, None);
    assert_eq!(r.n_sliders, None);
    assert_eq!(r.n_spinners, None);
    assert_eq!(r.time_preempt, None);
}

#[test]
fn catch_fields_exactly() {
    let c = CatchAttrs {
        pp: 60.0f64.to_bits(),
        stars: 3.75f64.to_bits(),
        n_fruits: 200,
        n_droplets: 50,
        n_tiny_droplets: 400,
    };
    let b = basic();
    let r = assemble(ModeAttrs::Catch(c), b, 120.0f64.to_bits(), 452);

    assert_eq!(r.mode, 2);
    assert_eq!(r.pp, c.pp);
    assert_eq!(r.stars, c.stars);
    assert_eq!(r.max_combo, Some(250));
    assert_eq!(r.n_fruits, Some(200));
    assert_eq!(r.n_droplets, Some(50));
    assert_eq!(r.n_tiny_droplets, Some(400));
    assert_eq!(r.pp_acc, None);
    assert_eq!(r.pp_aim, None);
    assert_eq!(r.pp_flashlight, None);
    assert_eq!(r.pp_speed, None);
    assert_eq!(r.pp_strain, None);
    assert_eq!(r.pp_difficulty, None);
    assert_eq!(r.effective_miss_count, None);
    assert_eq!(r.aim_strain, None);
    assert_eq!(r.speed_strain, None);
    assert_eq!(r.flashlight_rating, None);
    assert_eq!(r.slider_factor, None);
    assert_eq!(r.n_objects, None);
    assert_eq!(r.n_sliders, None);
    assert_eq!(r.n_spinners, None);
    assert_eq!(r.time_preempt, None);
    assert_eq!(r.great_hit_window, None);
}

#[test]
fn catch_max_combo_wraps_like_the_record_width() {
    let c = CatchAttrs {
        pp: 0.0f64.to_bits(),
        stars: 0.0f64.to_bits(),
        n_fruits: u32::MAX,
        n_droplets: 3,
        n_tiny_droplets: 0,
    };
    let r = assemble(ModeAttrs::Catch(c), basic(), 0, 0);
    assert_eq!(r.max_combo, Some(2));
}

#[test]
fn mania_fields_exactly() {
    let m = ManiaAttrs {
        pp: 70.0f64.to_bits(),
        pp_difficulty: 65.0f64.to_bits(),
        stars: 4.0f64.to_bits(),
        n_objects: 1000,
        n_hold_notes: 333,
    };
    let b = basic();
    let r = assemble(ModeAttrs::Mania(m), b, 120.0f64.to_bits(), 452);

    assert_eq!(r.mode, 3);
    assert_eq!(r.pp, m.pp);
    assert_eq!(r.stars, m.stars);
    assert_eq!(r.pp_difficulty, Some(m.pp_difficulty));
    assert_eq!(r.n_sliders, Some(333));
    assert_eq!(r.n_objects, Some(1000));
    assert_eq!(r.great_hit_window, Some(b.hw_od_great));
    assert_eq!(r.pp_acc, None);
    assert_eq!(r.pp_aim, None);
    assert_eq!(r.pp_flashlight, None);
    assert_eq!(r.pp_speed, None);
    assert_eq!(r.pp_strain, None);
    assert_eq!(r.effective_miss_count, None);
    assert_eq!(r.aim_strain, None);
    assert_eq!(r.speed_strain, None);
    assert_eq!(r.flashlight_rating, None);
    assert_eq!(r.slider_factor, None);
    assert_eq!(r.n_fruits, None);
    assert_eq!(r.n_droplets, None);
    assert_eq!(r.n_tiny_droplets, None);
    assert_eq!(r.n_spinners, None);
    assert_eq!(r.time_preempt, None);
    assert_eq!(r.max_combo, None);
}

#[test]
fn bpm_is_base_times_clock_rate_in_assemble() {
    let m = ManiaAttrs {
        pp: 1.0f64.to_bits(),
        pp_difficulty: 1.0f64.to_bits(),
        stars: 1.0f64.to_bits(),
        n_objects: 1,
        n_hold_notes: 0,
    };
    let mut b = basic();
    b.clock_rate = 0.75f64.to_bits();
    let r = assemble(ModeAttrs::Mania(m), b, 180.0f64.to_bits(), 1);
    assert_eq!(r.clock_rate, 0.75f64.to_bits());
    assert_eq!(r.bpm, (180.0f64 * 0.75f64).to_bits());
}
