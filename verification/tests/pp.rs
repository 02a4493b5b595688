use perfcalc::attributes::{Beatmap, OsuDifficultyAttributes};
use perfcalc::effective::calculate_effective_misses;
use perfcalc::fixed::Fix;
use perfcalc::pp::{map_correction, OsuPP};

fn small_map(n_objects: u64, beatmap_id: i32) -> Beatmap {
    let mut snapshots = Vec::new();
    let mut i: u64 = 0;
    while i < n_objects {
        snapshots.push(OsuDifficultyAttributes {
            aim_strain: Fix { raw: 3_000_000 },
            speed_strain: Fix { raw: 2_000_000 },
            flashlight_rating: Fix { raw: 1_200_000 },
            slider_factor: Fix { raw: 990_000 },
            aim_difficult_strain_count: Fix { raw: 2_000_000 },
            ar: Fix { raw: 9_000_000 },
            od: Fix { raw: 8_000_000 },
            cs: Fix { raw: 4_000_000 },
            n_circles: i + 1,
            n_sliders: 0,
            n_spinners: 0,
            max_combo: i + 1,
        });
        i += 1;
    }
    Beatmap { beatmap_id, snapshots }
}

#[test]
fn osu_only_accuracy() {
    let map = Beatmap::default();

    let total_objects: u64 = 1234;
    let target_acc: f64 = 97.5;

    let calculator = OsuPP::new(&map)
        .passed_objects(total_objects)
        .accuracy(Fix { raw: 97_500_000 });

    let numerator = 6 * calculator.n300.unwrap_or(0)
        + 2 * calculator.n100.unwrap_or(0)
        + calculator.n50.unwrap_or(0);
    let denominator = 6 * total_objects;
    let acc = 100.0 * numerator as f64 / denominator as f64;

    assert!(
        (target_acc - acc).abs() < 1.0,
        "Expected: {} | Actual: {}",
        target_acc,
        acc
    );
}

#[test]
fn osu_accuracy_and_n50() {
    let map = Beatmap::default();

    let total_objects: u64 = 1234;
    let target_acc: f64 = 97.5;
    let n50: u64 = 30;

    let calculator = OsuPP::new(&map)
        .passed_objects(total_objects)
        .n50(n50)
        .accuracy(Fix { raw: 97_500_000 });

    assert!(
        (calculator.n50.unwrap() as i64 - n50 as i64).abs() <= 4,
        "Expected: {} | Actual: {}",
        n50,
        calculator.n50.unwrap()
    );

    let numerator = 6 * calculator.n300.unwrap_or(0)
        + 2 * calculator.n100.unwrap_or(0)
        + calculator.n50.unwrap_or(0);
    let denominator = 6 * total_objects;
    let acc = 100.0 * numerator as f64 / denominator as f64;

    assert!(
        (target_acc - acc).abs() < 1.0,
        "Expected: {} | Actual: {}",
        target_acc,
        acc
    );
}

#[test]
fn osu_missing_objects() {
    let map = Beatmap::default();
    let attributes = OsuDifficultyAttributes::default();

    let total_objects: u64 = 1234;
    let n300: u64 = 1000;
    let n100: u64 = 200;
    let n50: u64 = 30;

    let calculator = OsuPP::new(&map)
        .passed_objects(total_objects)
        .n300(n300)
        .n100(n100)
        .n50(n50)
        .assert_hitresults(attributes);

    let n_objects = calculator.n300 + calculator.n100 + calculator.n50;

    assert_eq!(
        total_objects, n_objects,
        "Expected: {} | Actual: {}",
        total_objects, n_objects
    );
}

#[test]
fn accuracy_with_misses_sums_to_rest() {
    let map = Beatmap::default();
    let total_objects: u64 = 1000;

    let calculator = OsuPP::new(&map)
        .passed_objects(total_objects)
        .misses(5)
        .accuracy(Fix { raw: 85_000_000 });

    let sum = calculator.n300.unwrap() + calculator.n100.unwrap() + calculator.n50.unwrap();
    assert_eq!(sum, total_objects - 5);
}

#[test]
fn perfect_accuracy_is_all_highest_tier() {
    let map = Beatmap::default();

    let calculator = OsuPP::new(&map)
        .passed_objects(10)
        .accuracy(Fix { raw: 100_000_000 });

    assert_eq!(calculator.n300, Some(10));
    assert_eq!(calculator.n100, Some(0));
    assert_eq!(calculator.n50, Some(0));
    assert_eq!(calculator.acc, Some(Fix { raw: 1_000_000 }));
}

#[test]
fn zero_objects_zero_components() {
    let map = small_map(50, 0);
    let result = OsuPP::new(&map).passed_objects(0).calculate();

    assert_eq!(result.pp.raw, 0);
    assert_eq!(result.pp_aim.raw, 0);
    assert_eq!(result.pp_speed.raw, 0);
    assert_eq!(result.pp_acc.raw, 0);
    assert_eq!(result.pp_flashlight.raw, 0);
}

#[test]
fn nonzero_objects_nonzero_total() {
    let map = small_map(50, 0);
    let result = OsuPP::new(&map).calculate();
    assert!(result.pp.raw > 0);
}

#[test]
fn effective_misses_bounds() {
    let attrs = OsuDifficultyAttributes {
        n_sliders: 10,
        max_combo: 100,
        ..OsuDifficultyAttributes::default()
    };

    // Combo deficit implies extra misses: threshold is 99, estimate
    // 99 / 10 = 9.9, floored to 9, above the raw count of 2.
    let eff = calculate_effective_misses(&attrs, Some(10), 2, 100);
    assert_eq!(eff, 9);
    assert!(eff >= 2);
    assert!(eff <= 100);

    // A combo at the threshold adds nothing.
    let eff = calculate_effective_misses(&attrs, Some(99), 2, 100);
    assert_eq!(eff, 2);

    // No combo supplied: the raw count stands.
    let eff = calculate_effective_misses(&attrs, None, 7, 100);
    assert_eq!(eff, 7);

    // The estimate is clamped to the total judged objects.
    let eff = calculate_effective_misses(&attrs, Some(1), 0, 30);
    assert!(eff <= 30);
}

#[test]
fn aim_value_monotone_in_strain() {
    let low = small_map(100, 0);
    let mut high = small_map(100, 0);
    for snap in high.snapshots.iter_mut() {
        snap.aim_strain = Fix { raw: 6_000_000 };
    }

    let low_result = OsuPP::new(&low).calculate();
    let high_result = OsuPP::new(&high).calculate();

    assert!(low_result.pp_aim.raw <= high_result.pp_aim.raw);
}

#[test]
fn speed_value_monotone_in_strain() {
    let low = small_map(100, 0);
    let mut high = small_map(100, 0);
    for snap in high.snapshots.iter_mut() {
        snap.speed_strain = Fix { raw: 5_000_000 };
    }

    let low_result = OsuPP::new(&low).calculate();
    let high_result = OsuPP::new(&high).calculate();

    assert!(low_result.pp_speed.raw <= high_result.pp_speed.raw);
}

#[test]
fn outlier_correction_table() {
    assert_eq!(map_correction(1808605).raw, 700_000);
    assert_eq!(map_correction(1821147).raw, 600_000);
    assert_eq!(map_correction(1849420).raw, 600_000);
    assert_eq!(map_correction(0).raw, 1_000_000);

    // Under the relax mod, a listed map's value is scaled by its factor.
    let plain = small_map(100, 0);
    let listed = small_map(100, 1808605);
    let rx_mods = 128;

    let plain_pp = OsuPP::new(&plain).mods(rx_mods).calculate().pp.raw;
    let listed_pp = OsuPP::new(&listed).mods(rx_mods).calculate().pp.raw;
    let expected = (plain_pp as u128 * 700_000 / 1_000_000) as u64;
    assert_eq!(listed_pp, expected);

    // Without it the identifier changes nothing.
    let plain_pp = OsuPP::new(&plain).calculate().pp.raw;
    let listed_pp = OsuPP::new(&listed).calculate().pp.raw;
    assert_eq!(listed_pp, plain_pp);
}

#[test]
fn reused_attributes_skip_derivation() {
    let map = small_map(60, 0);
    let first = OsuPP::new(&map).mods(8).calculate();
    let second = OsuPP::new(&map).mods(8).attributes(first.clone()).calculate();
    assert_eq!(first, second);
}

#[test]
fn accuracy_with_both_middle_tiers_fixed_keeps_them() {
    let map = Beatmap::default();
    let total_objects: u64 = 1000;

    // With both middle tiers caller-fixed there is no re-balancing:
    // the upper middle tier stays exactly as supplied.
    let calculator = OsuPP::new(&map)
        .passed_objects(total_objects)
        .n100(50)
        .n50(30)
        .accuracy(Fix { raw: 95_000_000 });

    assert_eq!(calculator.n100, Some(50));
    let sum = calculator.n300.unwrap() + calculator.n100.unwrap() + calculator.n50.unwrap();
    assert_eq!(sum, total_objects);
}
