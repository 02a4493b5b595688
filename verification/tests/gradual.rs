use perfcalc::attributes::{Beatmap, OsuDifficultyAttributes};
use perfcalc::fixed::Fix;
use perfcalc::gradual::CatchGradualPerformanceAttributes;
use perfcalc::pp::OsuPP;
use perfcalc::score::{CatchScoreState, OsuScoreState};

/// A synthetic map: one difficulty snapshot per hit object, with
/// ratings growing as more objects are processed.
fn test_map(n_objects: u64) -> Beatmap {
    let mut snapshots = Vec::new();
    let mut i: u64 = 0;
    while i < n_objects {
        snapshots.push(OsuDifficultyAttributes {
            aim_strain: Fix { raw: 2_000_000 + i * 1_000 },
            speed_strain: Fix { raw: 1_500_000 + i * 800 },
            flashlight_rating: Fix { raw: 1_000_000 + i * 500 },
            slider_factor: Fix { raw: 980_000 },
            aim_difficult_strain_count: Fix { raw: 1_000_000 + i * 10_000 },
            ar: Fix { raw: 9_300_000 },
            od: Fix { raw: 8_500_000 },
            cs: Fix { raw: 4_200_000 },
            n_circles: i / 2 + 1,
            n_sliders: i / 4,
            n_spinners: i / 100,
            max_combo: i + 1,
            });
        i += 1;
    }
    Beatmap { beatmap_id: 2118524, snapshots }
}

#[test]
fn correct_empty() {
    let map = test_map(100);
    let mods = 64;

    let mut gradual = CatchGradualPerformanceAttributes::new(&map, mods);
    let state = CatchScoreState::default();

    assert!(gradual
        .process_next_n_objects(state.clone(), usize::MAX)
        .is_some());
    assert!(gradual.process_next_object(state).is_none());
}

#[test]
fn next_and_next_n() {
    let map = test_map(150);
    let mods = 64;
    let state = CatchScoreState::default();

    let mut gradual1 = CatchGradualPerformanceAttributes::new(&map, mods);
    let mut gradual2 = CatchGradualPerformanceAttributes::new(&map, mods);

    for _ in 0..20 {
        let _ = gradual1.process_next_object(state.clone());
        let _ = gradual2.process_next_object(state.clone());
    }

    let n = 80;

    for _ in 1..n {
        let _ = gradual1.process_next_object(state.clone());
    }

    let state = CatchScoreState {
        max_combo: 101,
        n_fruits: 99,
        n_droplets: 2,
        n_tiny_droplets: 68,
        n_tiny_droplet_misses: 0,
        misses: 0,
    };

    let next = gradual1.process_next_object(state.clone());
    let next_n = gradual2.process_next_n_objects(state, n);

    assert_eq!(next_n, next);
}

#[test]
fn gradual_end_eq_regular() {
    let map = test_map(730);
    let mods = 64;
    let regular = OsuPP::new(&map)
        .mods(mods)
        .state(OsuScoreState {
            max_combo: 730,
            n300: 728,
            n100: 2,
            n50: 291,
            misses: 0,
        })
        .calculate();

    let mut gradual = CatchGradualPerformanceAttributes::new(&map, mods);

    let state = CatchScoreState {
        max_combo: 730,
        n_fruits: 728,
        n_droplets: 2,
        n_tiny_droplets: 291,
        n_tiny_droplet_misses: 0,
        misses: 0,
    };

    let gradual_end = gradual.process_next_n_objects(state, usize::MAX).unwrap();

    assert_eq!(regular, gradual_end);
}

#[test]
fn gradual_eq_regular_passed() {
    let map = test_map(730);
    let mods = 64;
    let n = 100;
    let regular = OsuPP::new(&map)
        .mods(mods)
        .state(OsuScoreState {
            max_combo: 101,
            n300: 99,
            n100: 2,
            n50: 68,
            misses: 0,
        })
        .passed_objects(n as u64)
        .calculate();

    let mut gradual = CatchGradualPerformanceAttributes::new(&map, mods);

    let state = CatchScoreState {
        max_combo: 101,
        n_fruits: 99,
        n_droplets: 2,
        n_tiny_droplets: 68,
        n_tiny_droplet_misses: 0,
        misses: 0,
    };

    let gradual = gradual.process_next_n_objects(state, n).unwrap();

    assert_eq!(regular, gradual);
}

#[test]
fn exhausted_stays_exhausted() {
    let map = test_map(3);
    let mut gradual = CatchGradualPerformanceAttributes::new(&map, 0);
    let state = CatchScoreState::new();

    assert!(gradual.process_next_n_objects(state.clone(), 5).is_some());
    assert!(gradual.process_next_object(state.clone()).is_none());
    assert!(gradual.process_next_n_objects(state.clone(), 1).is_none());
    assert!(gradual.process_next_n_objects(state, usize::MAX).is_none());
}

#[test]
fn empty_map_yields_no_result() {
    let map = Beatmap::default();
    let mut gradual = CatchGradualPerformanceAttributes::new(&map, 0);
    assert!(gradual.process_next_object(CatchScoreState::new()).is_none());
}

#[test]
fn zero_advance_counts_as_one() {
    let map = test_map(10);
    let state = CatchScoreState::new();

    let mut gradual1 = CatchGradualPerformanceAttributes::new(&map, 0);
    let mut gradual2 = CatchGradualPerformanceAttributes::new(&map, 0);

    let with_zero = gradual1.process_next_n_objects(state.clone(), 0);
    let with_one = gradual2.process_next_n_objects(state, 1);

    assert_eq!(with_zero, with_one);
}

#[test]
fn stepwise_equals_bulk_scenario() {
    let map = test_map(120);
    let state = CatchScoreState::new();

    let mut bulk = CatchGradualPerformanceAttributes::new(&map, 64);
    let mut stepwise = CatchGradualPerformanceAttributes::new(&map, 64);

    for _ in 0..20 {
        let _ = bulk.process_next_object(state.clone());
    }
    let final_state = CatchScoreState {
        max_combo: 100,
        n_fruits: 100,
        n_droplets: 0,
        n_tiny_droplets: 0,
        n_tiny_droplet_misses: 0,
        misses: 0,
    };
    let from_bulk = bulk.process_next_n_objects(final_state.clone(), 80);

    let mut from_steps = None;
    for _ in 0..100 {
        from_steps = stepwise.process_next_object(final_state.clone());
    }

    assert_eq!(from_bulk, from_steps);
}
