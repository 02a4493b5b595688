//! Library-wide laws: proofs that relate the public operations.

use vstd::prelude::*;
use crate::attributes::{derived_attrs, Beatmap, OsuDifficultyAttributes};
use crate::effective::miss_penalty_s;
use crate::fixed::{
    cap, fadd_s, fdiv_s, fmax_s, fmin_s, fmul_s, fpow45_s, fsub_s, int_fix_s,
    lemma_fdiv_s_mono_num, lemma_fmul_s_mono, lemma_fpow45_s_mono, lemma_powi_s_mono, powf_s,
    powi_s, SCALE,
};
use crate::mods::{fl_s, hd_s, rx_s, td_s};
use crate::gradual::{gradual_result_s, gradual_template_s, state_to_osu_s};
use crate::pp::{
    aim_value_s, ar_factor_s, assert_hitresults_s, calculate_s, flashlight_value_s, floor0_s,
    hd_pivot_s, hd_slope_s, len_bonus_s, n_objects_s, norm_fixed_s, norm_free_s, od_sq_factor_s,
    opt0_s, performance_from_inner_s, round_points_s, skill_base_s, speed_value_s, weighted_acc_s,
    OsuPP, OsuPPInner,
};
use crate::score::CatchScoreState;

verus! {

/// The cursor an advance of `steps` reaches from `start` on a map of
/// `len` objects.
pub open spec fn advanced_cursor_s(start: int, steps: int, len: int) -> int {
    fmin_s(start + steps, len)
}

/// Advancing in two batches reaches the same cursor as advancing once
/// by their sum: the gradual evaluator's cursor is path independent,
/// so a result only depends on the total number of objects processed.
pub proof fn lemma_advance_composes(start: int, a: int, b: int, len: int)
    requires
        0 <= a,
        0 <= b,
        start <= len,
    ensures
        advanced_cursor_s(advanced_cursor_s(start, a, len), b, len) == advanced_cursor_s(
            start,
            a + b,
            len,
        ),
{
}

/// Advancing object-by-object and advancing in one bulk call of the
/// same total size end at the same cursor, and therefore, for the
/// same final score state, in the same performance attributes.
pub proof fn lemma_stepwise_equals_bulk<'a>(
    perf: OsuPP<'a>,
    map: Beatmap,
    state: CatchScoreState,
    start: int,
    a: int,
    b: int,
)
    requires
        0 <= a,
        0 <= b,
        start <= map.snapshots@.len(),
    ensures
        gradual_result_s(
            perf,
            map,
            state,
            advanced_cursor_s(
                advanced_cursor_s(start, a, map.snapshots@.len() as int),
                b,
                map.snapshots@.len() as int,
            ),
        ) == gradual_result_s(
            perf,
            map,
            state,
            advanced_cursor_s(start, a + b, map.snapshots@.len() as int),
        ),
{
    lemma_advance_composes(start, a, b, map.snapshots@.len() as int);
}

/// A gradual evaluation at exactly `k` objects equals a direct
/// one-shot evaluation with `k` passed objects and the same score
/// state.
pub proof fn lemma_gradual_equals_oneshot_passed<'a>(
    map: &'a Beatmap,
    mods: u32,
    state: CatchScoreState,
    k: int,
)
    requires
        1 <= k <= map.snapshots@.len(),
    ensures
        gradual_result_s(gradual_template_s(map, mods), *map, state, k) == calculate_s(
            OsuPP {
                map,
                attributes: None,
                mods,
                acc: None,
                combo: Some(state.max_combo),
                n300: Some(state.n_fruits),
                n100: Some(state.n_droplets),
                n50: Some(state.n_tiny_droplets),
                n_misses: state.misses,
                passed_objects: Some(k as u64),
                clock_rate: None,
            },
        ),
{
    reveal(assert_hitresults_s);
    vstd::std_specs::vec::axiom_spec_len(&map.snapshots);
    let d = map.snapshots@[k - 1];
    let osu = state_to_osu_s(state);
    let gradual_pp = OsuPP {
        map,
        attributes: Some(d),
        mods,
        acc: None,
        combo: Some(osu.max_combo),
        n300: Some(osu.n300),
        n100: Some(osu.n100),
        n50: Some(osu.n50),
        n_misses: osu.misses,
        passed_objects: Some(k as u64),
        clock_rate: None,
    };
    let oneshot_pp = OsuPP { attributes: None, ..gradual_pp };
    assert(derived_attrs(*map, n_objects_s(Some(k as u64), *map)) == d);
    assert(assert_hitresults_s(gradual_pp, d) == assert_hitresults_s(oneshot_pp, d));
}

/// A gradual evaluation driven to the full map length equals a direct
/// one-shot evaluation with no passed-object restriction and the same
/// score state.
pub proof fn lemma_gradual_end_equals_oneshot<'a>(map: &'a Beatmap, mods: u32, state: CatchScoreState)
    requires
        map.snapshots@.len() >= 1,
    ensures
        gradual_result_s(
            gradual_template_s(map, mods),
            *map,
            state,
            map.snapshots@.len() as int,
        ) == calculate_s(
            OsuPP {
                map,
                attributes: None,
                mods,
                acc: None,
                combo: Some(state.max_combo),
                n300: Some(state.n_fruits),
                n100: Some(state.n_droplets),
                n50: Some(state.n_tiny_droplets),
                n_misses: state.misses,
                passed_objects: None,
                clock_rate: None,
            },
        ),
{
    reveal(assert_hitresults_s);
    vstd::std_specs::vec::axiom_spec_len(&map.snapshots);
    let len = map.snapshots@.len() as int;
    let d = map.snapshots@[len - 1];
    let osu = state_to_osu_s(state);
    let gradual_pp = OsuPP {
        map,
        attributes: Some(d),
        mods,
        acc: None,
        combo: Some(osu.max_combo),
        n300: Some(osu.n300),
        n100: Some(osu.n100),
        n50: Some(osu.n50),
        n_misses: osu.misses,
        passed_objects: Some(len as u64),
        clock_rate: None,
    };
    let oneshot_pp = OsuPP { attributes: None, passed_objects: None, ..gradual_pp };
    assert(derived_attrs(*map, n_objects_s(None, *map)) == d);
    assert(n_objects_s(Some(len as u64), *map) == n_objects_s(None, *map));
    assert(assert_hitresults_s(gradual_pp, d) == assert_hitresults_s(oneshot_pp, d));
}

/// A total judged-object count of zero forces every component and the
/// total to exactly zero.
pub proof fn lemma_zero_objects_zero_value(inner: OsuPPInner, map_id: i32)
    requires
        inner.total_hits == 0,
    ensures
        performance_from_inner_s(inner, map_id).pp.raw == 0,
        performance_from_inner_s(inner, map_id).pp_aim.raw == 0,
        performance_from_inner_s(inner, map_id).pp_speed.raw == 0,
        performance_from_inner_s(inner, map_id).pp_acc.raw == 0,
        performance_from_inner_s(inner, map_id).pp_flashlight.raw == 0,
{
    reveal(performance_from_inner_s);
}

/// A builder whose judged-object count is zero yields all-zero
/// performance attributes, whatever else was configured.
pub proof fn lemma_zero_objects_zero_calculation<'a>(pp: OsuPP<'a>)
    requires
        n_objects_s(pp.passed_objects, *pp.map) == 0,
    ensures
        calculate_s(pp).pp.raw == 0,
        calculate_s(pp).pp_aim.raw == 0,
        calculate_s(pp).pp_speed.raw == 0,
        calculate_s(pp).pp_acc.raw == 0,
        calculate_s(pp).pp_flashlight.raw == 0,
{
    reveal(assert_hitresults_s);
    let attrs = match pp.attributes {
        Some(a) => a,
        None => derived_attrs(*pp.map, n_objects_s(pp.passed_objects, *pp.map)),
    };
    let inner = assert_hitresults_s(pp, attrs);
    assert(inner.total_hits == 0);
    lemma_zero_objects_zero_value(inner, pp.map.beatmap_id);
}

/// The cubic strain transform is monotone in the raw strain rating.
pub proof fn lemma_skill_base_s_mono(r1: int, r2: int)
    requires
        0 <= r1 <= r2,
    ensures
        skill_base_s(r1) <= skill_base_s(r2),
{
    lemma_fdiv_s_mono_num(r1, r2, 67_500);
    let m1 = fmax_s(fdiv_s(r1, 67_500), SCALE as int);
    let m2 = fmax_s(fdiv_s(r2, 67_500), SCALE as int);
    lemma_fmul_s_mono(5_000_000, m1, 5_000_000, m2);
    let s1 = fsub_s(fmul_s(5_000_000, m1), 4_000_000);
    let s2 = fsub_s(fmul_s(5_000_000, m2), 4_000_000);
    lemma_powi_s_mono(s1, s2, 3);
    lemma_fdiv_s_mono_num(powi_s(s1, 3), powi_s(s2, 3), 100_000_000_000);
}

/// The aim skill value is monotonically non-decreasing in the raw aim
/// strain rating, holding everything else fixed.
pub proof fn lemma_aim_value_monotone(i1: OsuPPInner, i2: OsuPPInner)
    requires
        i1.attributes.aim_strain.raw <= i2.attributes.aim_strain.raw,
        i2.attributes == (OsuDifficultyAttributes {
            aim_strain: i2.attributes.aim_strain,
            ..i1.attributes
        }),
        i2 == (OsuPPInner { attributes: i2.attributes, ..i1 }),
    ensures
        aim_value_s(i1) <= aim_value_s(i2),
{
    reveal(aim_value_s);
    let a1 = i1.attributes;
    let a2 = i2.attributes;
    let th = i1.total_hits as int;
    let raw1 = if td_s(i1.mods) {
        fpow45_s(a1.aim_strain.raw as int)
    } else {
        a1.aim_strain.raw as int
    };
    let raw2 = if td_s(i2.mods) {
        fpow45_s(a2.aim_strain.raw as int)
    } else {
        a2.aim_strain.raw as int
    };
    if td_s(i1.mods) {
        lemma_fpow45_s_mono(a1.aim_strain.raw as int, a2.aim_strain.raw as int);
    }
    assert(0 <= raw1 <= raw2);
    lemma_skill_base_s_mono(raw1, raw2);
    let lb = len_bonus_s(th);
    let v1a = fmul_s(skill_base_s(raw1), lb);
    let v1b = fmul_s(skill_base_s(raw2), lb);
    lemma_fmul_s_mono(skill_base_s(raw1), lb, skill_base_s(raw2), lb);
    let mp = miss_penalty_s(
        int_fix_s(i1.effective_misses as int),
        a1.aim_difficult_strain_count.raw as int,
    );
    let v2a = if i1.effective_misses > 0 {
        fmul_s(v1a, mp)
    } else {
        v1a
    };
    let v2b = if i1.effective_misses > 0 {
        fmul_s(v1b, mp)
    } else {
        v1b
    };
    if i1.effective_misses > 0 {
        lemma_fmul_s_mono(v1a, mp, v1b, mp);
    }
    assert(v2a <= v2b);
    let arf = ar_factor_s(i1.mods, a1.ar.raw as int);
    let f3: int = if arf > 0 {
        fadd_s(SCALE as int, fmul_s(arf, lb))
    } else if a1.ar.raw < 8_000_000 {
        let buff = if a1.ar.raw <= 5_000_000 {
            fadd_s(1_300_000, fdiv_s(fsub_s(5_000_000, a1.ar.raw as int), 50_000_000))
        } else {
            1_300_000
        };
        fmin_s(fmul_s(buff, lb), 1_750_000)
    } else {
        SCALE as int
    };
    let v3a = if arf > 0 || a1.ar.raw < 8_000_000 {
        fmul_s(v2a, f3)
    } else {
        v2a
    };
    let v3b = if arf > 0 || a1.ar.raw < 8_000_000 {
        fmul_s(v2b, f3)
    } else {
        v2b
    };
    if arf > 0 || a1.ar.raw < 8_000_000 {
        lemma_fmul_s_mono(v2a, f3, v2b, f3);
    }
    assert(v3a <= v3b);
    let f4 = fadd_s(1_030_000, fdiv_s(fsub_s(a1.cs.raw as int, 6_000_000), 20_000_000));
    let v4a = if a1.cs.raw > 6_000_000 && rx_s(i1.mods) {
        fmul_s(v3a, f4)
    } else {
        v3a
    };
    let v4b = if a1.cs.raw > 6_000_000 && rx_s(i1.mods) {
        fmul_s(v3b, f4)
    } else {
        v3b
    };
    if a1.cs.raw > 6_000_000 && rx_s(i1.mods) {
        lemma_fmul_s_mono(v3a, f4, v3b, f4);
    }
    assert(v4a <= v4b);
    let f5 = fadd_s(
        SCALE as int,
        fmul_s(hd_slope_s(i1.mods), fsub_s(hd_pivot_s(i1.mods), a1.ar.raw as int)),
    );
    let v5a = if hd_s(i1.mods) {
        fmul_s(v4a, f5)
    } else {
        v4a
    };
    let v5b = if hd_s(i1.mods) {
        fmul_s(v4b, f5)
    } else {
        v4b
    };
    if hd_s(i1.mods) {
        lemma_fmul_s_mono(v4a, f5, v4b, f5);
    }
    assert(v5a <= v5b);
    let eds = fmul_s(150_000, int_fix_s(a1.n_sliders as int));
    let non300 = fsub_s(int_fix_s(th), int_fix_s(i1.n300 as int));
    let c = match i1.combo {
        Some(c) => c as int,
        None => a1.max_combo as int,
    };
    let missing_combo = floor0_s(a1.max_combo as int - c);
    let dropped = fmin_s(fmin_s(non300, int_fix_s(missing_combo)), eds);
    let base = fsub_s(SCALE as int, fdiv_s(dropped, eds));
    let nerf = fadd_s(
        fmul_s(fsub_s(SCALE as int, a1.slider_factor.raw as int), powi_s(base, 3)),
        a1.slider_factor.raw as int,
    );
    let v6a = if a1.n_sliders > 0 {
        fmul_s(v5a, nerf)
    } else {
        v5a
    };
    let v6b = if a1.n_sliders > 0 {
        fmul_s(v5b, nerf)
    } else {
        v5b
    };
    if a1.n_sliders > 0 {
        lemma_fmul_s_mono(v5a, nerf, v5b, nerf);
    }
    assert(v6a <= v6b);
    lemma_fmul_s_mono(v6a, i1.acc.raw as int, v6b, i1.acc.raw as int);
    lemma_fmul_s_mono(
        fmul_s(v6a, i1.acc.raw as int),
        od_sq_factor_s(a1.od.raw as int),
        fmul_s(v6b, i1.acc.raw as int),
        od_sq_factor_s(a1.od.raw as int),
    );
    assert(aim_value_s(i1) == fmul_s(
        fmul_s(v6a, i1.acc.raw as int),
        od_sq_factor_s(a1.od.raw as int),
    ));
    assert(aim_value_s(i2) == fmul_s(
        fmul_s(v6b, i2.acc.raw as int),
        od_sq_factor_s(a2.od.raw as int),
    ));
}

/// The speed skill value is monotonically non-decreasing in the raw
/// speed strain rating, holding everything else fixed.
pub proof fn lemma_speed_value_monotone(i1: OsuPPInner, i2: OsuPPInner)
    requires
        i1.attributes.speed_strain.raw <= i2.attributes.speed_strain.raw,
        i2.attributes == (OsuDifficultyAttributes {
            speed_strain: i2.attributes.speed_strain,
            ..i1.attributes
        }),
        i2 == (OsuPPInner { attributes: i2.attributes, ..i1 }),
    ensures
        speed_value_s(i1) <= speed_value_s(i2),
{
    reveal(speed_value_s);
    let a1 = i1.attributes;
    let th = i1.total_hits as int;
    lemma_skill_base_s_mono(a1.speed_strain.raw as int, i2.attributes.speed_strain.raw as int);
    let lb = len_bonus_s(th);
    let v0a = skill_base_s(a1.speed_strain.raw as int);
    let v0b = skill_base_s(i2.attributes.speed_strain.raw as int);
    lemma_fmul_s_mono(v0a, lb, v0b, lb);
    let v1a = fmul_s(v0a, lb);
    let v1b = fmul_s(v0b, lb);
    let mp = miss_penalty_s(
        int_fix_s(i1.effective_misses as int),
        a1.aim_difficult_strain_count.raw as int,
    );
    let v2a = if i1.effective_misses > 0 {
        fmul_s(v1a, mp)
    } else {
        v1a
    };
    let v2b = if i1.effective_misses > 0 {
        fmul_s(v1b, mp)
    } else {
        v1b
    };
    if i1.effective_misses > 0 {
        lemma_fmul_s_mono(v1a, mp, v1b, mp);
    }
    let f3 = fadd_s(SCALE as int, fmul_s(ar_factor_s(i1.mods, a1.ar.raw as int), lb));
    lemma_fmul_s_mono(v2a, f3, v2b, f3);
    let v3a = fmul_s(v2a, f3);
    let v3b = fmul_s(v2b, f3);
    let f4 = fadd_s(
        SCALE as int,
        fmul_s(hd_slope_s(i1.mods), fsub_s(hd_pivot_s(i1.mods), a1.ar.raw as int)),
    );
    let v4a = if hd_s(i1.mods) {
        fmul_s(v3a, f4)
    } else {
        v3a
    };
    let v4b = if hd_s(i1.mods) {
        fmul_s(v3b, f4)
    } else {
        v3b
    };
    if hd_s(i1.mods) {
        lemma_fmul_s_mono(v3a, f4, v3b, f4);
    }
    let od_factor = fadd_s(
        950_000,
        fdiv_s(fmul_s(a1.od.raw as int, a1.od.raw as int), 750_000_000),
    );
    let exponent = fdiv_s(fsub_s(14_500_000, fmax_s(a1.od.raw as int, 8_000_000)), 2_000_000);
    let acc_factor = powf_s(i1.acc.raw as int, exponent);
    let f5 = fmul_s(od_factor, acc_factor);
    lemma_fmul_s_mono(v4a, f5, v4b, f5);
    let v5a = fmul_s(v4a, f5);
    let v5b = fmul_s(v4b, f5);
    let threshold = fdiv_s(int_fix_s(th), 500_000_000);
    let f6 = powf_s(980_000, fsub_s(int_fix_s(i1.n50 as int), threshold));
    if int_fix_s(i1.n50 as int) >= threshold {
        crate::fixed::lemma_powf_s_nonneg(980_000, fsub_s(int_fix_s(i1.n50 as int), threshold));
        lemma_fmul_s_mono(v5a, f6, v5b, f6);
    }
}

/// The visual-obstruction skill value is monotonically non-decreasing
/// in the raw obstruction rating, holding everything else fixed.
#[verifier::rlimit(100)]
pub proof fn lemma_flashlight_value_monotone(i1: OsuPPInner, i2: OsuPPInner)
    requires
        i1.attributes.flashlight_rating.raw <= i2.attributes.flashlight_rating.raw,
        i2.attributes == (OsuDifficultyAttributes {
            flashlight_rating: i2.attributes.flashlight_rating,
            ..i1.attributes
        }),
        i2 == (OsuPPInner { attributes: i2.attributes, ..i1 }),
    ensures
        flashlight_value_s(i1) <= flashlight_value_s(i2),
{
    reveal(flashlight_value_s);
    if !fl_s(i1.mods) {
        return ;
    }
    let a1 = i1.attributes;
    let th = i1.total_hits as int;
    let raw1 = if td_s(i1.mods) {
        fpow45_s(a1.flashlight_rating.raw as int)
    } else {
        a1.flashlight_rating.raw as int
    };
    let raw2 = if td_s(i1.mods) {
        fpow45_s(i2.attributes.flashlight_rating.raw as int)
    } else {
        i2.attributes.flashlight_rating.raw as int
    };
    if td_s(i1.mods) {
        lemma_fpow45_s_mono(
            a1.flashlight_rating.raw as int,
            i2.attributes.flashlight_rating.raw as int,
        );
    }
    assert(0 <= raw1 <= raw2);
    lemma_fmul_s_mono(raw1, raw1, raw2, raw2);
    lemma_fmul_s_mono(fmul_s(raw1, raw1), 25_000_000, fmul_s(raw2, raw2), 25_000_000);
    let v0a = fmul_s(fmul_s(raw1, raw1), 25_000_000);
    let v0b = fmul_s(fmul_s(raw2, raw2), 25_000_000);
    let v1a = if hd_s(i1.mods) {
        fmul_s(v0a, 1_300_000)
    } else {
        v0a
    };
    let v1b = if hd_s(i1.mods) {
        fmul_s(v0b, 1_300_000)
    } else {
        v0b
    };
    if hd_s(i1.mods) {
        lemma_fmul_s_mono(v0a, 1_300_000, v0b, 1_300_000);
    }
    let em_f = int_fix_s(i1.effective_misses as int);
    let ratio = fdiv_s(em_f, int_fix_s(th));
    let decay = powf_s(fsub_s(SCALE as int, powf_s(ratio, 775_000)), powf_s(em_f, 875_000));
    let f2 = fmul_s(970_000, decay);
    let v2a = if i1.effective_misses > 0 {
        fmul_s(v1a, f2)
    } else {
        v1a
    };
    let v2b = if i1.effective_misses > 0 {
        fmul_s(v1b, f2)
    } else {
        v1b
    };
    if i1.effective_misses > 0 {
        lemma_fmul_s_mono(v1a, f2, v1b, f2);
    }
    assert(0 <= v2a && v2a <= v2b);
    let f3: int = match i1.combo {
        Some(c) => fmin_s(
            powf_s(fdiv_s(int_fix_s(c as int), int_fix_s(a1.max_combo as int)), 800_000),
            SCALE as int,
        ),
        None => SCALE as int,
    };
    let v3a = if i1.combo is Some && a1.max_combo > 0 {
        fmul_s(v2a, f3)
    } else {
        v2a
    };
    let v3b = if i1.combo is Some && a1.max_combo > 0 {
        fmul_s(v2b, f3)
    } else {
        v2b
    };
    if i1.combo is Some && a1.max_combo > 0 {
        let c = i1.combo->Some_0;
        crate::fixed::lemma_powf_s_nonneg(
            fdiv_s(int_fix_s(c as int), int_fix_s(a1.max_combo as int)),
            800_000,
        );
        assert(f3 >= 0);
        lemma_fmul_s_mono(v2a, f3, v2b, f3);
    }
    assert(v3a <= v3b);
    let short_term = fmul_s(100_000, fmin_s(fdiv_s(int_fix_s(th), 200_000_000), SCALE as int));
    let long_term = if th > 200 {
        fmul_s(200_000, fmin_s(fdiv_s(fsub_s(int_fix_s(th), 200_000_000), 200_000_000), SCALE as int))
    } else {
        0
    };
    let lenf = fadd_s(fadd_s(700_000, short_term), long_term);
    lemma_fmul_s_mono(v3a, lenf, v3b, lenf);
    let v4a = fmul_s(v3a, lenf);
    let v4b = fmul_s(v3b, lenf);
    let f5 = fadd_s(500_000, fdiv_s(i1.acc.raw as int, 2_000_000));
    lemma_fmul_s_mono(v4a, f5, v4b, f5);
    let f6 = od_sq_factor_s(a1.od.raw as int);
    lemma_fmul_s_mono(fmul_s(v4a, f5), f6, fmul_s(v4b, f5), f6);
}

/// Hit-count normalization from a target accuracy produces
/// non-negative counts that sum to the judged objects less the
/// misses, and hits the rounded weighted point total to within four
/// points — within one percentage point of the target accuracy on any
/// map of at least some eighty objects. The bounds on the point total
/// say that the accuracy is achievable at all: at least the all-lowest
/// -tier floor and at most a perfect score on the non-missed objects.
pub proof fn lemma_normalization_counts(a: int, n: int, m: int)
    requires
        0 <= a <= SCALE as int,
        0 <= m <= n,
        n <= 0x400_0000_0000_0000,
        n - m <= round_points_s(a, n),
        round_points_s(a, n) <= 6 * (n - m),
    ensures
        ({
            let trip = norm_free_s(a, n, m);
            &&& 0 <= trip.0
            &&& 0 <= trip.1
            &&& 0 <= trip.2
            &&& trip.0 + trip.1 + trip.2 == n - m
            &&& round_points_s(a, n) - 4 <= 6 * trip.0 + 2 * trip.1 + trip.2
            &&& 6 * trip.0 + 2 * trip.1 + trip.2 <= round_points_s(a, n)
        }),
{
    let t = round_points_s(a, n);
    assert(6 * a * n + (SCALE as int) / 2 <= 6 * (SCALE as int) * n + (SCALE as int) / 2)
        by (nonlinear_arith)
        requires
            0 <= a <= SCALE as int && 0 <= n,
    ;
    assert(6 * a * n >= 0) by (nonlinear_arith)
        requires
            0 <= a && 0 <= n,
    ;
    vstd::arithmetic::div_mod::lemma_div_is_ordered(
        6 * a * n + (SCALE as int) / 2,
        6 * (SCALE as int) * n + (SCALE as int) / 2,
        SCALE as int,
    );
    vstd::arithmetic::div_mod::lemma_div_multiples_vanish_fancy(
        6 * n,
        (SCALE as int) / 2,
        SCALE as int,
    );
    assert((SCALE as int) * (6 * n) == 6 * (SCALE as int) * n) by (nonlinear_arith);
    assert((6 * (SCALE as int) * n + (SCALE as int) / 2) / (SCALE as int) == 6 * n);
    vstd::arithmetic::div_mod::lemma_div_pos_is_pos(
        6 * a * n + (SCALE as int) / 2,
        SCALE as int,
    );
    assert(t == (6 * a * n + (SCALE as int) / 2) / (SCALE as int));
    assert(t <= 6 * n);
    let delta = t - (n - m);
    assert(floor0_s(delta) == delta);
    let q = delta / 5;
    let r = delta % 5;
    vstd::arithmetic::div_mod::lemma_div_is_ordered(delta, 5 * (n - m), 5);
    vstd::arithmetic::div_mod::lemma_div_multiples_vanish(n - m, 5);
    assert(q <= n - m);
    vstd::arithmetic::div_mod::lemma_div_pos_is_pos(delta, 5);
    vstd::arithmetic::div_mod::lemma_fundamental_div_mod(delta, 5);
    vstd::arithmetic::div_mod::lemma_mod_division_less_than_divisor(delta, 5);
    let room = n - q - m;
    assert(floor0_s(n - q - m) == room);
    let n100 = if r <= room {
        r
    } else {
        room
    };
    let n50 = n - q - n100 - m;
    assert(floor0_s(n - q - n100 - m) == n50);
    let tr = if q <= n50 / 4 {
        q
    } else {
        n50 / 4
    };
    vstd::arithmetic::div_mod::lemma_div_pos_is_pos(n50, 4);
    vstd::arithmetic::div_mod::lemma_fundamental_div_mod(n50, 4);
    vstd::arithmetic::div_mod::lemma_mod_division_less_than_divisor(n50, 4);
    assert(4 * tr <= n50);
    let o300 = q - tr;
    let o100 = n100 + 5 * tr;
    let o50 = n50 - 4 * tr;
    assert(cap(o300) == o300);
    assert(o100 <= n + 5 * n);
    assert(cap(o100) == o100);
    assert(cap(o50) == o50);
    let trip = norm_free_s(a, n, m);
    assert(trip.0 == o300 && trip.1 == o100 && trip.2 == o50);
    assert(o300 + o100 + o50 == n - m);
    assert(6 * o300 + 2 * o100 + o50 == 6 * q + 2 * n100 + n50);
    if r <= room {
        assert(6 * q + 2 * r + (n - q - r - m) == delta + (n - m));
    } else {
        assert(6 * q + 2 * room + (n - q - room - m) == 5 * q + room + (n - m));
        assert(5 * q + r + (n - m) == delta + (n - m));
        assert(1 <= r - room <= 4);
    }
}

/// With a caller-fixed middle tier, normalization still produces
/// non-negative counts that sum to the judged objects less the
/// misses, whenever the fixed counts and misses fit the object count.
pub proof fn lemma_normalization_fixed_counts(
    a: int,
    n: int,
    m: int,
    n100_opt: Option<u64>,
    n50_opt: Option<u64>,
)
    requires
        0 <= a <= SCALE as int,
        0 <= m,
        opt0_s(n100_opt) + opt0_s(n50_opt) + m <= n,
        n <= 0x400_0000_0000_0000,
    ensures
        ({
            let trip = norm_fixed_s(a, n, m, n100_opt, n50_opt);
            &&& 0 <= trip.0
            &&& 0 <= trip.1
            &&& 0 <= trip.2
            &&& trip.0 + trip.1 + trip.2 == n - m
        }),
{
    let n100 = opt0_s(n100_opt);
    let n50 = opt0_s(n50_opt);
    let mo = n - n100 - n50 - m;
    assert(floor0_s(n - n100 - n50 - m) == mo);
    let mp = floor0_s(round_points_s(a, n) - (2 * n100 + n50 + m));
    vstd::arithmetic::div_mod::lemma_div_pos_is_pos(mp, 6);
    let n300 = if mo <= mp / 6 {
        mo
    } else {
        mp / 6
    };
    assert(0 <= n300 <= mo);
    let n50b = n50 + (mo - n300);
    if n50_opt.is_some() && n100_opt.is_none() {
        let difference = n50b - n50;
        vstd::arithmetic::div_mod::lemma_div_pos_is_pos(difference, 4);
        vstd::arithmetic::div_mod::lemma_fundamental_div_mod(difference, 4);
        vstd::arithmetic::div_mod::lemma_mod_division_less_than_divisor(difference, 4);
        let tr = if n300 <= difference / 4 {
            n300
        } else {
            difference / 4
        };
        assert(4 * tr <= difference);
        assert(cap(n300 - tr) == n300 - tr);
        assert(cap(n100 + 5 * tr) == n100 + 5 * tr);
        assert(cap(n50b - 4 * tr) == n50b - 4 * tr);
        assert((n300 - tr) + (n100 + 5 * tr) + (n50b - 4 * tr) == n - m);
    } else {
        assert(cap(n300) == n300);
        assert(cap(n100) == n100);
        assert(cap(n50b) == n50b);
        assert(n300 + n100 + n50b == n - m);
    }
}

/// On a map of at least one hundred objects, the accuracy recomputed
/// from the derived hit counts lies within one percentage point of
/// the target accuracy.
pub proof fn lemma_normalization_accuracy(a: int, n: int, m: int)
    requires
        0 <= a <= SCALE as int,
        0 <= m <= n,
        100 <= n,
        n <= 0x400_0000_0000_0000,
        n - m <= round_points_s(a, n),
        round_points_s(a, n) <= 6 * (n - m),
    ensures
        ({
            let trip = norm_free_s(a, n, m);
            let recomputed = weighted_acc_s(trip.0, trip.1, trip.2, n);
            a - 10_000 <= recomputed <= a + 10_000
        }),
{
    lemma_normalization_counts(a, n, m);
    let trip = norm_free_s(a, n, m);
    let p = 6 * trip.0 + 2 * trip.1 + trip.2;
    let t = round_points_s(a, n);
    let sc = SCALE as int;
    assert(6 * a * n + sc / 2 <= 6 * sc * n + sc / 2) by (nonlinear_arith)
        requires
            0 <= a <= sc && 0 <= n,
    ;
    assert(6 * a * n >= 0) by (nonlinear_arith)
        requires
            0 <= a && 0 <= n,
    ;
    vstd::arithmetic::div_mod::lemma_div_is_ordered(
        6 * a * n + sc / 2,
        6 * sc * n + sc / 2,
        sc,
    );
    vstd::arithmetic::div_mod::lemma_div_multiples_vanish_fancy(6 * n, sc / 2, sc);
    assert(sc * (6 * n) == 6 * sc * n) by (nonlinear_arith);
    vstd::arithmetic::div_mod::lemma_div_pos_is_pos(6 * a * n + sc / 2, sc);
    assert(t == (6 * a * n + sc / 2) / sc);
    vstd::arithmetic::div_mod::lemma_fundamental_div_mod(6 * a * n + sc / 2, sc);
    vstd::arithmetic::div_mod::lemma_mod_division_less_than_divisor(6 * a * n + sc / 2, sc);
    assert(t * sc <= 6 * a * n + sc / 2 < t * sc + sc) by (nonlinear_arith)
        requires
            6 * a * n + sc / 2 == sc * t + (6 * a * n + sc / 2) % sc && 0 <= (6 * a * n + sc / 2)
                % sc < sc,
    ;
    let q = (p * sc) / (6 * n);
    assert(p * sc >= (t - 4) * sc) by (nonlinear_arith)
        requires
            p >= t - 4 && sc > 0,
    ;
    assert((t - 4) * sc == t * sc - 4 * sc) by (nonlinear_arith);
    assert(p * sc <= t * sc) by (nonlinear_arith)
        requires
            p <= t && sc > 0,
    ;
    assert((a - 10_000) * (6 * n) <= 6 * a * n - 5 * sc) by (nonlinear_arith)
        requires
            n >= 100 && sc == 1_000_000,
    ;
    assert(p * sc >= (a - 10_000) * (6 * n));
    vstd::arithmetic::div_mod::lemma_div_is_ordered(
        (a - 10_000) * (6 * n),
        p * sc,
        6 * n,
    );
    vstd::arithmetic::div_mod::lemma_div_multiples_vanish(a - 10_000, 6 * n);
    assert((6 * n) * (a - 10_000) == (a - 10_000) * (6 * n)) by (nonlinear_arith);
    assert(q >= a - 10_000);
    assert(6 * a * n + sc / 2 <= (a + 10_000) * (6 * n) + 6 * n - 1) by (nonlinear_arith)
        requires
            n >= 100 && sc == 1_000_000,
    ;
    vstd::arithmetic::div_mod::lemma_div_is_ordered(
        p * sc,
        (a + 10_000) * (6 * n) + 6 * n - 1,
        6 * n,
    );
    vstd::arithmetic::div_mod::lemma_div_multiples_vanish_fancy(a + 10_000, 6 * n - 1, 6 * n);
    assert((6 * n) * (a + 10_000) == (a + 10_000) * (6 * n)) by (nonlinear_arith);
    assert(q <= a + 10_000);
    assert(weighted_acc_s(trip.0, trip.1, trip.2, n) == cap(q));
}

} // verus!
