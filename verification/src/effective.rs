//! Effective-miss estimation and the shared miss penalty.
//!
//! Raw miss counts under-represent combo-break damage on maps with
//! sliders; the estimator back-fills an effective miss count from the
//! combo deficit. The miss penalty scales a skill value down by the
//! effective misses, softened on maps with many difficult sections.

use vstd::prelude::*;
use crate::attributes::OsuDifficultyAttributes;
use crate::fixed::{
    fadd, fadd_s, fdiv, fdiv_s, fmax, fmax_s, fmin, fmin_s, fmul, fmul_s, fsqrt, fsqrt_s, fsub,
    fsub_s, int_fix_s, Fix, SCALE,
};

verus! {

/// One tenth, the per-slider deduction of the full-combo threshold.
pub const TENTH: u64 = 100_000;

/// Base factor of the miss penalty.
pub const MISS_PENALTY_BASE: u64 = 940_000;

/// Raw image of the miss penalty
/// `0.94 / (misses / (2 * sqrt(strain_count)) + 1)`.
pub open spec fn miss_penalty_s(misses: int, strain_count: int) -> int {
    fdiv_s(
        MISS_PENALTY_BASE as int,
        fadd_s(fdiv_s(misses, fmul_s(2 * (SCALE as int), fsqrt_s(strain_count))), SCALE as int),
    )
}

/// Miss penalty factor: more difficult-strain-weighted maps are
/// penalized less per miss.
pub fn calculate_miss_penalty(misses: Fix, difficult_strain_count: Fix) -> (r: Fix)
    ensures
        r.raw == miss_penalty_s(misses.raw as int, difficult_strain_count.raw as int),
{
    let denom = fadd(
        fdiv(misses, fmul(Fix { raw: 2 * SCALE }, fsqrt(difficult_strain_count))),
        Fix { raw: SCALE },
    );
    fdiv(Fix { raw: MISS_PENALTY_BASE }, denom)
}

/// The combo-deficit miss estimate before clamping: the full-combo
/// threshold over the reached combo, when the map has sliders and the
/// combo fell short of the threshold; zero otherwise.
pub open spec fn combo_based_misses_s(
    attrs: OsuDifficultyAttributes,
    combo: Option<u64>,
    total_hits: int,
) -> int {
    if attrs.n_sliders > 0 {
        let threshold = fsub_s(
            int_fix_s(attrs.max_combo as int),
            fmul_s(TENTH as int, int_fix_s(attrs.n_sliders as int)),
        );
        match combo {
            Some(c) => if int_fix_s(c as int) < threshold {
                fmin_s(
                    fdiv_s(threshold, fmax_s(int_fix_s(c as int), SCALE as int)),
                    int_fix_s(total_hits),
                )
            } else {
                0
            },
            None => 0,
        }
    } else {
        0
    }
}

/// The effective miss count: the raw count or the clamped
/// combo-deficit estimate, whichever is larger.
pub open spec fn effective_misses_s(
    attrs: OsuDifficultyAttributes,
    combo: Option<u64>,
    n_misses: int,
    total_hits: int,
) -> int {
    fmax_s(n_misses, combo_based_misses_s(attrs, combo, total_hits) / (SCALE as int))
}

/// Guess the number of misses plus combo breaks from the combo
/// deficit, never below the raw observed miss count.
pub fn calculate_effective_misses(
    attrs: &OsuDifficultyAttributes,
    combo: Option<u64>,
    n_misses: u64,
    total_hits: u64,
) -> (r: u64)
    ensures
        r as int == effective_misses_s(*attrs, combo, n_misses as int, total_hits as int),
{
    let mut combo_based_misses = Fix { raw: 0 };
    if attrs.n_sliders > 0 {
        let threshold = fsub(
            Fix::from_int(attrs.max_combo),
            fmul(Fix { raw: TENTH }, Fix::from_int(attrs.n_sliders)),
        );
        if let Some(c) = combo {
            let c_fix = Fix::from_int(c);
            if c_fix.raw < threshold.raw {
                combo_based_misses = fmin(
                    fdiv(threshold, fmax(c_fix, Fix { raw: SCALE })),
                    Fix::from_int(total_hits),
                );
            }
        }
    }
    let estimated = combo_based_misses.raw / SCALE;
    if n_misses >= estimated {
        n_misses
    } else {
        estimated
    }
}

/// The effective miss count never falls below the raw observed miss
/// count, and never exceeds the total judged-object count as long as
/// the raw count itself does not.
pub proof fn lemma_effective_misses_bounds(
    attrs: OsuDifficultyAttributes,
    combo: Option<u64>,
    n_misses: int,
    total_hits: int,
)
    requires
        0 <= n_misses <= total_hits,
    ensures
        effective_misses_s(attrs, combo, n_misses, total_hits) >= n_misses,
        effective_misses_s(attrs, combo, n_misses, total_hits) <= total_hits,
{
    let cbm = combo_based_misses_s(attrs, combo, total_hits);
    assert(cbm <= int_fix_s(total_hits));
    assert(int_fix_s(total_hits) <= total_hits * (SCALE as int));
    vstd::arithmetic::div_mod::lemma_div_is_ordered(
        cbm,
        total_hits * (SCALE as int),
        SCALE as int,
    );
    vstd::arithmetic::div_mod::lemma_div_multiples_vanish(total_hits, SCALE as int);
    assert(cbm / (SCALE as int) <= total_hits);
}

} // verus!
