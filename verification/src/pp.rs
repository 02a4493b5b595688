//! Performance calculator: builder, hit-result normalization and the
//! skill-value pipeline.
//!
//! The builder accumulates the play parameters, normalizes hit counts
//! (either filling unset tiers or deriving them from a target
//! accuracy), estimates effective misses, and aggregates the per-skill
//! values into one performance value. Every stage is mirrored by a
//! specification function over plain integers, so the result of a
//! calculation is pinned exactly. Intermediate factors that would turn
//! negative in an unbounded model are floored at zero, in line with
//! the invariant that component values are never negative.

use vstd::prelude::*;
use crate::attributes::{derived_attrs, Beatmap, OsuAttributeProvider, OsuDifficultyAttributes,
    OsuPerformanceAttributes};
use crate::score::OsuScoreState;
use crate::effective::{
    calculate_effective_misses, calculate_miss_penalty, effective_misses_s, miss_penalty_s,
};
use crate::fixed::{
    cap, fadd, fadd_s, fdiv, fdiv_s, flog10u, fmax, fmax_s, fmin, fmin_s, fmul, fmul_s, fpow45,
    fpow45_s, fpowf, fpowi, fsub, fsub_s, int_fix_s, log10u_s, powf_s, powi_s, Fix, SCALE,
};
use crate::mods::{ap, ap_s, fl, fl_s, hd, hd_s, nf, nf_s, rx, rx_s, so, so_s, td, td_s};

verus! {

/// Performance calculator for a single play on one map.
#[derive(Clone, Copy, Debug)]
pub struct OsuPP<'map> {
    /// The map being evaluated.
    pub map: &'map Beatmap,
    /// Difficulty attributes to reuse instead of deriving them.
    pub attributes: Option<OsuDifficultyAttributes>,
    /// Mod bitmask of the play.
    pub mods: u32,
    /// Normalized accuracy fraction, set by `accuracy`.
    pub acc: Option<Fix>,
    /// Maximum combo of the play.
    pub combo: Option<u64>,
    /// Count of highest-tier hits.
    pub n300: Option<u64>,
    /// Count of upper middle tier hits.
    pub n100: Option<u64>,
    /// Count of lower middle tier hits.
    pub n50: Option<u64>,
    /// Count of misses.
    pub n_misses: u64,
    /// Number of objects of a partial play.
    pub passed_objects: Option<u64>,
    /// Clock-rate override, handed to the external difficulty
    /// derivation; the precomputed snapshots already reflect it.
    pub clock_rate: Option<Fix>,
}

/// Number of judged objects a builder evaluates: the passed-object
/// count, or the whole map.
pub open spec fn n_objects_s(passed_objects: Option<u64>, map: Beatmap) -> int {
    match passed_objects {
        Some(p) => p as int,
        None => map.snapshots@.len() as int,
    }
}

/// Clamp a possibly negative count at zero.
pub open spec fn floor0_s(x: int) -> int {
    if x < 0 {
        0
    } else {
        x
    }
}

/// The value of `x` or zero when unset.
pub open spec fn opt0_s(x: Option<u64>) -> int {
    match x {
        Some(v) => v as int,
        None => 0,
    }
}

/// Total weighted hit points implied by accuracy fraction `a` over
/// `n` objects, rounded to the nearest integer: `round(6 * a * n)`.
pub open spec fn round_points_s(a: int, n: int) -> int {
    cap((6 * a * n + (SCALE as int) / 2) / (SCALE as int))
}

/// Weighted accuracy fraction of a hit-count triple, in raw millionths.
pub open spec fn weighted_acc_s(n300: int, n100: int, n50: int, n_objects: int) -> int {
    if n_objects == 0 {
        0
    } else {
        cap((6 * n300 + 2 * n100 + n50) * (SCALE as int) / (6 * n_objects))
    }
}

/// Derived hit counts when at least one middle tier was caller-fixed:
/// fill the highest tier from the unplaced points, push the remainder
/// into the lower middle tier, and re-balance toward the upper middle
/// tier only when the lower middle tier alone was fixed.
pub open spec fn norm_fixed_s(
    a: int,
    n_objects: int,
    misses: int,
    n100_opt: Option<u64>,
    n50_opt: Option<u64>,
) -> (int, int, int) {
    let n100 = opt0_s(n100_opt);
    let n50 = opt0_s(n50_opt);
    let placed_points = 2 * n100 + n50 + misses;
    let missing_objects = floor0_s(n_objects - n100 - n50 - misses);
    let missing_points = floor0_s(round_points_s(a, n_objects) - placed_points);
    let n300 = if missing_objects <= missing_points / 6 {
        missing_objects
    } else {
        missing_points / 6
    };
    let n50b = n50 + (missing_objects - n300);
    if n50_opt.is_some() && n100_opt.is_none() {
        let difference = n50b - n50;
        let t = if n300 <= difference / 4 {
            n300
        } else {
            difference / 4
        };
        (cap(n300 - t), cap(n100 + 5 * t), cap(n50b - 4 * t))
    } else {
        (cap(n300), cap(n100), cap(n50b))
    }
}

/// Derived hit counts when no middle tier was caller-fixed: solve the
/// lowest tier from the rounded point total, then convert groups of
/// four lowest-tier hits and one highest-tier hit into five upper
/// middle tier hits to minimize the lowest tier.
pub open spec fn norm_free_s(a: int, n_objects: int, misses_in: int) -> (int, int, int) {
    let misses = if misses_in <= n_objects {
        misses_in
    } else {
        n_objects
    };
    let target_total = round_points_s(a, n_objects);
    let delta = floor0_s(target_total - (n_objects - misses));
    let n300 = delta / 5;
    let room = floor0_s(n_objects - n300 - misses);
    let n100 = if delta % 5 <= room {
        delta % 5
    } else {
        room
    };
    let n50 = floor0_s(n_objects - n300 - n100 - misses);
    let t = if n300 <= n50 / 4 {
        n300
    } else {
        n50 / 4
    };
    (cap(n300 - t), cap(n100 + 5 * t), cap(n50 - 4 * t))
}

/// The hit-count triple the `accuracy` setter derives.
pub open spec fn normalize_s(
    a: int,
    n_objects: int,
    misses: int,
    n100_opt: Option<u64>,
    n50_opt: Option<u64>,
) -> (int, int, int) {
    if n100_opt.is_some() || n50_opt.is_some() {
        norm_fixed_s(a, n_objects, misses, n100_opt, n50_opt)
    } else {
        norm_free_s(a, n_objects, misses)
    }
}

impl<'map> OsuPP<'map> {
    /// Create a new performance calculator for the given map.
    pub fn new(map: &'map Beatmap) -> (r: Self)
        ensures
            r.map == map,
            r.attributes is None,
            r.mods == 0,
            r.acc is None,
            r.combo is None,
            r.n300 is None,
            r.n100 is None,
            r.n50 is None,
            r.n_misses == 0,
            r.passed_objects is None,
            r.clock_rate is None,
    {
        Self {
            map,
            attributes: None,
            mods: 0,
            acc: None,
            combo: None,
            n300: None,
            n100: None,
            n50: None,
            n_misses: 0,
            passed_objects: None,
            clock_rate: None,
        }
    }

    /// Provide the result of a previous difficulty or performance
    /// calculation so the attributes need not be re-derived.
    pub fn attributes<P: OsuAttributeProvider>(self, attributes: P) -> (r: Self)
        ensures
            r == match attributes.provided() {
                Some(a) => Self { attributes: Some(a), ..self },
                None => self,
            },
    {
        match attributes.attributes() {
            Some(a) => Self { attributes: Some(a), ..self },
            None => self,
        }
    }

    /// Specify mods through their bit values.
    pub fn mods(self, mods: u32) -> (r: Self)
        ensures
            r == (Self { mods, ..self }),
    {
        Self { mods, ..self }
    }

    /// Specify the max combo of the play.
    pub fn combo(self, combo: u64) -> (r: Self)
        ensures
            r == (Self { combo: Some(combo), ..self }),
    {
        Self { combo: Some(combo), ..self }
    }

    /// Specify the amount of highest-tier hits of a play.
    pub fn n300(self, n300: u64) -> (r: Self)
        ensures
            r == (Self { n300: Some(n300), ..self }),
    {
        Self { n300: Some(n300), ..self }
    }

    /// Specify the amount of upper middle tier hits of a play.
    pub fn n100(self, n100: u64) -> (r: Self)
        ensures
            r == (Self { n100: Some(n100), ..self }),
    {
        Self { n100: Some(n100), ..self }
    }

    /// Specify the amount of lower middle tier hits of a play.
    pub fn n50(self, n50: u64) -> (r: Self)
        ensures
            r == (Self { n50: Some(n50), ..self }),
    {
        Self { n50: Some(n50), ..self }
    }

    /// Specify the amount of misses of a play.
    pub fn misses(self, n_misses: u64) -> (r: Self)
        ensures
            r == (Self { n_misses, ..self }),
    {
        Self { n_misses, ..self }
    }

    /// Amount of passed objects for partial plays, e.g. a fail.
    pub fn passed_objects(self, passed_objects: u64) -> (r: Self)
        ensures
            r == (Self { passed_objects: Some(passed_objects), ..self }),
    {
        Self { passed_objects: Some(passed_objects), ..self }
    }

    /// Adjust the clock rate used by the external difficulty
    /// derivation; retained for interface completeness, the
    /// precomputed snapshots already reflect it.
    pub fn clock_rate(self, clock_rate: Fix) -> (r: Self)
        ensures
            r == (Self { clock_rate: Some(clock_rate), ..self }),
    {
        Self { clock_rate: Some(clock_rate), ..self }
    }

    /// Provide parameters through an [`OsuScoreState`].
    pub fn state(self, state: OsuScoreState) -> (r: Self)
        ensures
            r == (Self {
                combo: Some(state.max_combo),
                n300: Some(state.n300),
                n100: Some(state.n100),
                n50: Some(state.n50),
                n_misses: state.misses,
                ..self
            }),
    {
        Self {
            combo: Some(state.max_combo),
            n300: Some(state.n300),
            n100: Some(state.n100),
            n50: Some(state.n50),
            n_misses: state.misses,
            ..self
        }
    }

    /// Generate the hit results with respect to the given accuracy,
    /// a percentage between zero and one hundred.
    ///
    /// Misses should be set beforehand, and for a partial play the
    /// passed objects too, since the derived counts depend on both.
    /// Generate the hit results with respect to the given accuracy,
    /// a percentage between zero and one hundred.
    ///
    /// Misses should be set beforehand, and for a partial play the
    /// passed objects too, since the derived counts depend on both.
    pub fn accuracy(self, acc: Fix) -> (r: Self)
        requires
            acc.raw <= 100 * SCALE,
        ensures
            ({
                let a = acc.raw as int / 100;
                let n_objects = n_objects_s(self.passed_objects, *self.map);
                let trip = normalize_s(a, n_objects, self.n_misses as int, self.n100, self.n50);
                r == (Self {
                    n300: Some(trip.0 as u64),
                    n100: Some(trip.1 as u64),
                    n50: Some(trip.2 as u64),
                    acc: Some(
                        Fix {
                            raw: weighted_acc_s(trip.0, trip.1, trip.2, n_objects) as u64,
                        },
                    ),
                    ..self
                })
            }),
    {
        let n_objects: u64 = match self.passed_objects {
            Some(p) => p,
            None => self.map.snapshots.len() as u64,
        };
        let a: u64 = acc.raw / 100;
        proof {
            vstd::arithmetic::div_mod::lemma_div_is_ordered(
                acc.raw as int,
                100 * (SCALE as int),
                100,
            );
            vstd::arithmetic::div_mod::lemma_div_multiples_vanish(SCALE as int, 100);
        }
        let target_points: u64 = round_points(a, n_objects);
        let (o300, o100, o50): (u64, u64, u64) = if self.n100.is_some() || self.n50.is_some() {
            norm_fixed(target_points, a, n_objects, self.n_misses, self.n100, self.n50)
        } else {
            norm_free(target_points, a, n_objects, self.n_misses)
        };
        let acc_raw: u64 = weighted_acc(o300, o100, o50, n_objects);
        Self {
            n300: Some(o300),
            n100: Some(o100),
            n50: Some(o50),
            acc: Some(Fix { raw: acc_raw }),
            ..self
        }
    }
}

/// Rounded weighted point total for an accuracy fraction `a` (in raw
/// millionths, at most one) over `n` objects.
fn round_points(a: u64, n: u64) -> (r: u64)
    requires
        a <= SCALE,
    ensures
        r as int == round_points_s(a as int, n as int),
{
    proof {
        assert(6 * (a as int) * (n as int) + (SCALE as int) / 2
            <= 0x10_0000_0000_0000_0000_0000_0000) by (nonlinear_arith)
            requires
                0 <= (a as int) <= (SCALE as int) && 0 <= (n as int) <= u64::MAX as int,
        ;
        assert(6 * (a as int) * (n as int) >= 0) by (nonlinear_arith)
            requires
                0 <= (a as int) && 0 <= (n as int),
        ;
    }
    let target: u128 = (6 * (a as u128) * (n as u128) + (SCALE as u128) / 2) / (SCALE as u128);
    sat64(target)
}

/// Weighted accuracy fraction of a hit-count triple.
fn weighted_acc(n300: u64, n100: u64, n50: u64, n_objects: u64) -> (r: u64)
    ensures
        r as int == weighted_acc_s(n300 as int, n100 as int, n50 as int, n_objects as int),
{
    if n_objects == 0 {
        0
    } else {
        let numerator: u128 = 6 * (n300 as u128) + 2 * (n100 as u128) + (n50 as u128);
        proof {
            assert(numerator * (SCALE as u128) <= u128::MAX) by (nonlinear_arith)
                requires
                    numerator <= 9 * (u64::MAX as int),
            ;
        }
        sat64((numerator * (SCALE as u128)) / (6 * (n_objects as u128)))
    }
}

/// Hit-count derivation with a caller-fixed middle tier.
fn norm_fixed(
    target_points: u64,
    a: u64,
    n_objects: u64,
    misses: u64,
    n100_opt: Option<u64>,
    n50_opt: Option<u64>,
) -> (r: (u64, u64, u64))
    requires
        target_points as int == round_points_s(a as int, n_objects as int),
    ensures
        ({
            let trip = norm_fixed_s(a as int, n_objects as int, misses as int, n100_opt, n50_opt);
            r.0 as int == trip.0 && r.1 as int == trip.1 && r.2 as int == trip.2
        }),
{
    let n100 = match n100_opt {
        Some(v) => v,
        None => 0,
    };
    let n50 = match n50_opt {
        Some(v) => v,
        None => 0,
    };
    let placed_points: u128 = 2 * (n100 as u128) + (n50 as u128) + (misses as u128);
    let sum_fixed: u128 = (n100 as u128) + (n50 as u128) + (misses as u128);
    let missing_objects: u128 = if (n_objects as u128) >= sum_fixed {
        n_objects as u128 - sum_fixed
    } else {
        0
    };
    let missing_points: u128 = if (target_points as u128) >= placed_points {
        target_points as u128 - placed_points
    } else {
        0
    };
    let n300: u128 = if missing_objects <= missing_points / 6 {
        missing_objects
    } else {
        missing_points / 6
    };
    let n50b: u128 = (n50 as u128) + (missing_objects - n300);
    if n50_opt.is_some() && n100_opt.is_none() {
        let difference = n50b - (n50 as u128);
        let t = if n300 <= difference / 4 {
            n300
        } else {
            difference / 4
        };
        (sat64(n300 - t), sat64((n100 as u128) + 5 * t), sat64(n50b - 4 * t))
    } else {
        (sat64(n300), n100, sat64(n50b))
    }
}

/// Hit-count derivation with no caller-fixed middle tier.
fn norm_free(target_points: u64, a: u64, n_objects: u64, misses_in: u64) -> (r: (u64, u64, u64))
    requires
        target_points as int == round_points_s(a as int, n_objects as int),
    ensures
        ({
            let trip = norm_free_s(a as int, n_objects as int, misses_in as int);
            r.0 as int == trip.0 && r.1 as int == trip.1 && r.2 as int == trip.2
        }),
{
    let misses: u64 = if misses_in <= n_objects {
        misses_in
    } else {
        n_objects
    };
    let delta: u128 = if (target_points as u128) >= (n_objects - misses) as u128 {
        target_points as u128 - (n_objects - misses) as u128
    } else {
        0
    };
    let n300: u128 = delta / 5;
    let used: u128 = n300 + (misses as u128);
    let room: u128 = if (n_objects as u128) >= used {
        n_objects as u128 - used
    } else {
        0
    };
    let n100: u128 = if delta % 5 <= room {
        delta % 5
    } else {
        room
    };
    let used2: u128 = n300 + n100 + (misses as u128);
    let n50: u128 = if (n_objects as u128) >= used2 {
        n_objects as u128 - used2
    } else {
        0
    };
    let t = if n300 <= n50 / 4 {
        n300
    } else {
        n50 / 4
    };
    (sat64(n300 - t), sat64(n100 + 5 * t), sat64(n50 - 4 * t))
}

/// Intermediate state of one evaluation: the builder's parameters
/// resolved into definite counts, the normalized accuracy and the
/// effective miss count.
pub struct OsuPPInner {
    /// Difficulty attributes the evaluation uses.
    pub attributes: OsuDifficultyAttributes,
    /// Mod bitmask.
    pub mods: u32,
    /// Normalized accuracy fraction.
    pub acc: Fix,
    /// Maximum combo of the play, if supplied.
    pub combo: Option<u64>,
    /// Count of highest-tier hits.
    pub n300: u64,
    /// Count of upper middle tier hits.
    pub n100: u64,
    /// Count of lower middle tier hits.
    pub n50: u64,
    /// Total judged-object count.
    pub total_hits: u64,
    /// Effective miss count.
    pub effective_misses: u64,
}

/// Length bonus shared by the aim and speed values: grows to a
/// plateau at two thousand objects, then logarithmically.
pub open spec fn len_bonus_s(total_hits: int) -> int {
    let ratio = fdiv_s(int_fix_s(total_hits), 2_000_000_000);
    let base = fadd_s(950_000, fmul_s(400_000, fmin_s(ratio, SCALE as int)));
    if total_hits > 2000 {
        let logterm = if ratio >= SCALE as int {
            log10u_s(ratio)
        } else {
            0
        };
        fadd_s(base, fmul_s(500_000, logterm))
    } else {
        base
    }
}

fn len_bonus(total_hits: u64) -> (r: Fix)
    ensures
        r.raw == len_bonus_s(total_hits as int),
{
    let th = Fix::from_int(total_hits);
    let ratio = fdiv(th, Fix { raw: 2_000_000_000 });
    let base = fadd(
        Fix { raw: 950_000 },
        fmul(Fix { raw: 400_000 }, fmin(ratio, Fix { raw: SCALE })),
    );
    if total_hits > 2000 {
        let logterm = if ratio.raw >= SCALE {
            flog10u(ratio)
        } else {
            Fix { raw: 0 }
        };
        fadd(base, fmul(Fix { raw: 500_000 }, logterm))
    } else {
        base
    }
}

/// Cubic transform of a raw strain rating into a base skill value:
/// `(5 * max(raw / 0.0675, 1) - 4)^3 / 100000`.
pub open spec fn skill_base_s(raw: int) -> int {
    fdiv_s(
        powi_s(fsub_s(fmul_s(5_000_000, fmax_s(fdiv_s(raw, 67_500), SCALE as int)), 4_000_000), 3),
        100_000_000_000,
    )
}

fn skill_base(raw: Fix) -> (r: Fix)
    ensures
        r.raw == skill_base_s(raw.raw as int),
{
    fdiv(
        fpowi(
            fsub(
                fmul(Fix { raw: 5_000_000 }, fmax(fdiv(raw, Fix { raw: 67_500 }), Fix::one())),
                Fix { raw: 4_000_000 },
            ),
            3,
        ),
        Fix { raw: 100_000_000_000 },
    )
}

/// Relative-difficulty bonus for a high approach rate; the threshold
/// and slope differ under the relax mod.
pub open spec fn ar_factor_s(mods: u32, ar: int) -> int {
    if rx_s(mods) {
        if ar > 10_700_000 {
            fmul_s(400_000, fsub_s(ar, 10_700_000))
        } else {
            0
        }
    } else {
        if ar > 10_330_000 {
            fmul_s(300_000, fsub_s(ar, 10_330_000))
        } else {
            0
        }
    }
}

fn ar_factor(mods: u32, ar: Fix) -> (r: Fix)
    ensures
        r.raw == ar_factor_s(mods, ar.raw as int),
{
    if rx(mods) {
        if ar.raw > 10_700_000 {
            fmul(Fix { raw: 400_000 }, fsub(ar, Fix { raw: 10_700_000 }))
        } else {
            Fix { raw: 0 }
        }
    } else {
        if ar.raw > 10_330_000 {
            fmul(Fix { raw: 300_000 }, fsub(ar, Fix { raw: 10_330_000 }))
        } else {
            Fix { raw: 0 }
        }
    }
}

/// Slope of the bonus for the visual-cue-removing mod.
pub open spec fn hd_slope_s(mods: u32) -> int {
    if rx_s(mods) {
        50_000
    } else {
        40_000
    }
}

/// Pivot approach rate of the bonus for the visual-cue-removing mod.
pub open spec fn hd_pivot_s(mods: u32) -> int {
    if rx_s(mods) {
        11_000_000
    } else {
        12_000_000
    }
}

/// Overall-difficulty scaling `0.98 + od^2 / 2500` shared by the aim
/// and obstruction values.
pub open spec fn od_sq_factor_s(od: int) -> int {
    fadd_s(980_000, fdiv_s(fmul_s(od, od), 2_500_000_000))
}

fn od_sq_factor(od: Fix) -> (r: Fix)
    ensures
        r.raw == od_sq_factor_s(od.raw as int),
{
    fadd(Fix { raw: 980_000 }, fdiv(fmul(od, od), Fix { raw: 2_500_000_000 }))
}

/// Aim skill value.
#[verifier::opaque]
pub open spec fn aim_value_s(inner: OsuPPInner) -> int {
    let a = inner.attributes;
    let th = inner.total_hits as int;
    let raw_aim = if td_s(inner.mods) {
        fpow45_s(a.aim_strain.raw as int)
    } else {
        a.aim_strain.raw as int
    };
    let v0 = skill_base_s(raw_aim);
    let lb = len_bonus_s(th);
    let v1 = fmul_s(v0, lb);
    let v2 = if inner.effective_misses > 0 {
        fmul_s(
            v1,
            miss_penalty_s(
                int_fix_s(inner.effective_misses as int),
                a.aim_difficult_strain_count.raw as int,
            ),
        )
    } else {
        v1
    };
    let arf = ar_factor_s(inner.mods, a.ar.raw as int);
    let v3 = if arf > 0 {
        fmul_s(v2, fadd_s(SCALE as int, fmul_s(arf, lb)))
    } else if a.ar.raw < 8_000_000 {
        let buff = if a.ar.raw <= 5_000_000 {
            fadd_s(1_300_000, fdiv_s(fsub_s(5_000_000, a.ar.raw as int), 50_000_000))
        } else {
            1_300_000
        };
        fmul_s(v2, fmin_s(fmul_s(buff, lb), 1_750_000))
    } else {
        v2
    };
    let v4 = if a.cs.raw > 6_000_000 && rx_s(inner.mods) {
        fmul_s(v3, fadd_s(1_030_000, fdiv_s(fsub_s(a.cs.raw as int, 6_000_000), 20_000_000)))
    } else {
        v3
    };
    let v5 = if hd_s(inner.mods) {
        fmul_s(
            v4,
            fadd_s(
                SCALE as int,
                fmul_s(hd_slope_s(inner.mods), fsub_s(hd_pivot_s(inner.mods), a.ar.raw as int)),
            ),
        )
    } else {
        v4
    };
    let v6 = if a.n_sliders > 0 {
        let eds = fmul_s(150_000, int_fix_s(a.n_sliders as int));
        let non300 = fsub_s(int_fix_s(th), int_fix_s(inner.n300 as int));
        let c = match inner.combo {
            Some(c) => c as int,
            None => a.max_combo as int,
        };
        let missing_combo = floor0_s(a.max_combo as int - c);
        let dropped = fmin_s(fmin_s(non300, int_fix_s(missing_combo)), eds);
        let base = fsub_s(SCALE as int, fdiv_s(dropped, eds));
        let nerf = fadd_s(
            fmul_s(fsub_s(SCALE as int, a.slider_factor.raw as int), powi_s(base, 3)),
            a.slider_factor.raw as int,
        );
        fmul_s(v5, nerf)
    } else {
        v5
    };
    let v7 = fmul_s(v6, inner.acc.raw as int);
    fmul_s(v7, od_sq_factor_s(a.od.raw as int))
}

/// Speed skill value.
#[verifier::opaque]
pub open spec fn speed_value_s(inner: OsuPPInner) -> int {
    let a = inner.attributes;
    let th = inner.total_hits as int;
    let v0 = skill_base_s(a.speed_strain.raw as int);
    let lb = len_bonus_s(th);
    let v1 = fmul_s(v0, lb);
    let v2 = if inner.effective_misses > 0 {
        fmul_s(
            v1,
            miss_penalty_s(
                int_fix_s(inner.effective_misses as int),
                a.aim_difficult_strain_count.raw as int,
            ),
        )
    } else {
        v1
    };
    let arf = ar_factor_s(inner.mods, a.ar.raw as int);
    let v3 = fmul_s(v2, fadd_s(SCALE as int, fmul_s(arf, lb)));
    let v4 = if hd_s(inner.mods) {
        fmul_s(
            v3,
            fadd_s(
                SCALE as int,
                fmul_s(hd_slope_s(inner.mods), fsub_s(hd_pivot_s(inner.mods), a.ar.raw as int)),
            ),
        )
    } else {
        v3
    };
    let od_factor = fadd_s(950_000, fdiv_s(fmul_s(a.od.raw as int, a.od.raw as int), 750_000_000));
    let exponent = fdiv_s(fsub_s(14_500_000, fmax_s(a.od.raw as int, 8_000_000)), 2_000_000);
    let acc_factor = powf_s(inner.acc.raw as int, exponent);
    let v5 = fmul_s(v4, fmul_s(od_factor, acc_factor));
    let threshold = fdiv_s(int_fix_s(th), 500_000_000);
    if int_fix_s(inner.n50 as int) >= threshold {
        fmul_s(v5, powf_s(980_000, fsub_s(int_fix_s(inner.n50 as int), threshold)))
    } else {
        v5
    }
}

impl OsuPPInner {
    /// Aim skill value: the cubic strain transform scaled by length,
    /// misses, approach rate, mod bonuses, the slider-drop estimate,
    /// accuracy and overall difficulty.
    #[verifier::rlimit(100)]
    pub fn compute_aim_value(&self) -> (r: Fix)
        ensures
            r.raw == aim_value_s(*self),
    {
        proof {
            reveal(aim_value_s);
        }
        let a = &self.attributes;
        let raw_aim = if td(self.mods) {
            fpow45(a.aim_strain)
        } else {
            a.aim_strain
        };
        let v0 = skill_base(raw_aim);
        let lb = len_bonus(self.total_hits);
        let mut aim = fmul(v0, lb);
        if self.effective_misses > 0 {
            aim = fmul(
                aim,
                calculate_miss_penalty(
                    Fix::from_int(self.effective_misses),
                    a.aim_difficult_strain_count,
                ),
            );
        }
        let arf = ar_factor(self.mods, a.ar);
        if arf.raw > 0 {
            aim = fmul(aim, fadd(Fix::one(), fmul(arf, lb)));
        } else if a.ar.raw < 8_000_000 {
            let buff = if a.ar.raw <= 5_000_000 {
                fadd(
                    Fix { raw: 1_300_000 },
                    fdiv(fsub(Fix { raw: 5_000_000 }, a.ar), Fix { raw: 50_000_000 }),
                )
            } else {
                Fix { raw: 1_300_000 }
            };
            aim = fmul(aim, fmin(fmul(buff, lb), Fix { raw: 1_750_000 }));
        }
        if a.cs.raw > 6_000_000 && rx(self.mods) {
            aim = fmul(
                aim,
                fadd(
                    Fix { raw: 1_030_000 },
                    fdiv(fsub(a.cs, Fix { raw: 6_000_000 }), Fix { raw: 20_000_000 }),
                ),
            );
        }
        if hd(self.mods) {
            let slope = if rx(self.mods) {
                Fix { raw: 50_000 }
            } else {
                Fix { raw: 40_000 }
            };
            let pivot = if rx(self.mods) {
                Fix { raw: 11_000_000 }
            } else {
                Fix { raw: 12_000_000 }
            };
            aim = fmul(aim, fadd(Fix::one(), fmul(slope, fsub(pivot, a.ar))));
        }
        if a.n_sliders > 0 {
            let eds = fmul(Fix { raw: 150_000 }, Fix::from_int(a.n_sliders));
            let non300 = fsub(Fix::from_int(self.total_hits), Fix::from_int(self.n300));
            let c = match self.combo {
                Some(c) => c,
                None => a.max_combo,
            };
            let missing_combo = if a.max_combo >= c {
                a.max_combo - c
            } else {
                0
            };
            let dropped = fmin(fmin(non300, Fix::from_int(missing_combo)), eds);
            let base = fsub(Fix::one(), fdiv(dropped, eds));
            let nerf = fadd(
                fmul(fsub(Fix::one(), a.slider_factor), fpowi(base, 3)),
                a.slider_factor,
            );
            aim = fmul(aim, nerf);
        }
        aim = fmul(aim, self.acc);
        fmul(aim, od_sq_factor(a.od))
    }

    /// Speed skill value: the cubic strain transform scaled by length,
    /// misses, approach rate, mod bonuses, accuracy with an
    /// overall-difficulty-dependent power, and the lowest-tier excess
    /// penalty.
    #[verifier::rlimit(100)]
    pub fn compute_speed_value(&self) -> (r: Fix)
        ensures
            r.raw == speed_value_s(*self),
    {
        proof {
            reveal(speed_value_s);
        }
        let a = &self.attributes;
        let v0 = skill_base(a.speed_strain);
        let lb = len_bonus(self.total_hits);
        let mut speed = fmul(v0, lb);
        if self.effective_misses > 0 {
            speed = fmul(
                speed,
                calculate_miss_penalty(
                    Fix::from_int(self.effective_misses),
                    a.aim_difficult_strain_count,
                ),
            );
        }
        let arf = ar_factor(self.mods, a.ar);
        speed = fmul(speed, fadd(Fix::one(), fmul(arf, lb)));
        if hd(self.mods) {
            let slope = if rx(self.mods) {
                Fix { raw: 50_000 }
            } else {
                Fix { raw: 40_000 }
            };
            let pivot = if rx(self.mods) {
                Fix { raw: 11_000_000 }
            } else {
                Fix { raw: 12_000_000 }
            };
            speed = fmul(speed, fadd(Fix::one(), fmul(slope, fsub(pivot, a.ar))));
        }
        let od_factor = fadd(Fix { raw: 950_000 }, fdiv(fmul(a.od, a.od), Fix { raw: 750_000_000 }));
        let exponent = fdiv(
            fsub(Fix { raw: 14_500_000 }, fmax(a.od, Fix { raw: 8_000_000 })),
            Fix { raw: 2_000_000 },
        );
        let acc_factor = fpowf(self.acc, exponent);
        speed = fmul(speed, fmul(od_factor, acc_factor));
        let threshold = fdiv(Fix::from_int(self.total_hits), Fix { raw: 500_000_000 });
        let n50_fix = Fix::from_int(self.n50);
        if n50_fix.raw >= threshold.raw {
            speed = fmul(speed, fpowf(Fix { raw: 980_000 }, fsub(n50_fix, threshold)));
        }
        speed
    }
}

/// Accuracy skill value: depends on circle count rather than total
/// objects, with an exponential overall-difficulty base and accuracy
/// raised to a high fixed power.
#[verifier::opaque]
pub open spec fn accuracy_value_s(inner: OsuPPInner) -> int {
    let a = inner.attributes;
    let nc = a.n_circles as int;
    let better = if nc > 0 {
        let pos = 6 * (inner.n300 as int) + 2 * (inner.n100 as int) + (inner.n50 as int) + 6 * nc;
        let neg = 6 * (inner.total_hits as int);
        if pos > neg {
            cap((pos - neg) * (SCALE as int) / (6 * nc))
        } else {
            0
        }
    } else {
        0
    };
    let v0 = fmul_s(fmul_s(powf_s(1_521_630, a.od.raw as int), powi_s(better, 24)), 2_830_000);
    let v1 = fmul_s(
        v0,
        fmin_s(powf_s(fdiv_s(int_fix_s(nc), 1_000_000_000), 300_000), 1_150_000),
    );
    let v2 = if hd_s(inner.mods) {
        fmul_s(v1, 1_080_000)
    } else {
        v1
    };
    if fl_s(inner.mods) {
        fmul_s(v2, 1_020_000)
    } else {
        v2
    }
}

/// Visual-obstruction skill value: zero unless its mod is active.
#[verifier::opaque]
pub open spec fn flashlight_value_s(inner: OsuPPInner) -> int {
    if !fl_s(inner.mods) {
        0
    } else {
        let a = inner.attributes;
        let th = inner.total_hits as int;
        let raw_fl = if td_s(inner.mods) {
            fpow45_s(a.flashlight_rating.raw as int)
        } else {
            a.flashlight_rating.raw as int
        };
        let v0 = fmul_s(fmul_s(raw_fl, raw_fl), 25_000_000);
        let v1 = if hd_s(inner.mods) {
            fmul_s(v0, 1_300_000)
        } else {
            v0
        };
        let v2 = if inner.effective_misses > 0 {
            let em_f = int_fix_s(inner.effective_misses as int);
            let ratio = fdiv_s(em_f, int_fix_s(th));
            let decay = powf_s(fsub_s(SCALE as int, powf_s(ratio, 775_000)), powf_s(em_f, 875_000));
            fmul_s(v1, fmul_s(970_000, decay))
        } else {
            v1
        };
        let v3 = if inner.combo is Some && a.max_combo > 0 {
            let c = inner.combo->Some_0 as int;
            fmul_s(
                v2,
                fmin_s(
                    powf_s(fdiv_s(int_fix_s(c), int_fix_s(a.max_combo as int)), 800_000),
                    SCALE as int,
                ),
            )
        } else {
            v2
        };
        let short_term = fmul_s(
            100_000,
            fmin_s(fdiv_s(int_fix_s(th), 200_000_000), SCALE as int),
        );
        let long_term = if th > 200 {
            fmul_s(
                200_000,
                fmin_s(fdiv_s(fsub_s(int_fix_s(th), 200_000_000), 200_000_000), SCALE as int),
            )
        } else {
            0
        };
        let lenf = fadd_s(fadd_s(700_000, short_term), long_term);
        let v4 = fmul_s(v3, lenf);
        let v5 = fmul_s(v4, fadd_s(500_000, fdiv_s(inner.acc.raw as int, 2_000_000)));
        fmul_s(v5, od_sq_factor_s(a.od.raw as int))
    }
}

impl OsuPPInner {
    /// Accuracy skill value.
    #[verifier::rlimit(100)]
    pub fn compute_accuracy_value(&self) -> (r: Fix)
        ensures
            r.raw == accuracy_value_s(*self),
    {
        proof {
            reveal(accuracy_value_s);
        }
        let a = &self.attributes;
        let better: Fix = if a.n_circles > 0 {
            let pos: u128 = 6 * (self.n300 as u128) + 2 * (self.n100 as u128) + (self.n50 as u128)
                + 6 * (a.n_circles as u128);
            let neg: u128 = 6 * (self.total_hits as u128);
            if pos > neg {
                proof {
                    assert((pos - neg) * (SCALE as u128) <= u128::MAX) by (nonlinear_arith)
                        requires
                            0 <= pos - neg <= 24 * (u64::MAX as int),
                    ;
                }
                Fix { raw: sat64(((pos - neg) * (SCALE as u128)) / (6 * (a.n_circles as u128))) }
            } else {
                Fix { raw: 0 }
            }
        } else {
            Fix { raw: 0 }
        };
        let v0 = fmul(
            fmul(fpowf(Fix { raw: 1_521_630 }, a.od), fpowi(better, 24)),
            Fix { raw: 2_830_000 },
        );
        let mut acc_value = fmul(
            v0,
            fmin(
                fpowf(
                    fdiv(Fix::from_int(a.n_circles), Fix { raw: 1_000_000_000 }),
                    Fix { raw: 300_000 },
                ),
                Fix { raw: 1_150_000 },
            ),
        );
        if hd(self.mods) {
            acc_value = fmul(acc_value, Fix { raw: 1_080_000 });
        }
        if fl(self.mods) {
            acc_value = fmul(acc_value, Fix { raw: 1_020_000 });
        }
        acc_value
    }

    /// Visual-obstruction skill value.
    #[verifier::rlimit(100)]
    pub fn compute_flashlight_value(&self) -> (r: Fix)
        ensures
            r.raw == flashlight_value_s(*self),
    {
        proof {
            reveal(flashlight_value_s);
        }
        if !fl(self.mods) {
            return Fix { raw: 0 };
        }
        let a = &self.attributes;
        let raw_fl = if td(self.mods) {
            fpow45(a.flashlight_rating)
        } else {
            a.flashlight_rating
        };
        let mut value = fmul(fmul(raw_fl, raw_fl), Fix { raw: 25_000_000 });
        if hd(self.mods) {
            value = fmul(value, Fix { raw: 1_300_000 });
        }
        if self.effective_misses > 0 {
            let em_f = Fix::from_int(self.effective_misses);
            let ratio = fdiv(em_f, Fix::from_int(self.total_hits));
            let decay = fpowf(
                fsub(Fix::one(), fpowf(ratio, Fix { raw: 775_000 })),
                fpowf(em_f, Fix { raw: 875_000 }),
            );
            value = fmul(value, fmul(Fix { raw: 970_000 }, decay));
        }
        if let Some(c) = self.combo {
            if a.max_combo > 0 {
                value = fmul(
                    value,
                    fmin(
                        fpowf(
                            fdiv(Fix::from_int(c), Fix::from_int(a.max_combo)),
                            Fix { raw: 800_000 },
                        ),
                        Fix::one(),
                    ),
                );
            }
        }
        let th_f = Fix::from_int(self.total_hits);
        let short_term = fmul(
            Fix { raw: 100_000 },
            fmin(fdiv(th_f, Fix { raw: 200_000_000 }), Fix::one()),
        );
        let long_term = if self.total_hits > 200 {
            fmul(
                Fix { raw: 200_000 },
                fmin(
                    fdiv(fsub(th_f, Fix { raw: 200_000_000 }), Fix { raw: 200_000_000 }),
                    Fix::one(),
                ),
            )
        } else {
            Fix { raw: 0 }
        };
        let lenf = fadd(fadd(Fix { raw: 700_000 }, short_term), long_term);
        value = fmul(value, lenf);
        value = fmul(value, fadd(Fix { raw: 500_000 }, fdiv(self.acc, Fix { raw: 2_000_000 })));
        fmul(value, od_sq_factor(a.od))
    }
}

/// Documented outlier corrections: a multiplicative factor per map
/// identifier, applied only under the relax mod, for content the
/// generic model is known to overvalue.
pub open spec fn map_correction_s(map_id: i32) -> int {
    if map_id == 1808605 {
        700_000
    } else if map_id == 1821147 {
        600_000
    } else if map_id == 1849420 {
        600_000
    } else {
        SCALE as int
    }
}

/// Look up the outlier correction factor for a map.
pub fn map_correction(map_id: i32) -> (r: Fix)
    ensures
        r.raw == map_correction_s(map_id),
{
    if map_id == 1808605 {
        Fix { raw: 700_000 }
    } else if map_id == 1821147 {
        Fix { raw: 600_000 }
    } else if map_id == 1849420 {
        Fix { raw: 600_000 }
    } else {
        Fix { raw: SCALE }
    }
}

/// The global multiplier: the base value reduced under the no-fail
/// mod (floored) and the spun-out mod (by spinner proportion).
pub open spec fn multiplier_s(inner: OsuPPInner) -> int {
    let m0 = 1_120_000;
    let m1 = if nf_s(inner.mods) {
        fmul_s(
            m0,
            fmax_s(
                fsub_s(SCALE as int, fmul_s(20_000, int_fix_s(inner.effective_misses as int))),
                900_000,
            ),
        )
    } else {
        m0
    };
    if so_s(inner.mods) {
        fmul_s(
            m1,
            fsub_s(
                SCALE as int,
                powf_s(
                    fdiv_s(
                        int_fix_s(inner.attributes.n_spinners as int),
                        int_fix_s(inner.total_hits as int),
                    ),
                    850_000,
                ),
            ),
        )
    } else {
        m1
    }
}

/// The aim value after the relax stream dampening: reduced when aim
/// trails speed, with a softer reduction at high accuracy.
pub open spec fn damped_aim_s(inner: OsuPPInner, aim0: int, speed0: int) -> int {
    if rx_s(inner.mods) && fdiv_s(aim0, speed0) < SCALE as int {
        let depression = if inner.acc.raw >= 970_000 {
            960_000
        } else {
            870_000
        };
        fmul_s(aim0, depression)
    } else {
        aim0
    }
}

/// The aggregated performance value before outlier correction: a
/// mod-dependent power mean of the component values times the global
/// multiplier.
pub open spec fn power_mean_s(inner: OsuPPInner, aim: int, speed: int, accv: int, flv: int) -> int {
    let mult = multiplier_s(inner);
    if rx_s(inner.mods) {
        fmul_s(
            powf_s(
                fadd_s(
                    fadd_s(powf_s(aim, 1_170_000), powf_s(accv, 1_150_000)),
                    powf_s(flv, 1_100_000),
                ),
                909_091,
            ),
            mult,
        )
    } else if ap_s(inner.mods) {
        fmul_s(
            powf_s(fadd_s(powf_s(accv, 1_150_000), powf_s(flv, 1_100_000)), 909_091),
            mult,
        )
    } else {
        fmul_s(
            powf_s(
                fadd_s(
                    fadd_s(
                        fadd_s(powf_s(aim, 1_100_000), powf_s(speed, 1_100_000)),
                        powf_s(accv, 1_100_000),
                    ),
                    powf_s(flv, 1_100_000),
                ),
                909_091,
            ),
            mult,
        )
    }
}

/// The full performance attributes one evaluation yields: all zero
/// when no object was judged, otherwise the four component values and
/// their aggregation, with the outlier correction under relax.
#[verifier::opaque]
pub open spec fn performance_from_inner_s(inner: OsuPPInner, map_id: i32) -> OsuPerformanceAttributes {
    if inner.total_hits == 0 {
        OsuPerformanceAttributes {
            difficulty: inner.attributes,
            pp_acc: Fix { raw: 0 },
            pp_aim: Fix { raw: 0 },
            pp_flashlight: Fix { raw: 0 },
            pp_speed: Fix { raw: 0 },
            pp: Fix { raw: 0 },
        }
    } else {
        let aim0 = aim_value_s(inner);
        let speed0 = speed_value_s(inner);
        let accv = accuracy_value_s(inner);
        let flv = flashlight_value_s(inner);
        let aim1 = damped_aim_s(inner, aim0, speed0);
        let pp0 = power_mean_s(inner, aim1, speed0, accv, flv);
        let pp1 = if rx_s(inner.mods) {
            fmul_s(pp0, map_correction_s(map_id))
        } else {
            pp0
        };
        OsuPerformanceAttributes {
            difficulty: inner.attributes,
            pp_acc: Fix { raw: accv as u64 },
            pp_aim: Fix { raw: aim1 as u64 },
            pp_flashlight: Fix { raw: flv as u64 },
            pp_speed: Fix { raw: speed0 as u64 },
            pp: Fix { raw: pp1 as u64 },
        }
    }
}

impl OsuPPInner {
    /// Aggregate the component values into the final performance
    /// attributes for the given map identifier.
    #[verifier::rlimit(100)]
    pub fn calculate(self, map_id: i32) -> (r: OsuPerformanceAttributes)
        ensures
            r == performance_from_inner_s(self, map_id),
    {
        proof {
            reveal(performance_from_inner_s);
        }
        if self.total_hits == 0 {
            return OsuPerformanceAttributes {
                difficulty: self.attributes,
                pp_acc: Fix { raw: 0 },
                pp_aim: Fix { raw: 0 },
                pp_flashlight: Fix { raw: 0 },
                pp_speed: Fix { raw: 0 },
                pp: Fix { raw: 0 },
            };
        }
        let mut multiplier = Fix { raw: 1_120_000 };
        if nf(self.mods) {
            multiplier = fmul(
                multiplier,
                fmax(
                    fsub(
                        Fix::one(),
                        fmul(Fix { raw: 20_000 }, Fix::from_int(self.effective_misses)),
                    ),
                    Fix { raw: 900_000 },
                ),
            );
        }
        if so(self.mods) {
            multiplier = fmul(
                multiplier,
                fsub(
                    Fix::one(),
                    fpowf(
                        fdiv(
                            Fix::from_int(self.attributes.n_spinners),
                            Fix::from_int(self.total_hits),
                        ),
                        Fix { raw: 850_000 },
                    ),
                ),
            );
        }
        let mut aim_value = self.compute_aim_value();
        let speed_value = self.compute_speed_value();
        let acc_value = self.compute_accuracy_value();
        let flashlight_value = self.compute_flashlight_value();
        if rx(self.mods) {
            let stream_factor = fdiv(aim_value, speed_value);
            if stream_factor.raw < SCALE {
                let depression = if self.acc.raw >= 970_000 {
                    Fix { raw: 960_000 }
                } else {
                    Fix { raw: 870_000 }
                };
                aim_value = fmul(aim_value, depression);
            }
        }
        let mut pp = if rx(self.mods) {
            fmul(
                fpowf(
                    fadd(
                        fadd(
                            fpowf(aim_value, Fix { raw: 1_170_000 }),
                            fpowf(acc_value, Fix { raw: 1_150_000 }),
                        ),
                        fpowf(flashlight_value, Fix { raw: 1_100_000 }),
                    ),
                    Fix { raw: 909_091 },
                ),
                multiplier,
            )
        } else if ap(self.mods) {
            fmul(
                fpowf(
                    fadd(
                        fpowf(acc_value, Fix { raw: 1_150_000 }),
                        fpowf(flashlight_value, Fix { raw: 1_100_000 }),
                    ),
                    Fix { raw: 909_091 },
                ),
                multiplier,
            )
        } else {
            fmul(
                fpowf(
                    fadd(
                        fadd(
                            fadd(
                                fpowf(aim_value, Fix { raw: 1_100_000 }),
                                fpowf(speed_value, Fix { raw: 1_100_000 }),
                            ),
                            fpowf(acc_value, Fix { raw: 1_100_000 }),
                        ),
                        fpowf(flashlight_value, Fix { raw: 1_100_000 }),
                    ),
                    Fix { raw: 909_091 },
                ),
                multiplier,
            )
        };
        if rx(self.mods) {
            pp = fmul(pp, map_correction(map_id));
        }
        OsuPerformanceAttributes {
            difficulty: self.attributes,
            pp_acc: acc_value,
            pp_aim: aim_value,
            pp_flashlight: flashlight_value,
            pp_speed: speed_value,
            pp,
        }
    }
}

/// Distribute unaccounted objects over the unset tiers: the upper
/// middle tier first, then the lower, then onto the highest tier.
pub open spec fn fill_remaining_s(
    n300o: Option<u64>,
    n100o: Option<u64>,
    n50o: Option<u64>,
    remaining: int,
) -> (int, int, int) {
    if remaining > 0 {
        match n300o {
            Some(v) => if n100o is None {
                (v as int, remaining, opt0_s(n50o))
            } else if n50o is None {
                (v as int, opt0_s(n100o), remaining)
            } else {
                (cap(v as int + remaining), opt0_s(n100o), opt0_s(n50o))
            },
            None => (remaining, opt0_s(n100o), opt0_s(n50o)),
        }
    } else {
        (opt0_s(n300o), opt0_s(n100o), opt0_s(n50o))
    }
}

/// The resolved intermediate state a builder yields for the given
/// attributes: definite tier counts, normalized accuracy, total
/// judged objects and effective misses.
#[verifier::opaque]
pub open spec fn assert_hitresults_s<'a>(
    pp: OsuPP<'a>,
    attributes: OsuDifficultyAttributes,
) -> OsuPPInner {
    let n_objects = n_objects_s(pp.passed_objects, *pp.map);
    let misses = pp.n_misses as int;
    match pp.acc {
        Some(acc) => {
            let n300 = opt0_s(pp.n300);
            let n100 = opt0_s(pp.n100);
            let n50 = opt0_s(pp.n50);
            let total_hits = fmin_s(n300 + n100 + n50 + misses, n_objects);
            OsuPPInner {
                attributes,
                mods: pp.mods,
                acc,
                combo: pp.combo,
                n300: n300 as u64,
                n100: n100 as u64,
                n50: n50 as u64,
                total_hits: total_hits as u64,
                effective_misses: effective_misses_s(
                    attributes,
                    pp.combo,
                    misses,
                    total_hits,
                ) as u64,
            }
        },
        None => {
            let remaining = floor0_s(
                n_objects - opt0_s(pp.n300) - opt0_s(pp.n100) - opt0_s(pp.n50) - misses,
            );
            let trip = fill_remaining_s(pp.n300, pp.n100, pp.n50, remaining);
            let acc = weighted_acc_s(trip.0, trip.1, trip.2, n_objects);
            let total_hits = fmin_s(trip.0 + trip.1 + trip.2 + misses, n_objects);
            OsuPPInner {
                attributes,
                mods: pp.mods,
                acc: Fix { raw: acc as u64 },
                combo: pp.combo,
                n300: trip.0 as u64,
                n100: trip.1 as u64,
                n50: trip.2 as u64,
                total_hits: total_hits as u64,
                effective_misses: effective_misses_s(
                    attributes,
                    pp.combo,
                    misses,
                    total_hits,
                ) as u64,
            }
        },
    }
}

/// The performance attributes a builder's terminal call yields: the
/// supplied difficulty attributes, or the derived ones bounded to the
/// passed objects, run through normalization and aggregation.
pub open spec fn calculate_s<'a>(pp: OsuPP<'a>) -> OsuPerformanceAttributes {
    let attrs = match pp.attributes {
        Some(a) => a,
        None => derived_attrs(*pp.map, n_objects_s(pp.passed_objects, *pp.map)),
    };
    performance_from_inner_s(assert_hitresults_s(pp, attrs), pp.map.beatmap_id)
}

impl<'map> OsuPP<'map> {
    /// Resolve the builder's parameters against the given difficulty
    /// attributes into definite hit counts, accuracy, total judged
    /// objects and effective misses.
    #[verifier::rlimit(100)]
    pub fn assert_hitresults(self, attributes: OsuDifficultyAttributes) -> (r: OsuPPInner)
        ensures
            r == assert_hitresults_s(self, attributes),
    {
        proof {
            reveal(assert_hitresults_s);
        }
        let n_objects: u64 = match self.passed_objects {
            Some(p) => p,
            None => self.map.snapshots.len() as u64,
        };
        let misses = self.n_misses;
        if let Some(acc) = self.acc {
            let n300 = match self.n300 {
                Some(v) => v,
                None => 0,
            };
            let n100 = match self.n100 {
                Some(v) => v,
                None => 0,
            };
            let n50 = match self.n50 {
                Some(v) => v,
                None => 0,
            };
            let sum: u128 = (n300 as u128) + (n100 as u128) + (n50 as u128) + (misses as u128);
            let total_hits: u64 = if sum <= n_objects as u128 {
                sum as u64
            } else {
                n_objects
            };
            let effective_misses = calculate_effective_misses(
                &attributes,
                self.combo,
                misses,
                total_hits,
            );
            OsuPPInner {
                attributes,
                mods: self.mods,
                acc,
                combo: self.combo,
                n300,
                n100,
                n50,
                total_hits,
                effective_misses,
            }
        } else {
            let o300 = match self.n300 {
                Some(v) => v,
                None => 0,
            };
            let o100 = match self.n100 {
                Some(v) => v,
                None => 0,
            };
            let o50 = match self.n50 {
                Some(v) => v,
                None => 0,
            };
            let sum_set: u128 = (o300 as u128) + (o100 as u128) + (o50 as u128) + (misses as u128);
            let remaining: u64 = if (n_objects as u128) >= sum_set {
                (n_objects as u128 - sum_set) as u64
            } else {
                0
            };
            let mut n300 = o300;
            let mut n100 = o100;
            let mut n50 = o50;
            if remaining > 0 {
                if self.n300.is_some() {
                    if self.n100.is_none() {
                        n100 = remaining;
                    } else if self.n50.is_none() {
                        n50 = remaining;
                    } else {
                        n300 = n300.checked_add(remaining).unwrap_or(u64::MAX);
                    }
                } else {
                    n300 = remaining;
                }
            }
            let acc = weighted_acc(n300, n100, n50, n_objects);
            let sum: u128 = (n300 as u128) + (n100 as u128) + (n50 as u128) + (misses as u128);
            let total_hits: u64 = if sum <= n_objects as u128 {
                sum as u64
            } else {
                n_objects
            };
            let effective_misses = calculate_effective_misses(
                &attributes,
                self.combo,
                misses,
                total_hits,
            );
            OsuPPInner {
                attributes,
                mods: self.mods,
                acc: Fix { raw: acc },
                combo: self.combo,
                n300,
                n100,
                n50,
                total_hits,
                effective_misses,
            }
        }
    }

    /// Calculate all performance related values.
    pub fn calculate(self) -> (r: OsuPerformanceAttributes)
        ensures
            r == calculate_s(self),
    {
        let passed: u64 = match self.passed_objects {
            Some(p) => p,
            None => self.map.snapshots.len() as u64,
        };
        let attributes = match self.attributes {
            Some(a) => a,
            None => self.map.prefix_attrs(passed),
        };
        let id = self.map.beatmap_id;
        let inner = self.assert_hitresults(attributes);
        inner.calculate(id)
    }
}

/// Saturate a wide intermediate count into a machine word.
fn sat64(x: u128) -> (r: u64)
    ensures
        r as int == cap(x as int),
{
    if x > u64::MAX as u128 {
        u64::MAX
    } else {
        x as u64
    }
}

} // verus!
