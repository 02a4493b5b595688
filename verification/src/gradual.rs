//! Gradual performance evaluation: recompute the performance value
//! after each judged hit object without re-deriving difficulty.
//!
//! The evaluator holds a resumable difficulty-attribute sequence (a
//! cursor over the map's precomputed snapshots) and a performance
//! builder template. Advancing by `n` pulls up to `n` snapshots,
//! keeps the last, and re-runs the one-shot evaluation at the
//! sequence's cursor with the caller's score state.

use vstd::prelude::*;
use crate::attributes::{Beatmap, OsuDifficultyAttributes, OsuPerformanceAttributes};
use crate::fixed::fmin_s;
use crate::pp::{calculate_s, OsuPP};
use crate::score::{CatchScoreState, OsuScoreState};

verus! {

/// Resumable difficulty-attribute sequence over a map: yields one
/// snapshot per processed object and exposes its cursor.
#[derive(Clone, Copy, Debug)]
pub struct CatchGradualDifficultyAttributes<'map> {
    /// The map whose snapshots are walked.
    pub map: &'map Beatmap,
    /// Number of snapshots yielded so far.
    pub idx: usize,
}

impl<'map> CatchGradualDifficultyAttributes<'map> {
    /// A fresh sequence at the start of the map.
    pub fn new(map: &'map Beatmap) -> (r: Self)
        ensures
            r.map == map,
            r.idx == 0,
    {
        Self { map, idx: 0 }
    }

    /// Yield the next snapshot, or nothing once the map is walked.
    pub fn next(&mut self) -> (r: Option<OsuDifficultyAttributes>)
        ensures
            old(self).map == final(self).map,
            old(self).idx < old(self).map.snapshots@.len() ==> {
                &&& final(self).idx == old(self).idx + 1
                &&& r == Some(old(self).map.snapshots@[old(self).idx as int])
            },
            old(self).idx >= old(self).map.snapshots@.len() ==> {
                &&& final(self).idx == old(self).idx
                &&& r is None
            },
    {
        if self.idx < self.map.snapshots.len() {
            let a = self.map.snapshots[self.idx];
            self.idx = self.idx + 1;
            Some(a)
        } else {
            None
        }
    }
}

/// The bulk score-state assignment the evaluator hands the builder:
/// fruits are the highest tier, droplets the upper middle tier, tiny
/// droplets the lower middle tier. Tiny droplet misses belong to the
/// tier that never counts toward combo and do not enter the weighted
/// accuracy of this pipeline.
pub open spec fn state_to_osu_s(state: CatchScoreState) -> OsuScoreState {
    OsuScoreState {
        max_combo: state.max_combo,
        n300: state.n_fruits,
        n100: state.n_droplets,
        n50: state.n_tiny_droplets,
        misses: state.misses,
    }
}

/// The builder template a gradual evaluator is constructed with.
pub open spec fn gradual_template_s<'a>(map: &'a Beatmap, mods: u32) -> OsuPP<'a> {
    OsuPP {
        map,
        attributes: None,
        mods,
        acc: None,
        combo: None,
        n300: None,
        n100: None,
        n50: None,
        n_misses: 0,
        passed_objects: Some(0),
        clock_rate: None,
    }
}

/// The one-shot evaluation a gradual step performs: the template with
/// the snapshot at `target` objects, the caller's score state, and
/// `target` passed objects.
pub open spec fn gradual_result_s<'a>(
    perf: OsuPP<'a>,
    map: Beatmap,
    state: CatchScoreState,
    target: int,
) -> OsuPerformanceAttributes {
    let d = map.snapshots@[target - 1];
    let osu = state_to_osu_s(state);
    calculate_s(
        OsuPP {
            attributes: Some(d),
            combo: Some(osu.max_combo),
            n300: Some(osu.n300),
            n100: Some(osu.n100),
            n50: Some(osu.n50),
            n_misses: osu.misses,
            passed_objects: Some(target as u64),
            ..perf
        },
    )
}

/// Gradually calculate the performance attributes of a map.
///
/// After each hit object, `process_next_object` returns the resulting
/// current performance attributes; `process_next_n_objects` processes
/// several objects at once. Both take the score state reached so far
/// and return nothing once every object has been processed.
#[derive(Clone, Copy, Debug)]
pub struct CatchGradualPerformanceAttributes<'map> {
    /// Cursor over the map's difficulty snapshots.
    pub difficulty: CatchGradualDifficultyAttributes<'map>,
    /// Builder template re-run at every step.
    pub performance: OsuPP<'map>,
}

impl<'map> CatchGradualPerformanceAttributes<'map> {
    /// Create a new gradual performance calculator for a map under
    /// the given mods.
    pub fn new(map: &'map Beatmap, mods: u32) -> (r: Self)
        ensures
            r.difficulty.map == map,
            r.difficulty.idx == 0,
            r.performance == gradual_template_s(map, mods),
    {
        let difficulty = CatchGradualDifficultyAttributes::new(map);
        let performance = OsuPP::new(map).mods(mods).passed_objects(0);
        Self { difficulty, performance }
    }

    /// Process the next hit object and calculate the performance
    /// attributes for the resulting score state.
    pub fn process_next_object(&mut self, state: CatchScoreState) -> (r: Option<
        OsuPerformanceAttributes,
    >)
        ensures
            ({
                let len = old(self).difficulty.map.snapshots@.len() as int;
                let start = old(self).difficulty.idx as int;
                let target = fmin_s(start + 1, len);
                &&& final(self).difficulty.map == old(self).difficulty.map
                &&& final(self).performance == old(self).performance
                &&& (start >= len ==> final(self).difficulty.idx == old(self).difficulty.idx
                    && r is None)
                &&& (start < len ==> final(self).difficulty.idx as int == target && r == Some(
                    gradual_result_s(
                        old(self).performance,
                        *old(self).difficulty.map,
                        state,
                        target,
                    ),
                ))
            }),
    {
        self.process_next_n_objects(state, 1)
    }

    /// Same as `process_next_object` but processes `n` objects at
    /// once.
    ///
    /// If `n` is zero it is taken as one; if `n` exceeds the number of
    /// remaining objects it is taken as the number remaining.
    #[verifier::rlimit(100)]
    pub fn process_next_n_objects(&mut self, state: CatchScoreState, n: usize) -> (r: Option<
        OsuPerformanceAttributes,
    >)
        ensures
            ({
                let len = old(self).difficulty.map.snapshots@.len() as int;
                let start = old(self).difficulty.idx as int;
                let steps: int = if n == 0 {
                    1
                } else {
                    n as int
                };
                let target = fmin_s(start + steps, len);
                &&& final(self).difficulty.map == old(self).difficulty.map
                &&& final(self).performance == old(self).performance
                &&& (start >= len ==> final(self).difficulty.idx == old(self).difficulty.idx
                    && r is None)
                &&& (start < len ==> final(self).difficulty.idx as int == target && r == Some(
                    gradual_result_s(
                        old(self).performance,
                        *old(self).difficulty.map,
                        state,
                        target,
                    ),
                ))
            }),
    {
        let steps: usize = if n == 0 {
            1
        } else {
            n
        };
        let len = self.difficulty.map.snapshots.len();
        let ghost start = self.difficulty.idx as int;
        let mut latest: Option<OsuDifficultyAttributes> = None;
        let mut i: usize = 0;
        while i < steps && self.difficulty.idx < len
            invariant
                steps >= 1,
                i <= steps,
                len == self.difficulty.map.snapshots@.len(),
                self.difficulty.map == old(self).difficulty.map,
                self.performance == old(self).performance,
                start == old(self).difficulty.idx as int,
                self.difficulty.idx as int == start + i,
                start < len ==> self.difficulty.idx <= len,
                i > 0 ==> start < len,
                i > 0 ==> latest == Some(
                    self.difficulty.map.snapshots@[self.difficulty.idx - 1],
                ),
                i == 0 ==> latest is None,
            decreases steps - i,
        {
            match self.difficulty.next() {
                Some(a) => {
                    latest = Some(a);
                },
                None => {
                },
            }
            i = i + 1;
        }
        match latest {
            None => None,
            Some(d) => {
                let target = self.difficulty.idx;
                let evaluated = self
                    .performance
                    .attributes(d)
                    .state(
                        OsuScoreState {
                            max_combo: state.max_combo,
                            n300: state.n_fruits,
                            n100: state.n_droplets,
                            n50: state.n_tiny_droplets,
                            misses: state.misses,
                        },
                    )
                    .passed_objects(target as u64)
                    .calculate();
                Some(evaluated)
            },
        }
    }
}

} // verus!
