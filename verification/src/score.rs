//! Score state snapshots: cumulative hit results and combo so far.

use vstd::prelude::*;

verus! {

/// Aggregation for a score's current state i.e. what was the
/// maximum combo so far and what are the current hitresults.
///
/// Note that only fruits and droplets count toward combo; tiny
/// droplets never do, so callers only report misses of that tier.
#[derive(Clone, Debug, PartialEq, Eq, Structural)]
pub struct CatchScoreState {
    /// Maximum combo that the score has had so far.
    /// **Not** the maximum possible combo of the map so far.
    pub max_combo: u64,
    /// Amount of current fruits (highest tier hits).
    pub n_fruits: u64,
    /// Amount of current droplets (middle tier hits).
    pub n_droplets: u64,
    /// Amount of current tiny droplets (lowest tier hits).
    pub n_tiny_droplets: u64,
    /// Amount of current tiny droplet misses.
    pub n_tiny_droplet_misses: u64,
    /// Amount of current misses (fruits and droplets).
    pub misses: u64,
}

impl Default for CatchScoreState {
    /// The empty state: no combo, no hit results.
    fn default() -> (r: Self)
        ensures
            r == CatchScoreState::empty(),
    {
        CatchScoreState {
            max_combo: 0,
            n_fruits: 0,
            n_droplets: 0,
            n_tiny_droplets: 0,
            n_tiny_droplet_misses: 0,
            misses: 0,
        }
    }
}

impl CatchScoreState {
    /// The all-zero state.
    pub open spec fn empty() -> CatchScoreState {
        CatchScoreState {
            max_combo: 0,
            n_fruits: 0,
            n_droplets: 0,
            n_tiny_droplets: 0,
            n_tiny_droplet_misses: 0,
            misses: 0,
        }
    }

    /// Create a new empty score state.
    pub fn new() -> (r: Self)
        ensures
            r == CatchScoreState::empty(),
    {
        Self::default()
    }
}

/// Bulk parameter form for the performance calculator: combo plus all
/// tier counts and misses at once.
#[derive(Clone, Debug, PartialEq, Eq, Structural)]
pub struct OsuScoreState {
    /// Maximum combo the score has had so far.
    pub max_combo: u64,
    /// Count of highest-tier hits.
    pub n300: u64,
    /// Count of upper middle tier hits.
    pub n100: u64,
    /// Count of lower middle tier hits.
    pub n50: u64,
    /// Count of misses.
    pub misses: u64,
}

} // verus!
