//! Difficulty and performance attribute bundles, and the beatmap value
//! the calculator reads.
//!
//! Difficulty attributes are produced by an external difficulty
//! derivation, one snapshot per processed hit object; the calculator
//! consumes them as plain values and never re-derives them. A
//! `Beatmap` therefore carries, besides its identifier, the full
//! snapshot sequence for the map under the mods it was derived with.

use vstd::prelude::*;
use crate::fixed::Fix;

verus! {

/// Per-skill strain ratings and map metadata, as delivered by the
/// external difficulty derivation for one prefix of the map.
#[derive(Clone, Copy, Debug, PartialEq, Eq, Structural)]
pub struct OsuDifficultyAttributes {
    /// Raw aim strain rating.
    pub aim_strain: Fix,
    /// Raw speed strain rating.
    pub speed_strain: Fix,
    /// Raw visual-obstruction (flashlight) rating.
    pub flashlight_rating: Fix,
    /// Fraction of a slider's value retained on a broken completion.
    pub slider_factor: Fix,
    /// Weighted count of relatively difficult aim strain sections.
    pub aim_difficult_strain_count: Fix,
    /// Approach-rate equivalent after mods.
    pub ar: Fix,
    /// Overall-difficulty equivalent after mods.
    pub od: Fix,
    /// Circle-size equivalent after mods.
    pub cs: Fix,
    /// Number of circle objects.
    pub n_circles: u64,
    /// Number of slider objects.
    pub n_sliders: u64,
    /// Number of spinner objects.
    pub n_spinners: u64,
    /// Theoretical maximum combo of the prefix.
    pub max_combo: u64,
}

impl Default for OsuDifficultyAttributes {
    /// The all-zero attribute bundle of an empty prefix.
    fn default() -> (r: Self)
        ensures
            r == OsuDifficultyAttributes::zeroed(),
    {
        OsuDifficultyAttributes {
            aim_strain: Fix { raw: 0 },
            speed_strain: Fix { raw: 0 },
            flashlight_rating: Fix { raw: 0 },
            slider_factor: Fix { raw: 0 },
            aim_difficult_strain_count: Fix { raw: 0 },
            ar: Fix { raw: 0 },
            od: Fix { raw: 0 },
            cs: Fix { raw: 0 },
            n_circles: 0,
            n_sliders: 0,
            n_spinners: 0,
            max_combo: 0,
        }
    }
}

impl OsuDifficultyAttributes {
    /// The all-zero attribute bundle.
    pub open spec fn zeroed() -> OsuDifficultyAttributes {
        OsuDifficultyAttributes {
            aim_strain: Fix { raw: 0 },
            speed_strain: Fix { raw: 0 },
            flashlight_rating: Fix { raw: 0 },
            slider_factor: Fix { raw: 0 },
            aim_difficult_strain_count: Fix { raw: 0 },
            ar: Fix { raw: 0 },
            od: Fix { raw: 0 },
            cs: Fix { raw: 0 },
            n_circles: 0,
            n_sliders: 0,
            n_spinners: 0,
            max_combo: 0,
        }
    }
}

/// The final performance value together with the component values it
/// was aggregated from and the difficulty attributes that were used.
#[derive(Clone, Debug, PartialEq, Eq, Structural)]
pub struct OsuPerformanceAttributes {
    /// Difficulty attributes the evaluation used.
    pub difficulty: OsuDifficultyAttributes,
    /// Accuracy component.
    pub pp_acc: Fix,
    /// Aim component.
    pub pp_aim: Fix,
    /// Visual-obstruction component.
    pub pp_flashlight: Fix,
    /// Speed component.
    pub pp_speed: Fix,
    /// Aggregated performance value.
    pub pp: Fix,
}

/// The map value the calculator reads: an identifier and the
/// difficulty-attribute snapshot after each hit object, precomputed by
/// the external difficulty derivation for one map-mod combination.
#[derive(Clone, Debug)]
pub struct Beatmap {
    /// Identifier of the map, used by the outlier correction table.
    pub beatmap_id: i32,
    /// Snapshot `i` holds the attributes after `i + 1` processed
    /// objects; the map has `snapshots.len()` hit objects.
    pub snapshots: Vec<OsuDifficultyAttributes>,
}

impl Default for Beatmap {
    /// A map with no hit objects.
    fn default() -> (r: Self)
        ensures
            r.beatmap_id == 0,
            r.snapshots@ =~= Seq::<OsuDifficultyAttributes>::empty(),
    {
        Beatmap { beatmap_id: 0, snapshots: Vec::new() }
    }
}

/// The difficulty attributes the external derivation reports for the
/// prefix of `map` with `passed` objects: the snapshot of the last
/// processed object, or the all-zero bundle for an empty prefix.
pub open spec fn derived_attrs(map: Beatmap, passed: int) -> OsuDifficultyAttributes {
    let idx = if passed <= map.snapshots@.len() {
        passed
    } else {
        map.snapshots@.len() as int
    };
    if idx <= 0 {
        OsuDifficultyAttributes::zeroed()
    } else {
        map.snapshots@[idx - 1]
    }
}

impl Beatmap {
    /// Look up the snapshot for a prefix of `passed` objects, clamped
    /// to the map's length; an empty prefix yields the zero bundle.
    pub fn prefix_attrs(&self, passed: u64) -> (r: OsuDifficultyAttributes)
        ensures
            r == derived_attrs(*self, passed as int),
    {
        let len = self.snapshots.len();
        let idx = if passed <= len as u64 {
            passed as usize
        } else {
            len
        };
        if idx == 0 {
            OsuDifficultyAttributes::default()
        } else {
            self.snapshots[idx - 1]
        }
    }
}

/// Source of difficulty attributes for a performance evaluation: a
/// previous difficulty or performance result can hand its attributes
/// back in so they are not re-derived.
pub trait OsuAttributeProvider: Sized {
    /// The attributes this value provides, if any.
    spec fn provided(self) -> Option<OsuDifficultyAttributes>;

    /// Extract the attributes.
    fn attributes(self) -> (r: Option<OsuDifficultyAttributes>)
        ensures
            r == self.provided(),
    ;
}

impl OsuAttributeProvider for OsuDifficultyAttributes {
    open spec fn provided(self) -> Option<OsuDifficultyAttributes> {
        Some(self)
    }

    fn attributes(self) -> (r: Option<OsuDifficultyAttributes>) {
        Some(self)
    }
}

impl OsuAttributeProvider for OsuPerformanceAttributes {
    open spec fn provided(self) -> Option<OsuDifficultyAttributes> {
        Some(self.difficulty)
    }

    fn attributes(self) -> (r: Option<OsuDifficultyAttributes>) {
        Some(self.difficulty)
    }
}

/// Difficulty attributes of any supported game mode.
#[derive(Clone, Debug, PartialEq, Eq, Structural)]
pub enum DifficultyAttributes {
    /// Attributes of the standard mode.
    Osu(OsuDifficultyAttributes),
}

/// Performance attributes of any supported game mode.
#[derive(Clone, Debug, PartialEq, Eq, Structural)]
pub enum PerformanceAttributes {
    /// Attributes of the standard mode.
    Osu(OsuPerformanceAttributes),
}

impl OsuAttributeProvider for DifficultyAttributes {
    open spec fn provided(self) -> Option<OsuDifficultyAttributes> {
        match self {
            DifficultyAttributes::Osu(attributes) => Some(attributes),
        }
    }

    fn attributes(self) -> (r: Option<OsuDifficultyAttributes>) {
        match self {
            DifficultyAttributes::Osu(attributes) => Some(attributes),
        }
    }
}

impl OsuAttributeProvider for PerformanceAttributes {
    open spec fn provided(self) -> Option<OsuDifficultyAttributes> {
        match self {
            PerformanceAttributes::Osu(attributes) => Some(attributes.difficulty),
        }
    }

    fn attributes(self) -> (r: Option<OsuDifficultyAttributes>) {
        match self {
            PerformanceAttributes::Osu(attributes) => Some(attributes.difficulty),
        }
    }
}

} // verus!
