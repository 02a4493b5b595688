//! Performance-value calculator for rhythm-game plays.
//!
//! The crate computes a scalar performance value (and its per-skill
//! breakdown) for a play result on a beatmap, from the map's precomputed
//! difficulty attributes, the active mods and the play's hit statistics.
//! All real-valued quantities are held in a saturating fixed-point
//! representation (`fixed::Fix`) so that every stage of the pipeline is
//! deterministic and fully specified.

pub mod fixed;
pub mod mods;
pub mod attributes;
pub mod score;
pub mod effective;
pub mod pp;
pub mod gradual;
pub mod laws;
