//! Mod bitmask predicates.
//!
//! Mods are handed to the calculator as a bitmask; the pipeline only
//! needs boolean predicates for the handful of mods that change the
//! performance value.

use vstd::prelude::*;

verus! {

/// Bit of the no-fail mod.
pub const MOD_NF: u32 = 1;

/// Bit of the touch-device mod.
pub const MOD_TD: u32 = 4;

/// Bit of the hidden (visual-cue removing) mod.
pub const MOD_HD: u32 = 8;

/// Bit of the relax (assistive) mod.
pub const MOD_RX: u32 = 128;

/// Bit of the flashlight (visual-obstruction) mod.
pub const MOD_FL: u32 = 1024;

/// Bit of the spun-out (auto-assist) mod.
pub const MOD_SO: u32 = 4096;

/// Bit of the autopilot mod.
pub const MOD_AP: u32 = 8192;

/// The no-fail mod is active.
pub open spec fn nf_s(mods: u32) -> bool {
    mods & MOD_NF != 0
}

/// The touch-device mod is active.
pub open spec fn td_s(mods: u32) -> bool {
    mods & MOD_TD != 0
}

/// The hidden mod is active.
pub open spec fn hd_s(mods: u32) -> bool {
    mods & MOD_HD != 0
}

/// The relax mod is active.
pub open spec fn rx_s(mods: u32) -> bool {
    mods & MOD_RX != 0
}

/// The flashlight mod is active.
pub open spec fn fl_s(mods: u32) -> bool {
    mods & MOD_FL != 0
}

/// The spun-out mod is active.
pub open spec fn so_s(mods: u32) -> bool {
    mods & MOD_SO != 0
}

/// The autopilot mod is active.
pub open spec fn ap_s(mods: u32) -> bool {
    mods & MOD_AP != 0
}

/// Whether the no-fail mod is active.
pub fn nf(mods: u32) -> (r: bool)
    ensures
        r == nf_s(mods),
{
    mods & MOD_NF != 0
}

/// Whether the touch-device mod is active.
pub fn td(mods: u32) -> (r: bool)
    ensures
        r == td_s(mods),
{
    mods & MOD_TD != 0
}

/// Whether the hidden mod is active.
pub fn hd(mods: u32) -> (r: bool)
    ensures
        r == hd_s(mods),
{
    mods & MOD_HD != 0
}

/// Whether the relax mod is active.
pub fn rx(mods: u32) -> (r: bool)
    ensures
        r == rx_s(mods),
{
    mods & MOD_RX != 0
}

/// Whether the flashlight mod is active.
pub fn fl(mods: u32) -> (r: bool)
    ensures
        r == fl_s(mods),
{
    mods & MOD_FL != 0
}

/// Whether the spun-out mod is active.
pub fn so(mods: u32) -> (r: bool)
    ensures
        r == so_s(mods),
{
    mods & MOD_SO != 0
}

/// Whether the autopilot mod is active.
pub fn ap(mods: u32) -> (r: bool)
    ensures
        r == ap_s(mods),
{
    mods & MOD_AP != 0
}

} // verus!
