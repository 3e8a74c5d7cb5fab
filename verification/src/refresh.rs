//! Refresh modes and what each asks of the two RAM planes.
//!
//! The controller holds a black/white plane and a red plane. A fast refresh
//! compares the two to find the pixels that change, so the red plane has to
//! mirror the black/white plane between fast refreshes of a panel that
//! shows no red.

use vstd::prelude::*;

use crate::command::{CTRL1_BYPASS_RED, CTRL1_NORMAL};
use crate::config::Config;

verus! {

/// How the panel is refreshed.
#[derive(Clone, Copy, Debug, PartialEq, Eq, Structural)]
pub enum RefreshMode {
    /// The controller's built-in waveform: slowest, best quality.
    Full,
    /// A loaded two-phase waveform: medium speed.
    Partial,
    /// A loaded single-phase waveform: fastest, may leave ghosts.
    Fast,
}

impl Default for RefreshMode {
    fn default() -> (r: Self)
        ensures
            r == RefreshMode::Full,
    {
        RefreshMode::Full
    }
}

/// What the controller keeps while it sleeps.
#[derive(Clone, Copy, Debug, PartialEq, Eq, Structural)]
pub enum DeepSleepMode {
    /// Nothing: the RAM content is lost.
    Normal,
    /// The RAM content.
    PreserveRam,
    /// The RAM content and the analog circuit.
    PreserveRamAndAnalog,
}

impl Default for DeepSleepMode {
    fn default() -> (r: Self)
        ensures
            r == DeepSleepMode::PreserveRam,
    {
        DeepSleepMode::PreserveRam
    }
}

impl DeepSleepMode {
    /// The mode byte of the deep sleep command.
    pub open spec fn spec_selector(self) -> u8 {
        match self {
            DeepSleepMode::Normal => 0x00,
            DeepSleepMode::PreserveRam => 0x01,
            DeepSleepMode::PreserveRamAndAnalog => 0x03,
        }
    }

    /// The mode byte of the deep sleep command.
    pub fn selector(self) -> (b: u8)
        ensures
            b == self.spec_selector(),
    {
        match self {
            DeepSleepMode::Normal => 0x00,
            DeepSleepMode::PreserveRam => 0x01,
            DeepSleepMode::PreserveRamAndAnalog => 0x03,
        }
    }
}

/// Whether a red buffer asks for red pixels: it holds a byte that is not
/// zero. An empty buffer and one of zeros ask for none.
pub open spec fn explicit_red(red: Seq<u8>) -> bool {
    exists|i: int| 0 <= i < red.len() && red[i] != 0
}

/// What an update does with the red plane.
#[derive(Clone, Copy, Debug, PartialEq, Eq, Structural)]
pub enum RedPlan {
    /// Write the caller's red buffer and refresh with both planes.
    Explicit,
    /// Write the black/white buffer to the red plane and refresh without
    /// the red plane.
    MirrorBypass,
    /// Write the black/white buffer to the red plane, refresh with both
    /// planes, and write it to the red plane again after the refresh.
    MirrorResync,
}

impl RedPlan {
    /// The plan of an update in `mode` with the red buffer `red`.
    pub open spec fn of(mode: RefreshMode, red: Seq<u8>) -> RedPlan {
        if explicit_red(red) {
            RedPlan::Explicit
        } else if mode == RefreshMode::Fast {
            RedPlan::MirrorResync
        } else {
            RedPlan::MirrorBypass
        }
    }

    /// Whether the refresh reads both planes.
    pub open spec fn spec_planes_active(self) -> bool {
        self != RedPlan::MirrorBypass
    }

    /// Whether the red plane is written again after the refresh.
    pub open spec fn spec_resync(self) -> bool {
        self == RedPlan::MirrorResync
    }

    /// The plane selection byte of the refresh.
    pub open spec fn spec_plane_control(self) -> u8 {
        plane_control(self.spec_planes_active())
    }

    /// Chooses the plan of an update in `mode` with the red buffer `red`.
    pub fn plan(mode: RefreshMode, red: &[u8]) -> (plan: RedPlan)
        ensures
            plan == RedPlan::of(mode, red@),
    {
        if has_nonzero(red) {
            RedPlan::Explicit
        } else {
            match mode {
                RefreshMode::Fast => RedPlan::MirrorResync,
                _ => RedPlan::MirrorBypass,
            }
        }
    }

    /// Whether the refresh reads both planes.
    #[verifier::when_used_as_spec(spec_planes_active)]
    pub fn planes_active(self) -> (b: bool)
        ensures
            b == self.spec_planes_active(),
    {
        match self {
            RedPlan::MirrorBypass => false,
            _ => true,
        }
    }

    /// Whether the red plane is written again after the refresh.
    #[verifier::when_used_as_spec(spec_resync)]
    pub fn resync(self) -> (b: bool)
        ensures
            b == self.spec_resync(),
    {
        match self {
            RedPlan::MirrorResync => true,
            _ => false,
        }
    }
}

/// Whether `bytes` holds a byte that is not zero.
pub fn has_nonzero(bytes: &[u8]) -> (found: bool)
    ensures
        found == explicit_red(bytes@),
{
    let mut i: usize = 0;
    while i < bytes.len()
        invariant
            i <= bytes.len(),
            forall|j: int| 0 <= j < i ==> bytes@[j] == 0,
        decreases bytes.len() - i,
    {
        if bytes[i] != 0 {
            return true;
        }
        i = i + 1;
    }
    false
}

/// The plane selection byte: both planes, or the red plane read as zero.
pub open spec fn plane_control(planes_active: bool) -> u8 {
    if planes_active {
        CTRL1_NORMAL
    } else {
        CTRL1_BYPASS_RED
    }
}

/// The update sequence byte of a refresh: the byte of the mode, with the
/// power-on bits while the panel is off and the power-off bits where the
/// refresh is to power it down.
pub open spec fn spec_update_sequence(
    config: Config,
    mode: RefreshMode,
    powered: bool,
    turn_off: bool,
) -> u8 {
    let base = match mode {
        RefreshMode::Full => config.display_update_ctrl2_full,
        RefreshMode::Partial => config.display_update_ctrl2_partial,
        RefreshMode::Fast => config.display_update_ctrl2_fast,
    };
    let started = if powered {
        base
    } else {
        base | config.display_update_power_on
    };
    if turn_off {
        started | config.display_update_power_off
    } else {
        started
    }
}

/// Computes the update sequence byte of a refresh.
pub fn update_sequence(config: &Config, mode: RefreshMode, powered: bool, turn_off: bool) -> (b: u8)
    ensures
        b == spec_update_sequence(*config, mode, powered, turn_off),
{
    let base = match mode {
        RefreshMode::Full => config.display_update_ctrl2_full,
        RefreshMode::Partial => config.display_update_ctrl2_partial,
        RefreshMode::Fast => config.display_update_ctrl2_fast,
    };
    let started = if powered {
        base
    } else {
        base | config.display_update_power_on
    };
    if turn_off {
        started | config.display_update_power_off
    } else {
        started
    }
}

} // verus!
