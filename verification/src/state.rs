//! System state: the observed power mode and connectivity, derived from
//! the two raw status strings the surrounding process reads each cycle.

use vstd::prelude::*;

use crate::text::{str_eq, trim_spec, trim_str};

verus! {

/// The OS-reported platform power profile.
#[derive(Clone, Copy, Debug, PartialEq, Eq, Structural)]
pub enum PowerMode {
    Quiet,
    Balanced,
    Performance,
}

/// A status source could not be interpreted: either it was unreadable
/// (`Unavailable` names the source) or the power-mode source held an
/// unrecognized value (`UnknownPowerMode` carries it verbatim).
#[derive(Debug)]
pub enum SystemReadError {
    UnknownPowerMode(String),
    Unavailable(String),
}

/// The mode a trimmed power-profile string denotes, if any.
pub open spec fn mode_of(t: Seq<char>) -> Option<PowerMode> {
    if t == "quiet"@ {
        Some(PowerMode::Quiet)
    } else if t == "balanced"@ {
        Some(PowerMode::Balanced)
    } else if t == "performance"@ {
        Some(PowerMode::Performance)
    } else {
        None
    }
}

/// Whether a trimmed online-indicator string denotes AC power.
pub open spec fn connected_of(t: Seq<char>) -> bool {
    t == "1"@
}

/// Maps the raw platform-profile string to a power mode.  Exactly the
/// three recognized keywords (after trimming) succeed; anything else is
/// an `UnknownPowerMode` error carrying the raw string.
pub fn parse_power_mode(raw: &str) -> (r: Result<PowerMode, SystemReadError>)
    ensures
        match r {
            Ok(m) => mode_of(trim_spec(raw@)) == Some(m),
            Err(e) => mode_of(trim_spec(raw@)) is None && (e matches SystemReadError::UnknownPowerMode(v)
                && v@ == raw@),
        },
{
    let t = trim_str(raw);
    if str_eq(t, "quiet") {
        Ok(PowerMode::Quiet)
    } else if str_eq(t, "balanced") {
        Ok(PowerMode::Balanced)
    } else if str_eq(t, "performance") {
        Ok(PowerMode::Performance)
    } else {
        Err(SystemReadError::UnknownPowerMode(raw.to_owned()))
    }
}

/// Maps the raw online-indicator string to a connectivity flag: `"1"`
/// after trimming means AC power, anything else means battery.
pub fn parse_connected(raw: &str) -> (b: bool)
    ensures
        b == connected_of(trim_spec(raw@)),
{
    str_eq(trim_str(raw), "1")
}

/// The system state observed at the start of one cycle.
#[derive(Clone, Copy, Debug, PartialEq, Eq, Structural)]
pub struct System {
    pub power_profile: PowerMode,
    pub plugged: bool,
}

impl System {
    /// Derives the system state from the two raw status strings.  Fails
    /// exactly when the power-mode string is unrecognized; the
    /// connectivity string defaults to battery on any unexpected value.
    pub fn new(power_profile_raw: &str, connected_raw: &str) -> (r: Result<
        System,
        SystemReadError,
    >)
        ensures
            match r {
                Ok(sys) => mode_of(trim_spec(power_profile_raw@)) == Some(sys.power_profile)
                    && sys.plugged == connected_of(trim_spec(connected_raw@)),
                Err(e) => mode_of(trim_spec(power_profile_raw@)) is None && (e matches SystemReadError::UnknownPowerMode(v)
                    && v@ == power_profile_raw@),
            },
    {
        match parse_power_mode(power_profile_raw) {
            Ok(mode) => Ok(
                System { power_profile: mode, plugged: parse_connected(connected_raw) },
            ),
            Err(e) => Err(e),
        }
    }
}

} // verus!
