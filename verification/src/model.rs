//! Policy data model: one profile per (mode, connectivity) combination,
//! grouped into the full configuration bundle, with the structural
//! invariant checked once at construction.

use vstd::prelude::*;

verus! {

/// One policy's desired hardware state for one connectivity variant.
/// Every limit is in milliwatts.  An absent field is left untouched on
/// hardware; `fast_limit` must be present whenever the profile is
/// enabled, since it is the convergence signal.
#[derive(Clone, Copy, Debug)]
pub struct Profile {
    pub enable: bool,
    pub stapm_limit: Option<u32>,
    pub fast_limit: Option<u32>,
    pub slow_limit: Option<u32>,
    pub apu_slow_limit: Option<u32>,
}

impl Profile {
    /// Structural invariant: an enabled profile carries its convergence
    /// signal.
    pub open spec fn wf(self) -> bool {
        self.enable ==> self.fast_limit is Some
    }

    /// Runtime check for the structural invariant.
    pub fn is_wf(&self) -> (b: bool)
        ensures
            b == self.wf(),
    {
        !self.enable || self.fast_limit.is_some()
    }
}

/// The two profiles of one named policy: one for AC power, one for
/// battery.
#[derive(Clone, Copy, Debug)]
pub struct ConnectivityPair {
    pub plugged: Profile,
    pub unplugged: Profile,
}

impl ConnectivityPair {
    pub open spec fn wf(self) -> bool {
        self.plugged.wf() && self.unplugged.wf()
    }

    pub fn is_wf(&self) -> (b: bool)
        ensures
            b == self.wf(),
    {
        self.plugged.is_wf() && self.unplugged.is_wf()
    }
}

/// A configuration that violates the structural invariant: some enabled
/// profile is missing its fast limit.
#[derive(Clone, Copy, Debug, PartialEq, Eq, Structural)]
pub enum ConfigError {
    MissingFastLimit,
}

/// The full configuration: one named policy per power mode, plus an
/// optional global thermal-control target in degrees Celsius.
#[derive(Clone, Copy, Debug)]
pub struct Config {
    pub quiet: ConnectivityPair,
    pub balanced: ConnectivityPair,
    pub performance: ConnectivityPair,
    pub tctl_limit: Option<u32>,
}

impl Config {
    pub open spec fn wf(self) -> bool {
        self.quiet.wf() && self.balanced.wf() && self.performance.wf()
    }

    /// Builds the configuration bundle, rejecting any bundle in which
    /// some enabled profile has no fast limit.  This is the only place
    /// the invariant is checked: every `Config` this returns is
    /// well-formed.
    pub fn new(
        quiet: ConnectivityPair,
        balanced: ConnectivityPair,
        performance: ConnectivityPair,
        tctl_limit: Option<u32>,
    ) -> (r: Result<Config, ConfigError>)
        ensures
            ({
                let c = (Config { quiet, balanced, performance, tctl_limit });
                if c.wf() {
                    r == Ok::<Config, ConfigError>(c)
                } else {
                    r == Err::<Config, ConfigError>(ConfigError::MissingFastLimit)
                }
            }),
    {
        if quiet.is_wf() && balanced.is_wf() && performance.is_wf() {
            Ok(Config { quiet, balanced, performance, tctl_limit })
        } else {
            Err(ConfigError::MissingFastLimit)
        }
    }
}

} // verus!
