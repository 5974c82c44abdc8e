//! The limit applier: given the selected profile and the hardware's
//! current (normalized) fast-limit reading, compute the exact ordered
//! sequence of hardware calls for one cycle.  The surrounding process
//! issues the calls in order; everything decided here is verified.

use vstd::prelude::*;

use crate::model::{Config, Profile};
use crate::state::{PowerMode, System};

verus! {

/// One call into the hardware power-control interface.  All limits are
/// in milliwatts, the thermal target in degrees Celsius.
#[derive(Clone, Copy, Debug, PartialEq, Eq, Structural)]
pub enum HwCall {
    SetFastLimit(u32),
    SetStapmLimit(u32),
    SetSlowLimit(u32),
    SetApuSlowLimit(u32),
    SetTctlTemp(u32),
    Refresh,
}

/// The stapm write for an optional sustained limit: one call if the
/// field is present, none if it is absent.
pub open spec fn stapm_writes(o: Option<u32>) -> Seq<HwCall> {
    match o {
        Some(v) => seq![HwCall::SetStapmLimit(v)],
        None => Seq::empty(),
    }
}

/// The slow-limit write for an optional slow limit.
pub open spec fn slow_writes(o: Option<u32>) -> Seq<HwCall> {
    match o {
        Some(v) => seq![HwCall::SetSlowLimit(v)],
        None => Seq::empty(),
    }
}

/// The APU-slow-limit write for an optional APU slow limit.
pub open spec fn apu_slow_writes(o: Option<u32>) -> Seq<HwCall> {
    match o {
        Some(v) => seq![HwCall::SetApuSlowLimit(v)],
        None => Seq::empty(),
    }
}

/// The thermal-target write for an optional global thermal limit.
pub open spec fn tctl_writes(o: Option<u32>) -> Seq<HwCall> {
    match o {
        Some(t) => seq![HwCall::SetTctlTemp(t)],
        None => Seq::empty(),
    }
}

/// The writes one profile requires, given the hardware's current
/// fast-limit reading in milliwatts: none when the profile is disabled
/// or already converged; otherwise the fast limit first, then exactly
/// the present optional limits, in the fixed order stapm, slow,
/// apu-slow.
pub open spec fn apply_spec(p: Profile, current_fast_mw: u32) -> Seq<HwCall> {
    if !p.enable {
        Seq::empty()
    } else if p.fast_limit == Some(current_fast_mw) {
        Seq::empty()
    } else {
        seq![HwCall::SetFastLimit(p.fast_limit->0)] + stapm_writes(p.stapm_limit) + slow_writes(
            p.slow_limit,
        ) + apu_slow_writes(p.apu_slow_limit)
    }
}

impl Profile {
    /// Decides the writes this profile requires this cycle.  A disabled
    /// profile, and an enabled one whose fast limit equals the current
    /// reading, yield no writes at all.
    pub fn apply(&self, current_fast_mw: u32) -> (plan: Vec<HwCall>)
        requires
            self.wf(),
        ensures
            plan@ == apply_spec(*self, current_fast_mw),
    {
        let mut plan: Vec<HwCall> = Vec::new();
        if self.enable {
            let fl = self.fast_limit.unwrap();
            if fl != current_fast_mw {
                plan.push(HwCall::SetFastLimit(fl));
                if let Some(v) = self.stapm_limit {
                    plan.push(HwCall::SetStapmLimit(v));
                }
                if let Some(v) = self.slow_limit {
                    plan.push(HwCall::SetSlowLimit(v));
                }
                if let Some(v) = self.apu_slow_limit {
                    plan.push(HwCall::SetApuSlowLimit(v));
                }
            }
        }
        proof {
            assert(plan@ =~= apply_spec(*self, current_fast_mw));
        }
        plan
    }
}

/// Converts the hardware's native fast-limit unit (watts) to the
/// configuration unit (milliwatts).  This normalization is the sole
/// basis of the convergence comparison.
pub fn watts_to_milliwatts(watts: u32) -> (mw: u32)
    requires
        watts * 1000 <= u32::MAX,
    ensures
        mw == watts * 1000,
{
    watts * 1000
}

impl Config {
    /// The profile the selection table assigns to a system state.
    pub open spec fn select_spec(self, sys: System) -> Profile {
        match sys.power_profile {
            PowerMode::Quiet => if sys.plugged {
                self.quiet.plugged
            } else {
                self.quiet.unplugged
            },
            PowerMode::Balanced => if sys.plugged {
                self.balanced.plugged
            } else {
                self.balanced.unplugged
            },
            PowerMode::Performance => if sys.plugged {
                self.performance.plugged
            } else {
                self.performance.unplugged
            },
        }
    }

    /// Pure, total selection over the closed (mode, connectivity)
    /// domain: each of the six combinations maps to its bundle entry.
    pub fn select(&self, sys: &System) -> (p: &Profile)
        ensures
            *p == self.select_spec(*sys),
    {
        match sys.power_profile {
            PowerMode::Quiet => if sys.plugged {
                &self.quiet.plugged
            } else {
                &self.quiet.unplugged
            },
            PowerMode::Balanced => if sys.plugged {
                &self.balanced.plugged
            } else {
                &self.balanced.unplugged
            },
            PowerMode::Performance => if sys.plugged {
                &self.performance.plugged
            } else {
                &self.performance.unplugged
            },
        }
    }
}

/// Every hardware call of one full cycle, in issue order: the selected
/// profile's writes, then the thermal-target write if configured, then
/// the cache refresh.
pub open spec fn cycle_spec(c: Config, sys: System, current_fast_mw: u32) -> Seq<HwCall> {
    apply_spec(c.select_spec(sys), current_fast_mw) + tctl_writes(c.tctl_limit) + seq![
        HwCall::Refresh,
    ]
}

impl Config {
    /// Decides every hardware call of one cycle, in the order the
    /// process must issue them.  The thermal-target write happens
    /// whenever `tctl_limit` is configured, independently of the
    /// selected profile; the refresh always comes last.
    pub fn cycle_plan(&self, sys: &System, current_fast_mw: u32) -> (plan: Vec<HwCall>)
        requires
            self.wf(),
        ensures
            plan@ == cycle_spec(*self, *sys, current_fast_mw),
    {
        let profile = self.select(sys);
        let mut plan = profile.apply(current_fast_mw);
        if let Some(t) = self.tctl_limit {
            plan.push(HwCall::SetTctlTemp(t));
        }
        plan.push(HwCall::Refresh);
        proof {
            assert(plan@ =~= cycle_spec(*self, *sys, current_fast_mw));
        }
        plan
    }
}

} // verus!
