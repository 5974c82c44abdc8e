//! The library's stated laws, each proved from the spec functions the
//! executable contracts are written over.

use vstd::prelude::*;

use crate::model::{Config, Profile};
use crate::plan::{
    apply_spec, apu_slow_writes, cycle_spec, slow_writes, stapm_writes, HwCall,
};
use crate::state::{PowerMode, System};

verus! {

/// Selection correctness: each of the six (mode, connectivity)
/// combinations selects exactly the corresponding bundle entry.
pub proof fn lemma_selection_table(c: Config)
    ensures
        c.select_spec((System { power_profile: PowerMode::Quiet, plugged: true }))
            == c.quiet.plugged,
        c.select_spec((System { power_profile: PowerMode::Quiet, plugged: false }))
            == c.quiet.unplugged,
        c.select_spec((System { power_profile: PowerMode::Balanced, plugged: true }))
            == c.balanced.plugged,
        c.select_spec((System { power_profile: PowerMode::Balanced, plugged: false }))
            == c.balanced.unplugged,
        c.select_spec((System { power_profile: PowerMode::Performance, plugged: true }))
            == c.performance.plugged,
        c.select_spec((System { power_profile: PowerMode::Performance, plugged: false }))
            == c.performance.unplugged,
{
}

/// A disabled policy is inert: whatever the current hardware reading,
/// the applier issues no write for it.
pub proof fn lemma_disabled_profile_inert(p: Profile, current_fast_mw: u32)
    requires
        !p.enable,
    ensures
        apply_spec(p, current_fast_mw) == Seq::<HwCall>::empty(),
{
}

/// Idempotence: an enabled profile whose fast limit equals the
/// hardware's current normalized reading issues no write.
pub proof fn lemma_converged_profile_inert(p: Profile, current_fast_mw: u32)
    requires
        p.enable,
        p.fast_limit == Some(current_fast_mw),
    ensures
        apply_spec(p, current_fast_mw) == Seq::<HwCall>::empty(),
{
}

/// Convergence and field-optionality: when an enabled profile's fast
/// limit differs from the current reading, the fast limit is written
/// first, followed by exactly the present optional limits, each once,
/// in the fixed order stapm, slow, apu-slow; absent fields are never
/// written.
pub proof fn lemma_divergent_profile_write_order(p: Profile, current_fast_mw: u32)
    requires
        p.wf(),
        p.enable,
        p.fast_limit != Some(current_fast_mw),
    ensures
        apply_spec(p, current_fast_mw) == seq![HwCall::SetFastLimit(p.fast_limit->0)]
            + stapm_writes(p.stapm_limit) + slow_writes(p.slow_limit) + apu_slow_writes(
            p.apu_slow_limit,
        ),
        apply_spec(p, current_fast_mw).first() == HwCall::SetFastLimit(p.fast_limit->0),
        p.stapm_limit is None ==> forall|i: int|
            0 <= i < apply_spec(p, current_fast_mw).len() ==> !(#[trigger] apply_spec(
                p,
                current_fast_mw,
            )[i] is SetStapmLimit),
        p.slow_limit is None ==> forall|i: int|
            0 <= i < apply_spec(p, current_fast_mw).len() ==> !(#[trigger] apply_spec(
                p,
                current_fast_mw,
            )[i] is SetSlowLimit),
        p.apu_slow_limit is None ==> forall|i: int|
            0 <= i < apply_spec(p, current_fast_mw).len() ==> !(#[trigger] apply_spec(
                p,
                current_fast_mw,
            )[i] is SetApuSlowLimit),
{
}

/// Every call a profile's plan contains is one of the four limit
/// writes: never a thermal-target write, never a refresh.
pub proof fn lemma_apply_writes_only_limits(p: Profile, current_fast_mw: u32)
    ensures
        forall|i: int|
            0 <= i < apply_spec(p, current_fast_mw).len() ==> {
                let call = #[trigger] apply_spec(p, current_fast_mw)[i];
                call is SetFastLimit || call is SetStapmLimit || call is SetSlowLimit
                    || call is SetApuSlowLimit
            },
{
}

/// Thermal-limit independence: with no configured thermal limit the
/// cycle contains no thermal-target write; with a configured value it
/// contains exactly one, carrying that value, placed after every limit
/// write — independently of the selected profile and of whether it is
/// enabled.
pub proof fn lemma_thermal_limit_independent(c: Config, sys: System, current_fast_mw: u32)
    ensures
        c.tctl_limit is None ==> forall|i: int|
            0 <= i < cycle_spec(c, sys, current_fast_mw).len() ==> !(#[trigger] cycle_spec(
                c,
                sys,
                current_fast_mw,
            )[i] is SetTctlTemp),
        c.tctl_limit matches Some(t) ==> {
            let plan = cycle_spec(c, sys, current_fast_mw);
            &&& plan.len() >= 2
            &&& plan[plan.len() - 2] == HwCall::SetTctlTemp(t)
            &&& forall|i: int|
                0 <= i < plan.len() - 2 ==> !(#[trigger] plan[i] is SetTctlTemp)
        },
{
    lemma_apply_writes_only_limits(c.select_spec(sys), current_fast_mw);
}

/// Cycle ordering: every cycle's plan ends with exactly one refresh,
/// after all writes.
pub proof fn lemma_refresh_after_writes(c: Config, sys: System, current_fast_mw: u32)
    ensures
        cycle_spec(c, sys, current_fast_mw).len() >= 1,
        cycle_spec(c, sys, current_fast_mw).last() == HwCall::Refresh,
        forall|i: int|
            0 <= i < cycle_spec(c, sys, current_fast_mw).len() - 1 ==> !(#[trigger] cycle_spec(
                c,
                sys,
                current_fast_mw,
            )[i] is Refresh),
{
    lemma_apply_writes_only_limits(c.select_spec(sys), current_fast_mw);
}

} // verus!
