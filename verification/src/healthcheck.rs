//! The probe capability: one method from a probe config to an outcome. New
//! probe families implement `HealthCheck` without touching the scheduling or
//! dispatch logic.

use vstd::prelude::*;

use crate::config::HealthCheckState;

verus! {

/// One probe family's evaluator. `check` must absorb every failure mode
/// (network error, malformed target, timeout) and map it to
/// `HealthCheckState::Failed`; no error escapes it.
pub trait HealthCheck {
    type Config;

    fn check(&self, config: &Self::Config) -> HealthCheckState;
}

/// Access to a probe config's optional identity name, the correlation context
/// under which its outcomes are reported.
pub trait HealthCheckName {
    fn name(&self) -> Option<&str>;
}

/// Evaluate every probe of one group in declared order, collecting one
/// outcome per probe. What each outcome is depends on the probe family's
/// `check`; this function only guarantees one result per config, in order.
pub fn get_healthcheck_results<H: HealthCheck>(
    healthcheck: H,
    configs: &Vec<H::Config>,
) -> (r: Vec<HealthCheckState>)
    ensures
        r@.len() == configs@.len(),
{
    let mut results: Vec<HealthCheckState> = Vec::with_capacity(configs.len());
    let mut i: usize = 0;
    while i < configs.len()
        invariant
            i <= configs.len(),
            results@.len() == i,
        decreases configs.len() - i,
    {
        let check_status = healthcheck.check(&configs[i]);
        results.push(check_status);
        i = i + 1;
    }
    results
}

} // verus!
