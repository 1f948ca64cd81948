//! The scheduling-and-dispatch core: reduce one probe group's outcomes to the
//! two aggregate flags, decide which handlers fire, and classify the result of
//! running a handler command. These are the decisions a config runner makes on
//! every loop iteration; the runner's waiting, probing and process spawning
//! happen at the unverified edge and feed plain values in and out.

use vstd::prelude::*;

use crate::config::{Handler, HealthCheckState};

verus! {

/// The "any failed" aggregate flag: some outcome in the group is `Failed`.
pub open spec fn spec_any_failed(results: Seq<HealthCheckState>) -> bool {
    exists|i: int| 0 <= i < results.len() && results[i] is Failed
}

/// The "any succeeded" aggregate flag: some outcome in the group is `Passed`.
pub open spec fn spec_any_succeeded(results: Seq<HealthCheckState>) -> bool {
    exists|i: int| 0 <= i < results.len() && results[i] is Passed
}

/// Whether a handler with the given trigger state fires for a group whose
/// aggregate flags are `any_failed` and `any_succeeded`.
pub open spec fn spec_fires(trigger: HealthCheckState, any_failed: bool, any_succeeded: bool) -> bool {
    match trigger {
        HealthCheckState::Failed => any_failed,
        HealthCheckState::Passed => any_succeeded,
    }
}

/// Reduce one probe group's outcomes to the pair
/// (any outcome failed, any outcome succeeded). Pure and order-independent:
/// each flag is an existential over the sequence.
pub fn aggregate_results(results: &Vec<HealthCheckState>) -> (r: (bool, bool))
    ensures
        r.0 == spec_any_failed(results@),
        r.1 == spec_any_succeeded(results@),
{
    let mut any_failed = false;
    let mut any_succeeded = false;
    let mut i: usize = 0;
    while i < results.len()
        invariant
            i <= results.len(),
            any_failed == exists|j: int| 0 <= j < i && results@[j] is Failed,
            any_succeeded == exists|j: int| 0 <= j < i && results@[j] is Passed,
        decreases results.len() - i,
    {
        if results[i] == HealthCheckState::Failed {
            any_failed = true;
        }
        if results[i] == HealthCheckState::Passed {
            any_succeeded = true;
        }
        i = i + 1;
    }
    (any_failed, any_succeeded)
}

/// Whether one handler fires given the aggregate flags of the group just
/// evaluated: a `Failed`-triggered handler fires iff some probe failed, a
/// `Passed`-triggered handler fires iff some probe succeeded.
pub fn handler_fires(handler: &Handler, any_failed: bool, any_succeeded: bool) -> (r: bool)
    ensures
        r == spec_fires(handler.state, any_failed, any_succeeded),
{
    if any_failed && handler.state() == HealthCheckState::Failed {
        true
    } else if any_succeeded && handler.state() == HealthCheckState::Passed {
        true
    } else {
        false
    }
}

/// The dispatch decision for one pass: the indices of exactly the handlers
/// that fire, in the configuration's declared order. There is no first-match
/// cut: every matching handler is listed.
pub fn handlers_to_run(handlers: &Vec<Handler>, any_failed: bool, any_succeeded: bool) -> (r: Vec<usize>)
    ensures
        forall|k: int| 0 <= k < r@.len()
            ==> #[trigger] r@[k] < handlers@.len()
                && spec_fires(handlers@[r@[k] as int].state, any_failed, any_succeeded),
        forall|k1: int, k2: int| 0 <= k1 < k2 < r@.len() ==> r@[k1] < r@[k2],
        forall|i: int| 0 <= i < handlers@.len()
            && #[trigger] spec_fires(handlers@[i].state, any_failed, any_succeeded)
            ==> exists|k: int| 0 <= k < r@.len() && r@[k] == i,
{
    let mut fired: Vec<usize> = Vec::new();
    let mut i: usize = 0;
    while i < handlers.len()
        invariant
            i <= handlers.len(),
            forall|k: int| 0 <= k < fired@.len()
                ==> #[trigger] fired@[k] < i
                    && spec_fires(handlers@[fired@[k] as int].state, any_failed, any_succeeded),
            forall|k1: int, k2: int| 0 <= k1 < k2 < fired@.len() ==> fired@[k1] < fired@[k2],
            forall|j: int| 0 <= j < i
                && #[trigger] spec_fires(handlers@[j].state, any_failed, any_succeeded)
                ==> exists|k: int| 0 <= k < fired@.len() && fired@[k] == j,
        decreases handlers.len() - i,
    {
        if handler_fires(&handlers[i], any_failed, any_succeeded) {
            let ghost prev = fired@;
            fired.push(i);
            proof {
                assert forall|j: int|
                    0 <= j < i + 1 && #[trigger] spec_fires(
                        handlers@[j].state,
                        any_failed,
                        any_succeeded,
                    ) implies exists|k: int| 0 <= k < fired@.len() && fired@[k] == j by {
                    if j < i {
                        let k = choose|k: int| 0 <= k < prev.len() && prev[k] == j;
                        assert(fired@[k] == j);
                    } else {
                        assert(fired@[fired@.len() - 1] == j);
                    }
                }
            }
        }
        i = i + 1;
    }
    fired
}

/// One whole aggregate-and-dispatch pass over a probe group: the indices of
/// exactly the handlers that fire for these outcomes, in declared order.
pub fn group_pass(results: &Vec<HealthCheckState>, handlers: &Vec<Handler>) -> (r: Vec<usize>)
    ensures
        forall|k: int| 0 <= k < r@.len()
            ==> #[trigger] r@[k] < handlers@.len()
                && spec_fires(handlers@[r@[k] as int].state, spec_any_failed(results@), spec_any_succeeded(results@)),
        forall|k1: int, k2: int| 0 <= k1 < k2 < r@.len() ==> r@[k1] < r@[k2],
        forall|i: int| 0 <= i < handlers@.len()
            && #[trigger] spec_fires(handlers@[i].state, spec_any_failed(results@), spec_any_succeeded(results@))
            ==> exists|k: int| 0 <= k < r@.len() && r@[k] == i,
{
    let flags = aggregate_results(results);
    handlers_to_run(handlers, flags.0, flags.1)
}

/// A group with a failed outcome in it always sets the "any failed" flag.
pub proof fn lemma_failed_outcome_sets_any_failed(results: Seq<HealthCheckState>, i: int)
    requires
        0 <= i < results.len(),
        results[i] is Failed,
    ensures
        spec_any_failed(results),
{
}

/// A group with a succeeded outcome in it always sets the "any succeeded"
/// flag.
pub proof fn lemma_succeeded_outcome_sets_any_succeeded(results: Seq<HealthCheckState>, i: int)
    requires
        0 <= i < results.len(),
        results[i] is Passed,
    ensures
        spec_any_succeeded(results),
{
}

/// A mixed group — one failed and one succeeded outcome — sets both aggregate
/// flags at once, so both trigger kinds fire in the same pass.
pub proof fn lemma_mixed_group_sets_both_flags(results: Seq<HealthCheckState>, i: int, j: int)
    requires
        0 <= i < results.len(),
        results[i] is Failed,
        0 <= j < results.len(),
        results[j] is Passed,
    ensures
        spec_any_failed(results),
        spec_any_succeeded(results),
        forall|trigger: HealthCheckState|
            spec_fires(trigger, spec_any_failed(results), spec_any_succeeded(results)),
{
}

/// For an empty group both aggregate flags are false and no handler fires,
/// whatever its trigger state.
pub proof fn lemma_empty_group_fires_nothing(
    results: Seq<HealthCheckState>,
    trigger: HealthCheckState,
)
    requires
        results.len() == 0,
    ensures
        !spec_any_failed(results),
        !spec_any_succeeded(results),
        !spec_fires(trigger, spec_any_failed(results), spec_any_succeeded(results)),
{
}

/// Both aggregate flags are false only for an empty group: every outcome is
/// one of the two states, so a non-empty group sets at least one flag.
pub proof fn lemma_flags_both_false_only_when_empty(results: Seq<HealthCheckState>)
    ensures
        (!spec_any_failed(results) && !spec_any_succeeded(results)) <==> results.len() == 0,
{
    if results.len() > 0 {
        if results[0] is Passed {
            assert(spec_any_succeeded(results));
        } else {
            assert(results[0] is Failed);
            assert(spec_any_failed(results));
        }
    }
}

/// A `Failed`-triggered handler fires exactly when the group's "any failed"
/// flag is set, and a `Passed`-triggered handler exactly when "any succeeded"
/// is: neither decision ever looks at the other flag.
pub proof fn lemma_trigger_matches_flag(
    trigger: HealthCheckState,
    any_failed: bool,
    any_succeeded: bool,
)
    ensures
        trigger is Failed ==> spec_fires(trigger, any_failed, any_succeeded) == any_failed,
        trigger is Passed ==> spec_fires(trigger, any_failed, any_succeeded) == any_succeeded,
{
}

/// Aggregation does not depend on the order of a group's outcomes: two groups
/// with the same outcomes as a multiset produce the same aggregate flags.
pub proof fn lemma_aggregate_order_independent(
    a: Seq<HealthCheckState>,
    b: Seq<HealthCheckState>,
)
    requires
        a.to_multiset() == b.to_multiset(),
    ensures
        spec_any_failed(a) == spec_any_failed(b),
        spec_any_succeeded(a) == spec_any_succeeded(b),
{
    broadcast use vstd::seq_lib::group_to_multiset_ensures;

    assert forall|s: Seq<HealthCheckState>|
        #[trigger] spec_any_failed(s) == s.contains(HealthCheckState::Failed) by {
        if spec_any_failed(s) {
            let i = choose|i: int| 0 <= i < s.len() && s[i] is Failed;
            assert(s[i] == HealthCheckState::Failed);
        }
        if s.contains(HealthCheckState::Failed) {
            let i = choose|i: int| 0 <= i < s.len() && s[i] == HealthCheckState::Failed;
            assert(s[i] is Failed);
        }
    }
    assert forall|s: Seq<HealthCheckState>|
        #[trigger] spec_any_succeeded(s) == s.contains(HealthCheckState::Passed) by {
        if spec_any_succeeded(s) {
            let i = choose|i: int| 0 <= i < s.len() && s[i] is Passed;
            assert(s[i] == HealthCheckState::Passed);
        }
        if s.contains(HealthCheckState::Passed) {
            let i = choose|i: int| 0 <= i < s.len() && s[i] == HealthCheckState::Passed;
            assert(s[i] is Passed);
        }
    }
    assert(a.contains(HealthCheckState::Failed) <==> a.to_multiset().count(
        HealthCheckState::Failed,
    ) > 0);
    assert(b.contains(HealthCheckState::Failed) <==> b.to_multiset().count(
        HealthCheckState::Failed,
    ) > 0);
    assert(a.contains(HealthCheckState::Passed) <==> a.to_multiset().count(
        HealthCheckState::Passed,
    ) > 0);
    assert(b.contains(HealthCheckState::Passed) <==> b.to_multiset().count(
        HealthCheckState::Passed,
    ) > 0);
}

/// How one handler invocation went. Both failure variants are non-fatal to
/// the owning runner: they are only logged.
#[derive(Debug, PartialEq, Eq, Structural, Copy, Clone)]
pub enum HandlerOutcome {
    /// The shell process could not be started at all.
    LaunchFailed,
    /// The shell process ran but exited with a non-zero status.
    CommandFailed,
    /// The shell process ran and exited with status zero.
    Succeeded,
}

/// Classify the result of running one handler command, given whether the
/// shell process started and, if it did, whether it exited with status zero.
pub fn classify_handler_outcome(exit_success: Option<bool>) -> (r: HandlerOutcome)
    ensures
        r is LaunchFailed <==> exit_success is None,
        r is CommandFailed <==> exit_success == Some(false),
        r is Succeeded <==> exit_success == Some(true),
{
    match exit_success {
        None => HandlerOutcome::LaunchFailed,
        Some(false) => HandlerOutcome::CommandFailed,
        Some(true) => HandlerOutcome::Succeeded,
    }
}

} // verus!
