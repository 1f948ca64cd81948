use handyman::config::{Handler, HealthCheckState};
use handyman::handyman::{
    classify_handler_outcome, group_pass, handler_fires, handlers_to_run, HandlerOutcome,
};

fn failed_handler(command: &str) -> Handler {
    Handler::new(None, command.to_owned(), HealthCheckState::Failed, None)
}

fn passed_handler(command: &str) -> Handler {
    Handler::new(None, command.to_owned(), HealthCheckState::Passed, None)
}

#[test]
fn failed_trigger_fires_iff_any_failed() {
    let handler = failed_handler("true");
    assert!(handler_fires(&handler, true, false));
    assert!(handler_fires(&handler, true, true));
    assert!(!handler_fires(&handler, false, true));
    assert!(!handler_fires(&handler, false, false));
}

#[test]
fn passed_trigger_fires_iff_any_succeeded() {
    let handler = passed_handler("true");
    assert!(handler_fires(&handler, false, true));
    assert!(handler_fires(&handler, true, true));
    assert!(!handler_fires(&handler, true, false));
    assert!(!handler_fires(&handler, false, false));
}

#[test]
fn no_handler_fires_without_flags() {
    let handlers = vec![failed_handler("a"), passed_handler("b")];
    assert!(handlers_to_run(&handlers, false, false).is_empty());
}

#[test]
fn all_matching_handlers_fire_in_declared_order() {
    let handlers = vec![
        failed_handler("first"),
        passed_handler("second"),
        failed_handler("third"),
        failed_handler("fourth"),
    ];
    // only failures: every Failed-triggered handler fires, in order, no cut
    assert_eq!(handlers_to_run(&handlers, true, false), vec![0usize, 2, 3]);
    // only successes
    assert_eq!(handlers_to_run(&handlers, false, true), vec![1usize]);
    // both flags: everything fires
    assert_eq!(handlers_to_run(&handlers, true, true), vec![0usize, 1, 2, 3]);
}

#[test]
fn group_pass_on_empty_group_fires_nothing() {
    let handlers = vec![failed_handler("a"), passed_handler("b")];
    let results: Vec<HealthCheckState> = vec![];
    assert!(group_pass(&results, &handlers).is_empty());
}

#[test]
fn group_pass_mixed_outcomes_fire_both_trigger_kinds() {
    let handlers = vec![passed_handler("on-ok"), failed_handler("on-failure")];
    let results = vec![HealthCheckState::Passed, HealthCheckState::Failed];
    assert_eq!(group_pass(&results, &handlers), vec![0usize, 1]);
}

#[test]
fn handler_outcome_classification() {
    assert_eq!(classify_handler_outcome(None), HandlerOutcome::LaunchFailed);
    assert_eq!(
        classify_handler_outcome(Some(false)),
        HandlerOutcome::CommandFailed
    );
    assert_eq!(
        classify_handler_outcome(Some(true)),
        HandlerOutcome::Succeeded
    );
}
