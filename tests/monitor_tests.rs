use wasmify_rs::{
    run_monitor, start_monitor, MonitorError, MonitorSession, MonitorStep, PollOutcome,
};

#[test]
fn monitor_test_invalid_address() {
    let result = run_monitor("", "TestEvent", 3, &[]).result;
    assert!(matches!(result, Err(MonitorError::InvalidContractAddress)));
}

#[test]
fn test_successful_monitoring() {
    let result = run_monitor("0x123", "TestEvent", 3, &[]).result;
    assert!(matches!(result, Ok(())));
}

#[test]
fn empty_inputs_poll_nothing() {
    let r = run_monitor("", "Event", 3, &[PollOutcome::Found]);
    assert_eq!(r.result, Err(MonitorError::InvalidContractAddress));
    assert_eq!(r.polls, 0);
    let r = run_monitor("0x123", "", 3, &[]);
    assert_eq!(r.result, Err(MonitorError::InvalidContractAddress));
    assert_eq!(r.polls, 0);
    assert_eq!(start_monitor("", "Event", 3), Err(MonitorError::InvalidContractAddress));
}

#[test]
fn quiet_session_succeeds_after_five_polls() {
    let r = run_monitor("0x123", "Event", 3, &[PollOutcome::NoEvent; 5]);
    assert_eq!(r.result, Ok(()));
    assert_eq!(r.polls, 5);
    let r = run_monitor("0x123", "Event", 0, &[]);
    assert_eq!(r.result, Ok(()));
    assert_eq!(r.polls, 5);
}

#[test]
fn found_event_ends_session() {
    let r = run_monitor("0x123", "Event", 3, &[PollOutcome::NoEvent, PollOutcome::Found]);
    assert_eq!(r.result, Ok(()));
    assert_eq!(r.polls, 2);
}

#[test]
fn fatal_error_ends_session_at_once() {
    let r = run_monitor("0x123", "Event", 3, &[PollOutcome::NoEvent, PollOutcome::FatalError]);
    assert_eq!(r.result, Err(MonitorError::MonitoringFailed));
    assert_eq!(r.polls, 2);
}

#[test]
fn transient_errors_exhaust_retries() {
    let t = PollOutcome::TransientError;
    let r = run_monitor("0x123", "Event", 3, &[t, PollOutcome::NoEvent, t, t]);
    assert_eq!(r.result, Err(MonitorError::TransientError));
    assert_eq!(r.polls, 4);
    let r = run_monitor("0x123", "Event", 0, &[t]);
    assert_eq!(r.result, Err(MonitorError::TransientError));
    assert_eq!(r.polls, 1);
}

#[test]
fn transient_errors_below_budget_count_against_cap() {
    let t = PollOutcome::TransientError;
    let r = run_monitor("0x123", "Event", 10, &[t, t, t, t, t, t]);
    assert_eq!(r.result, Ok(()));
    assert_eq!(r.polls, 5);
}

#[test]
fn session_steps_one_poll_at_a_time() {
    let s = start_monitor("0x123", "Event", 2).unwrap();
    assert_eq!(s, MonitorSession { attempts: 0, retries: 0, max_retries: 2 });
    match s.record_poll(PollOutcome::TransientError) {
        MonitorStep::Poll(n) => {
            assert_eq!(n, MonitorSession { attempts: 1, retries: 1, max_retries: 2 })
        }
        MonitorStep::Finished(_) => panic!("session ended early"),
    }
    match s.record_poll(PollOutcome::Found) {
        MonitorStep::Finished(rep) => {
            assert_eq!(rep.result, Ok(()));
            assert_eq!(rep.polls, 1);
        }
        MonitorStep::Poll(_) => panic!("session kept polling"),
    }
}
