use dyn_cfg::{acknowledge, mock_lookup, poll_step, ConfGetRawResult, PollStep, RecvOutcome};

#[test]
fn lookup_prefers_stored_entry() {
    let d = ConfGetRawResult::NotExist { key: "mock-key".to_string() };
    let r = mock_lookup(Some(ConfGetRawResult::Exist("10".to_string())), d.clone());
    assert!(matches!(r, ConfGetRawResult::Exist(v) if v == "10"));
    let r = mock_lookup(None, d);
    assert!(matches!(r, ConfGetRawResult::NotExist { key } if key == "mock-key"));
}

#[test]
fn acknowledgments_count_down_and_notify_at_zero() {
    assert_eq!(acknowledge(3), (2, false));
    assert_eq!(acknowledge(1), (0, true));
    assert_eq!(acknowledge(0), (0, false));
}

#[test]
fn poll_first_receive() {
    assert!(matches!(poll_step(RecvOutcome::Received(4u8), false), PollStep::Ready(Some(4))));
    assert!(matches!(poll_step(RecvOutcome::<u8>::Empty, false), PollStep::Pending));
    assert!(matches!(poll_step(RecvOutcome::<u8>::Closed, false), PollStep::Ready(None)));
    assert!(matches!(poll_step(RecvOutcome::<u8>::Lagged(3), false), PollStep::RetryAfterLag));
}

#[test]
fn poll_retry_after_lag() {
    assert!(matches!(poll_step(RecvOutcome::Received(4u8), true), PollStep::Ready(Some(4))));
    assert!(matches!(poll_step(RecvOutcome::<u8>::Empty, true), PollStep::Pending));
    assert!(matches!(poll_step(RecvOutcome::<u8>::Closed, true), PollStep::Pending));
    assert!(matches!(poll_step(RecvOutcome::<u8>::Lagged(1), true), PollStep::Pending));
}
