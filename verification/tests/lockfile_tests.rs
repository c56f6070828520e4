use ytmusicd::lockfile::{
    client_port_plan, discovery_step, encode_record, parse_dec, parse_record, resolve_discovery,
    u64_to_dec, ClientPortError, ClientPortPlan, LockRecord, LockfileError, PollStep,
};

#[test]
fn numerals_render_canonically() {
    assert_eq!(u64_to_dec(0), "0");
    assert_eq!(u64_to_dec(7), "7");
    assert_eq!(u64_to_dec(8080), "8080");
    assert_eq!(u64_to_dec(u64::MAX), "18446744073709551615");
}

#[test]
fn numerals_parse_back() {
    assert_eq!(parse_dec("0"), Some(0));
    assert_eq!(parse_dec("65535"), Some(65535));
    assert_eq!(parse_dec("18446744073709551615"), Some(u64::MAX));
}

#[test]
fn bad_numerals_are_refused() {
    assert_eq!(parse_dec(""), None);
    assert_eq!(parse_dec("007"), None);
    assert_eq!(parse_dec("12a"), None);
    assert_eq!(parse_dec("-1"), None);
    assert_eq!(parse_dec("18446744073709551616"), None);
}

#[test]
fn record_round_trip() {
    let text = encode_record(123456, 8080);
    assert_eq!(text, "123456\n8080");
    assert_eq!(parse_record(&text), Ok(LockRecord { pid: 123456, port: 8080 }));
}

#[test]
fn zero_port_record_round_trip() {
    let text = encode_record(42, 0);
    assert_eq!(text, "42\n0");
    assert_eq!(parse_record(&text), Ok(LockRecord { pid: 42, port: 0 }));
}

#[test]
fn malformed_records_are_refused() {
    assert_eq!(parse_record("1234"), Err(LockfileError::MissingPort));
    assert_eq!(parse_record("abc\n80"), Err(LockfileError::InvalidPid));
    assert_eq!(parse_record("12\n70000"), Err(LockfileError::InvalidPort));
    assert_eq!(parse_record("12\n80\njunk"), Err(LockfileError::InvalidPort));
}

#[test]
fn nonzero_port_returns_immediately() {
    assert_eq!(discovery_step(8080, 0), PollStep::Ready(8080));
    assert_eq!(discovery_step(8080, 3), PollStep::Ready(8080));
}

#[test]
fn zero_port_retries_then_gives_up() {
    assert_eq!(discovery_step(0, 0), PollStep::RetryAfterDelay);
    assert_eq!(discovery_step(0, 1), PollStep::RetryAfterDelay);
    assert_eq!(discovery_step(0, 2), PollStep::RetryAfterDelay);
    assert_eq!(discovery_step(0, 3), PollStep::GiveUp);
}

#[test]
fn discovery_takes_first_nonzero_port() {
    assert_eq!(resolve_discovery(&vec![0, 0, 9999, 0]), Some(9999));
    assert_eq!(resolve_discovery(&vec![7070, 0, 0, 0]), Some(7070));
    assert_eq!(resolve_discovery(&vec![0, 0, 0, 0]), None);
    // a port only observable after the bounded attempts is never reached
    assert_eq!(resolve_discovery(&vec![0, 0, 0, 0, 8080]), None);
}

#[test]
fn client_port_plan_cases() {
    assert_eq!(client_port_plan(None, false), Ok(ClientPortPlan::DiscoverFromLockfile));
    assert_eq!(client_port_plan(Some(9000), false), Ok(ClientPortPlan::UsePort(9000)));
    assert_eq!(client_port_plan(Some(9000), true), Ok(ClientPortPlan::UsePort(9000)));
    assert_eq!(client_port_plan(None, true), Err(ClientPortError::NoPortWithoutLockfile));
}
