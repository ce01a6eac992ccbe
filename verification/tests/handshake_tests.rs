use sn_tracer::handshake::{run_handshake, Handshake, HandshakeFailed, Verdict, MAX_ATTEMPTS};

fn reply(s: &str) -> Option<String> {
    Some(s.to_string())
}

#[test]
fn succeeds_with_exactly_k_round_trips() {
    // The simulated device acknowledges on attempt 3.
    let outcomes = vec![None, reply("nope"), reply("connected\r\n")];
    assert_eq!(run_handshake(&outcomes), Ok(3));
}

#[test]
fn succeeds_on_first_attempt() {
    let outcomes = vec![reply("connected")];
    assert_eq!(run_handshake(&outcomes), Ok(1));
}

#[test]
fn ack_past_the_budget_fails() {
    // The device would acknowledge on attempt 21 — one past the budget.
    let mut outcomes: Vec<Option<String>> = Vec::new();
    for _ in 0..MAX_ATTEMPTS {
        outcomes.push(None);
    }
    outcomes.push(reply("connected"));
    assert_eq!(run_handshake(&outcomes), Err(HandshakeFailed));
}

#[test]
fn ack_on_last_budgeted_attempt_succeeds() {
    let mut outcomes: Vec<Option<String>> = Vec::new();
    for _ in 0..MAX_ATTEMPTS - 1 {
        outcomes.push(reply("busy"));
    }
    outcomes.push(reply("connected"));
    assert_eq!(run_handshake(&outcomes), Ok(MAX_ATTEMPTS));
}

#[test]
fn silent_device_fails() {
    assert_eq!(run_handshake(&Vec::new()), Err(HandshakeFailed));
}

#[test]
fn wrong_replies_count_like_timeouts() {
    let outcomes = vec![reply("garbage"); 25];
    assert_eq!(run_handshake(&outcomes), Err(HandshakeFailed));
}

#[test]
fn observe_decides_per_attempt() {
    let mut hs = Handshake::new();
    assert_eq!(hs.observe(None), Verdict::Retry);
    assert_eq!(hs.observe(Some("not yet")), Verdict::Retry);
    assert_eq!(hs.observe(Some("connected\n")), Verdict::Accept);
    assert_eq!(hs.attempts, 3);
}

#[test]
fn observe_fails_on_the_last_attempt() {
    let mut hs = Handshake::new();
    for _ in 0..MAX_ATTEMPTS - 1 {
        assert_eq!(hs.observe(None), Verdict::Retry);
    }
    assert_eq!(hs.observe(None), Verdict::Fail);
}
