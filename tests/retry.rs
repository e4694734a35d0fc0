use sev_tool::retry::{Fetch, FetchError, Reply, RetryPolicy, Step};

/// Plays a scripted server against a fetch: each request takes the next
/// reply and body. Returns the outcome, the seconds slept and the number of
/// requests sent.
fn run_fetch(policy: RetryPolicy, script: &[(Reply, &[u8])]) -> (Result<Vec<u8>, FetchError>, Vec<u64>, usize) {
    let mut fetch = Fetch::new(policy);
    let mut sleeps = Vec::new();
    let mut requests = 0;
    loop {
        let (reply, body) = script[requests];
        requests += 1;
        match fetch.on_reply(reply) {
            Step::Sleep(secs) => sleeps.push(secs),
            Step::Deliver => return (Ok(body.to_vec()), sleeps, requests),
            Step::Fail(e) => return (Err(e), sleeps, requests),
        }
    }
}

#[test]
fn kds_policy_values() {
    let p = RetryPolicy::kds();
    assert_eq!(p.delay_secs, 10);
    assert_eq!(p.retry_status, 429);
    assert_eq!(p.max_attempts, None);
}

#[test]
fn two_rate_limits_then_certificate() {
    let script: [(Reply, &[u8]); 3] = [
        (Reply::Status(429), b""),
        (Reply::Status(429), b""),
        (Reply::Status(200), b"CERT"),
    ];
    let (out, sleeps, requests) = run_fetch(RetryPolicy::kds(), &script);
    assert_eq!(out, Ok(b"CERT".to_vec()));
    assert_eq!(sleeps, vec![10, 10]);
    assert_eq!(requests, 3);
}

#[test]
fn transport_failure_is_not_retried() {
    let script: [(Reply, &[u8]); 2] = [(Reply::TransportFailed, b""), (Reply::Status(200), b"CERT")];
    let (out, sleeps, requests) = run_fetch(RetryPolicy::kds(), &script);
    assert_eq!(out, Err(FetchError::Transport));
    assert!(sleeps.is_empty());
    assert_eq!(requests, 1);
}

#[test]
fn transport_failure_after_rate_limit() {
    let script: [(Reply, &[u8]); 2] = [(Reply::Status(429), b""), (Reply::TransportFailed, b"")];
    let (out, sleeps, requests) = run_fetch(RetryPolicy::kds(), &script);
    assert_eq!(out, Err(FetchError::Transport));
    assert_eq!(sleeps, vec![10]);
    assert_eq!(requests, 2);
}

#[test]
fn server_error_body_is_delivered() {
    let script: [(Reply, &[u8]); 1] = [(Reply::Status(500), b"error page")];
    let (out, sleeps, _) = run_fetch(RetryPolicy::kds(), &script);
    assert_eq!(out, Ok(b"error page".to_vec()));
    assert!(sleeps.is_empty());
}

#[test]
fn other_client_errors_are_delivered() {
    for code in [404u16, 400, 428, 430, 503] {
        let mut fetch = Fetch::new(RetryPolicy::kds());
        assert_eq!(fetch.on_reply(Reply::Status(code)), Step::Deliver);
    }
}

#[test]
fn unlimited_policy_keeps_retrying() {
    let mut fetch = Fetch::new(RetryPolicy::kds());
    for _ in 0..1000 {
        assert_eq!(fetch.on_reply(Reply::Status(429)), Step::Sleep(10));
    }
    assert_eq!(fetch.attempts, 1000);
    assert_eq!(fetch.on_reply(Reply::Status(200)), Step::Deliver);
}

#[test]
fn attempts_count_saturates() {
    let mut fetch = Fetch { policy: RetryPolicy::kds(), attempts: u64::MAX };
    assert_eq!(fetch.on_reply(Reply::Status(429)), Step::Sleep(10));
    assert_eq!(fetch.attempts, u64::MAX);
}

#[test]
fn limited_policy_gives_up() {
    let policy = RetryPolicy { delay_secs: 2, retry_status: 429, max_attempts: Some(3) };
    let script: [(Reply, &[u8]); 4] = [
        (Reply::Status(429), b""),
        (Reply::Status(429), b""),
        (Reply::Status(429), b""),
        (Reply::Status(200), b"CERT"),
    ];
    let (out, sleeps, requests) = run_fetch(policy, &script);
    assert_eq!(out, Err(FetchError::RateLimited));
    assert_eq!(sleeps, vec![2, 2]);
    assert_eq!(requests, 3);
}

#[test]
fn limited_policy_delivers_in_time() {
    let policy = RetryPolicy { delay_secs: 5, retry_status: 503, max_attempts: Some(2) };
    let script: [(Reply, &[u8]); 2] = [(Reply::Status(503), b""), (Reply::Status(200), b"ok")];
    let (out, sleeps, requests) = run_fetch(policy, &script);
    assert_eq!(out, Ok(b"ok".to_vec()));
    assert_eq!(sleeps, vec![5]);
    assert_eq!(requests, 2);
}
