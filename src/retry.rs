//! The decisions of a certificate fetch: what to do after each reply of the
//! key-distribution service. The caller performs the requests and the waits.
use vstd::prelude::*;

verus! {

/// HTTP status with which the service signals that it is rate limiting.
pub const TOO_MANY_REQUESTS: u16 = 429;

/// Seconds to wait before asking again after a rate-limit reply.
pub const RATE_LIMIT_DELAY_SECS: u64 = 10;

/// Why a fetch ended without a certificate.
#[derive(Clone, Copy, Debug, PartialEq, Eq, Structural)]
pub enum FetchError {
    /// The request failed below HTTP (DNS, connection, TLS, reading the body).
    Transport,
    /// The service kept rate limiting until the attempts ran out.
    RateLimited,
}

/// What came back from one request.
#[derive(Clone, Copy, Debug, PartialEq, Eq, Structural)]
pub enum Reply {
    /// No HTTP response was obtained.
    TransportFailed,
    /// An HTTP response with this status code.
    Status(u16),
}

/// What the caller does next.
#[derive(Clone, Copy, Debug, PartialEq, Eq, Structural)]
pub enum Step {
    /// Wait this many seconds, then send the same request again.
    Sleep(u64),
    /// Read the response body: it is the certificate. The fetch is over.
    Deliver,
    /// Stop with this error. The fetch is over.
    Fail(FetchError),
}

/// When to retry: on which status, after how long, and how often at most.
#[derive(Clone, Copy, Debug, PartialEq, Eq, Structural)]
pub struct RetryPolicy {
    /// Seconds to wait before each retry.
    pub delay_secs: u64,
    /// The status code that asks for a retry; every other status delivers.
    pub retry_status: u16,
    /// The most requests to send; `None` retries without end.
    pub max_attempts: Option<u64>,
}

/// The count after one more reply, held at `u64::MAX`.
pub open spec fn count_up(n: u64) -> u64 {
    if n < u64::MAX {
        (n + 1) as u64
    } else {
        n
    }
}

/// The step that `policy` takes on `reply` when `attempts` replies came before it.
pub open spec fn step_of(policy: RetryPolicy, attempts: u64, reply: Reply) -> Step {
    match reply {
        Reply::TransportFailed => Step::Fail(FetchError::Transport),
        Reply::Status(code) => {
            if code != policy.retry_status {
                Step::Deliver
            } else {
                match policy.max_attempts {
                    Some(m) if count_up(attempts) >= m => Step::Fail(FetchError::RateLimited),
                    _ => Step::Sleep(policy.delay_secs),
                }
            }
        },
    }
}

/// Whether a step ends the fetch.
pub open spec fn is_final(step: Step) -> bool {
    !(step is Sleep)
}

impl RetryPolicy {
    /// The key-distribution service's policy: on status 429 wait ten seconds
    /// and ask again, without limit.
    pub fn kds() -> (p: RetryPolicy)
        ensures
            p.delay_secs == RATE_LIMIT_DELAY_SECS,
            p.retry_status == TOO_MANY_REQUESTS,
            p.max_attempts is None,
    {
        RetryPolicy {
            delay_secs: RATE_LIMIT_DELAY_SECS,
            retry_status: TOO_MANY_REQUESTS,
            max_attempts: None,
        }
    }
}

/// The state of one certificate fetch.
#[derive(Clone, Copy, Debug, PartialEq, Eq, Structural)]
pub struct Fetch {
    pub policy: RetryPolicy,
    /// Replies handled so far, held at `u64::MAX`.
    pub attempts: u64,
}

impl Fetch {
    /// A fetch that has sent no request yet.
    pub fn new(policy: RetryPolicy) -> (f: Fetch)
        ensures
            f.policy == policy,
            f.attempts == 0,
    {
        Fetch { policy, attempts: 0 }
    }

    /// Handles the reply to the latest request and says what to do next.
    /// A transport failure ends the fetch at once; a status other than the
    /// policy's retry status delivers the body, whatever the status; the
    /// retry status asks to wait and retry, until the attempts run out.
    pub fn on_reply(&mut self, reply: Reply) -> (s: Step)
        ensures
            s == step_of(old(self).policy, old(self).attempts, reply),
            final(self).policy == old(self).policy,
            final(self).attempts == count_up(old(self).attempts),
    {
        let attempts = if self.attempts < u64::MAX {
            self.attempts + 1
        } else {
            self.attempts
        };
        self.attempts = attempts;
        match reply {
            Reply::TransportFailed => Step::Fail(FetchError::Transport),
            Reply::Status(code) => {
                if code != self.policy.retry_status {
                    Step::Deliver
                } else {
                    match self.policy.max_attempts {
                        Some(m) => {
                            if attempts >= m {
                                Step::Fail(FetchError::RateLimited)
                            } else {
                                Step::Sleep(self.policy.delay_secs)
                            }
                        },
                        None => Step::Sleep(self.policy.delay_secs),
                    }
                }
            },
        }
    }
}

/// The steps that a fetch in state (`policy`, `attempts`) takes on the
/// replies `replies`, one step per reply, in order.
pub open spec fn steps_of(policy: RetryPolicy, attempts: u64, replies: Seq<Reply>) -> Seq<Step>
    decreases replies.len(),
{
    if replies.len() == 0 {
        Seq::empty()
    } else {
        seq![step_of(policy, attempts, replies[0])] + steps_of(
            policy,
            count_up(attempts),
            replies.drop_first(),
        )
    }
}

/// `k` replies with the retry status, then one with `last`.
pub open spec fn rate_limited_then(policy: RetryPolicy, k: nat, last: u16) -> Seq<Reply> {
    Seq::new(k, |i: int| Reply::Status(policy.retry_status)).push(Reply::Status(last))
}

/// Under a policy without an attempt limit, a server that rate limits `k`
/// times and then answers with any other status makes the fetch sleep `k`
/// times, each for the policy's delay, and then deliver that last response's
/// body; no step before the last ends the fetch.
pub proof fn lemma_retry_until_answer(policy: RetryPolicy, attempts: u64, k: nat, last: u16)
    requires
        policy.max_attempts is None,
        last != policy.retry_status,
    ensures
        steps_of(policy, attempts, rate_limited_then(policy, k, last)) == Seq::new(
            k,
            |i: int| Step::Sleep(policy.delay_secs),
        ).push(Step::Deliver),
    decreases k,
{
    let rs = rate_limited_then(policy, k, last);
    if k == 0 {
        assert(rs.drop_first() =~= Seq::<Reply>::empty());
        assert(rs[0] == Reply::Status(last));
        assert(steps_of(policy, count_up(attempts), rs.drop_first()) == Seq::<Step>::empty());
        assert(steps_of(policy, attempts, rs) =~= seq![Step::Deliver]);
    } else {
        lemma_retry_until_answer(policy, count_up(attempts), (k - 1) as nat, last);
        assert(rs.drop_first() =~= rate_limited_then(policy, (k - 1) as nat, last));
        assert(rs[0] == Reply::Status(policy.retry_status));
        assert(steps_of(policy, attempts, rs) =~= Seq::new(
            k,
            |i: int| Step::Sleep(policy.delay_secs),
        ).push(Step::Deliver));
    }
}

/// Whatever the policy and however many attempts came before, a transport
/// failure ends the fetch with a transport error and no retry.
pub proof fn lemma_transport_failure_is_final(policy: RetryPolicy, attempts: u64)
    ensures
        step_of(policy, attempts, Reply::TransportFailed) == Step::Fail(FetchError::Transport),
        is_final(step_of(policy, attempts, Reply::TransportFailed)),
{
}

} // verus!
