//! The handshake protocol: a bounded number of challenge/response attempts
//! against one candidate device.
//!
//! Opening the port and the per-attempt write/read are I/O, done by the
//! embedding program. After each attempt it hands the outcome — the reply
//! line, or `None` for a timeout or I/O failure — to [`Handshake::observe`],
//! which decides whether the handshake has succeeded, retries, or has
//! exhausted its budget. [`run_handshake`] drives a whole handshake against a
//! fixed outcome sequence (a device simulator).

use vstd::prelude::*;

use crate::protocol::{is_ack, spec_ack, spec_trim};

verus! {

/// Maximum number of challenge/response attempts per candidate device.
pub const MAX_ATTEMPTS: u64 = 20;

/// The error of a handshake that exhausted its attempt budget without ever
/// seeing the acknowledgement.
#[derive(Debug, Clone, Copy, PartialEq, Eq, Structural)]
pub struct HandshakeFailed;

/// What one attempt decides.
#[derive(Debug, Clone, Copy, PartialEq, Eq, Structural)]
pub enum Verdict {
    /// The reply was the acknowledgement: the handshake has succeeded.
    Accept,
    /// No acknowledgement, but attempts remain: challenge again.
    Retry,
    /// No acknowledgement and the budget is exhausted: the handshake failed.
    Fail,
}

/// Whether one attempt succeeds on observing `outcome`: it read a line and
/// that line, trimmed, is exactly the acknowledgement. A timeout or an I/O
/// failure (`None`) and a wrong reply are the same failed attempt.
pub open spec fn spec_attempt_succeeds(outcome: Option<Seq<char>>) -> bool {
    outcome matches Some(line) && spec_trim(line) == spec_ack()
}

/// The verdict after the attempt numbered `attempt` (counting from 0)
/// observes `outcome`.
pub open spec fn spec_verdict(attempt: u64, outcome: Option<Seq<char>>) -> Verdict {
    if spec_attempt_succeeds(outcome) {
        Verdict::Accept
    } else if attempt + 1 < MAX_ATTEMPTS {
        Verdict::Retry
    } else {
        Verdict::Fail
    }
}

/// `Some(k)` if attempt number `k - 1` (counting from `i`) is the first
/// successful one in `outcomes`, `None` if none from `i` on succeeds.
pub open spec fn spec_first_ack_from(outcomes: Seq<Option<Seq<char>>>, i: int) -> Option<int>
    decreases outcomes.len() - i,
{
    if i < 0 || i >= outcomes.len() {
        None
    } else if spec_attempt_succeeds(outcomes[i]) {
        Some(i + 1)
    } else {
        spec_first_ack_from(outcomes, i + 1)
    }
}

/// The number of round trips a handshake takes against a device whose
/// attempt outcomes are `outcomes` (attempt k observes `outcomes[k - 1]`; an
/// attempt past the end of the sequence observes nothing): `Some(k)` if
/// attempt k is the first to succeed and k is within the budget, `None` if
/// the handshake fails.
pub open spec fn spec_handshake_rounds(outcomes: Seq<Option<Seq<char>>>) -> Option<int> {
    match spec_first_ack_from(outcomes, 0) {
        Some(k) => if k <= MAX_ATTEMPTS { Some(k) } else { None },
        None => None,
    }
}

/// The running state of one handshake: how many attempts have completed.
pub struct Handshake {
    pub attempts: u64,
}

impl Handshake {
    /// A handshake that has not attempted anything yet.
    pub fn new() -> (r: Self)
        ensures
            r.attempts == 0,
    {
        Handshake { attempts: 0 }
    }

    /// Record the outcome of one challenge/response attempt — the reply
    /// line, or `None` for a timeout or an I/O failure — and decide.
    pub fn observe(&mut self, outcome: Option<&str>) -> (v: Verdict)
        requires
            old(self).attempts < MAX_ATTEMPTS,
        ensures
            final(self).attempts == old(self).attempts + 1,
            v == spec_verdict(
                old(self).attempts,
                match outcome {
                    Some(line) => Some(line@),
                    None => None,
                },
            ),
    {
        let succeeded = match outcome {
            Some(line) => is_ack(line),
            None => false,
        };
        self.attempts = self.attempts + 1;
        if succeeded {
            Verdict::Accept
        } else if self.attempts < MAX_ATTEMPTS {
            Verdict::Retry
        } else {
            Verdict::Fail
        }
    }
}

/// Run a whole handshake against a device simulator: attempt k observes
/// `outcomes[k - 1]`, and an attempt past the end of the sequence observes
/// nothing. Returns the number of round trips on success — exactly the first
/// successful attempt — and `HandshakeFailed` if no attempt within the
/// budget succeeds.
pub fn run_handshake(outcomes: &Vec<Option<String>>) -> (r: Result<u64, HandshakeFailed>)
    ensures
        match r {
            Ok(k) => spec_handshake_rounds(outcomes.deep_view()) == Some(k as int),
            Err(_) => spec_handshake_rounds(outcomes.deep_view()) is None,
        },
{
    let ghost model = outcomes.deep_view();
    let mut hs = Handshake::new();
    while hs.attempts < MAX_ATTEMPTS
        invariant
            hs.attempts < MAX_ATTEMPTS,
            model == outcomes.deep_view(),
            model.len() == outcomes@.len(),
            spec_first_ack_from(model, 0) == spec_first_ack_from(model, hs.attempts as int),
        decreases MAX_ATTEMPTS - hs.attempts,
    {
        let ghost attempt = hs.attempts as int;
        let outcome: Option<&str> = if (hs.attempts as usize) < outcomes.len() {
            match &outcomes[hs.attempts as usize] {
                Some(line) => Some(line.as_str()),
                None => None,
            }
        } else {
            None
        };
        let ghost obs: Option<Seq<char>> = match outcome {
            Some(line) => Some(line@),
            None => None,
        };
        let v = hs.observe(outcome);
        proof {
            assert(v == spec_verdict(attempt as u64, obs));
            if attempt < model.len() {
                assert(model[attempt] == outcomes@[attempt].deep_view());
                assert(obs == model[attempt]);
            } else {
                assert(obs is None);
            }
        }
        match v {
            Verdict::Accept => {
                proof {
                    assert(spec_first_ack_from(model, attempt) == Some(attempt + 1));
                }
                return Ok(hs.attempts);
            },
            Verdict::Retry => {
                proof {
                    assert(spec_first_ack_from(model, attempt) == spec_first_ack_from(
                        model,
                        attempt + 1,
                    ));
                }
            },
            Verdict::Fail => {
                proof {
                    assert(spec_first_ack_from(model, attempt) == spec_first_ack_from(
                        model,
                        attempt + 1,
                    ));
                    lemma_no_ack_from_max(model, attempt + 1);
                }
                return Err(HandshakeFailed);
            },
        }
    }
    // Every iteration whose verdict is `Retry` keeps the attempt count below
    // the budget, and the other verdicts return, so the loop condition holds
    // whenever the exit is reached; this point is unreachable.
    Err(HandshakeFailed)
}

/// From attempt number `MAX_ATTEMPTS` on, a first success — if any — is past
/// the budget.
proof fn lemma_no_ack_from_max(outcomes: Seq<Option<Seq<char>>>, i: int)
    requires
        i >= MAX_ATTEMPTS,
    ensures
        match spec_first_ack_from(outcomes, i) {
            Some(k) => k > MAX_ATTEMPTS,
            None => true,
        },
    decreases outcomes.len() - i,
{
    if 0 <= i < outcomes.len() && !spec_attempt_succeeds(outcomes[i]) {
        lemma_no_ack_from_max(outcomes, i + 1);
    }
}

/// The handshake law: against a device whose first acknowledgement comes on
/// attempt `k`, the handshake succeeds with exactly `k` round trips when `k`
/// is within the attempt budget, and fails when it is past it.
pub proof fn lemma_handshake_first_ack(outcomes: Seq<Option<Seq<char>>>, k: int)
    requires
        1 <= k <= outcomes.len(),
        spec_attempt_succeeds(outcomes[k - 1]),
        forall|j: int| 0 <= j < k - 1 ==> !spec_attempt_succeeds(outcomes[j]),
    ensures
        k <= MAX_ATTEMPTS ==> spec_handshake_rounds(outcomes) == Some(k),
        k > MAX_ATTEMPTS ==> spec_handshake_rounds(outcomes) is None,
{
    lemma_first_ack_reaches(outcomes, 0, k);
}

proof fn lemma_first_ack_reaches(outcomes: Seq<Option<Seq<char>>>, i: int, k: int)
    requires
        0 <= i <= k - 1,
        k <= outcomes.len(),
        spec_attempt_succeeds(outcomes[k - 1]),
        forall|j: int| i <= j < k - 1 ==> !spec_attempt_succeeds(outcomes[j]),
    ensures
        spec_first_ack_from(outcomes, i) == Some(k),
    decreases k - i,
{
    if i < k - 1 {
        lemma_first_ack_reaches(outcomes, i + 1, k);
    }
}

} // verus!
