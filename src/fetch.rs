//! The retry policy of one page retrieval: which attempt result ends it and how.
use vstd::prelude::*;

use crate::outcome::ScrapError;

verus! {

/// What one network attempt came back with.
#[derive(Debug, Clone, PartialEq, Eq)]
pub enum Attempt {
    /// The server answered with this status.
    Response { status: u16 },
    /// The attempt ran past its timeout.
    TimedOut,
    /// Any other transport failure, described.
    Failed { message: String },
}

/// What to do after an attempt.
#[derive(Debug, Clone, PartialEq, Eq)]
pub enum Step {
    /// The response is good: hand its body onward.
    Deliver,
    /// Try again.
    Retry,
    /// Give up on this page with this error.
    Fail(ScrapError),
}

/// A client or a server error status.
pub open spec fn is_error_status(status: u16) -> bool {
    400 <= status < 600
}

/// The step after attempt `a`, when `retries` timeouts have already been retried.
pub open spec fn decide(max_retries: nat, retries: nat, a: Attempt) -> Step {
    match a {
        Attempt::Response { status } => if is_error_status(status) {
            Step::Fail(ScrapError::HttpStatus(status))
        } else {
            Step::Deliver
        },
        Attempt::TimedOut => if retries >= max_retries {
            Step::Fail(ScrapError::RetryExhausted)
        } else {
            Step::Retry
        },
        Attempt::Failed { message } => Step::Fail(ScrapError::Transport(message)),
    }
}

/// Feeds `attempts` in order to a retrieval that has already retried `retries`
/// timeouts: how many attempts it makes, and how it ends (`Ok` to deliver the
/// response), or `None` if the attempts run out before it ends.
pub open spec fn run_attempts(max_retries: nat, retries: nat, attempts: Seq<Attempt>) -> (nat, Option<
    Result<(), ScrapError>,
>)
    decreases attempts.len(),
{
    if attempts.len() == 0 {
        (0, None)
    } else {
        match decide(max_retries, retries, attempts[0]) {
            Step::Deliver => (1, Some(Ok(()))),
            Step::Fail(e) => (1, Some(Err(e))),
            Step::Retry => {
                let (n, end) = run_attempts(max_retries, retries + 1, attempts.drop_first());
                (n + 1, end)
            },
        }
    }
}

/// The retry state of one retrieval.
pub struct Fetcher {
    /// How many times a timed-out attempt may be repeated.
    pub max_retries: u32,
    /// How many timed-out attempts have been repeated so far.
    pub retries: u32,
}

impl Fetcher {
    /// Never more retries than the budget.
    pub open spec fn wf(&self) -> bool {
        self.retries <= self.max_retries
    }

    /// A fresh retrieval with the given retry budget.
    pub fn new(max_retries: u32) -> (r: Fetcher)
        ensures
            r.max_retries == max_retries,
            r.retries == 0,
            r.wf(),
    {
        Fetcher { max_retries, retries: 0 }
    }

    /// Records one attempt and says what comes next: a good response is
    /// delivered, an error status or a transport failure ends it at once, and a
    /// timeout is retried while the budget lasts.
    pub fn on_attempt(&mut self, a: Attempt) -> (r: Step)
        requires
            old(self).wf(),
        ensures
            r == decide(old(self).max_retries as nat, old(self).retries as nat, a),
            final(self).max_retries == old(self).max_retries,
            final(self).retries == if r is Retry {
                old(self).retries + 1
            } else {
                old(self).retries as int
            },
            final(self).wf(),
    {
        match a {
            Attempt::Response { status } => {
                if 400 <= status && status < 600 {
                    Step::Fail(ScrapError::HttpStatus(status))
                } else {
                    Step::Deliver
                }
            },
            Attempt::TimedOut => {
                if self.retries >= self.max_retries {
                    Step::Fail(ScrapError::RetryExhausted)
                } else {
                    self.retries = self.retries + 1;
                    Step::Retry
                }
            },
            Attempt::Failed { message } => Step::Fail(ScrapError::Transport(message)),
        }
    }
}

/// A retrieval makes at most `max_retries + 1` attempts, whatever they return.
pub proof fn lemma_attempts_bounded(max_retries: nat, retries: nat, attempts: Seq<Attempt>)
    requires
        retries <= max_retries,
    ensures
        run_attempts(max_retries, retries, attempts).0 <= max_retries + 1 - retries,
    decreases attempts.len(),
{
    if attempts.len() > 0 {
        if decide(max_retries, retries, attempts[0]) is Retry {
            lemma_attempts_bounded(max_retries, retries + 1, attempts.drop_first());
        }
    }
}

proof fn lemma_timeouts_from(max_retries: nat, retries: nat, attempts: Seq<Attempt>)
    requires
        retries <= max_retries,
        attempts.len() >= max_retries + 1 - retries,
        forall|i: int| 0 <= i < max_retries + 1 - retries ==> #[trigger] attempts[i] is TimedOut,
    ensures
        run_attempts(max_retries, retries, attempts) == (
            (max_retries + 1 - retries) as nat,
            Some(Err::<(), ScrapError>(ScrapError::RetryExhausted)),
        ),
    decreases max_retries - retries,
{
    assert(attempts[0] is TimedOut);
    if retries < max_retries {
        let rest = attempts.drop_first();
        assert forall|i: int| 0 <= i < max_retries + 1 - (retries + 1) implies #[trigger] rest[i] is TimedOut by {
            assert(rest[i] == attempts[i + 1]);
        }
        lemma_timeouts_from(max_retries, retries + 1, rest);
    }
}

/// With a budget of `max_retries`, attempts that all time out are tried exactly
/// `max_retries + 1` times, and the retrieval ends with `RetryExhausted`.
pub proof fn lemma_timeouts_exhaust_budget(max_retries: nat, attempts: Seq<Attempt>)
    requires
        attempts.len() >= max_retries + 1,
        forall|i: int| 0 <= i < attempts.len() ==> #[trigger] attempts[i] is TimedOut,
    ensures
        run_attempts(max_retries, 0, attempts) == (
            max_retries + 1,
            Some(Err::<(), ScrapError>(ScrapError::RetryExhausted)),
        ),
{
    lemma_timeouts_from(max_retries, 0, attempts);
}

/// A transport failure other than a timeout ends the retrieval after that one
/// attempt with `Transport`, whatever the budget.
pub proof fn lemma_transport_not_retried(max_retries: nat, message: String, rest: Seq<Attempt>)
    ensures
        run_attempts(max_retries, 0, seq![Attempt::Failed { message }] + rest) == (
            1nat,
            Some(Err::<(), ScrapError>(ScrapError::Transport(message))),
        ),
{
    assert((seq![Attempt::Failed { message }] + rest)[0] == Attempt::Failed { message });
}

/// An error status ends the retrieval after that one attempt with `HttpStatus`,
/// whatever the budget.
pub proof fn lemma_error_status_not_retried(max_retries: nat, status: u16, rest: Seq<Attempt>)
    requires
        is_error_status(status),
    ensures
        run_attempts(max_retries, 0, seq![Attempt::Response { status }] + rest) == (
            1nat,
            Some(Err::<(), ScrapError>(ScrapError::HttpStatus(status))),
        ),
{
    assert((seq![Attempt::Response { status }] + rest)[0] == Attempt::Response { status });
}

} // verus!
