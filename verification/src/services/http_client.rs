//! The retry policy of webhook delivery.
//!
//! A delivery makes at most `retry_attempts` HTTP requests. A 2xx response
//! ends it with success. A response of 500 or above, or a request that could
//! not be made at all, is retried after `retry_delay` milliseconds while
//! attempts remain. Any other response ends it with a client error.

use vstd::prelude::*;

use crate::config::HttpConfig;
use crate::error::{app_error, AppError, AppErrorView, ErrorKind};
use crate::platform::{status_display, status_text};
use crate::text::join2;

verus! {

/// Delivers webhooks under the retry policy of its configuration.
pub struct HttpClientService {
    pub config: HttpConfig,
}

/// What one HTTP request came back with.
pub enum SendOutcome {
    /// A response arrived with this status code.
    Response { status: u16 },
    /// No response: the token could not be had or the request failed.
    Failed { error: AppError },
}

/// `SendOutcome` as the contracts see it.
pub enum SendOutcomeView {
    Response { status: u16 },
    Failed { error: AppErrorView },
}

impl View for SendOutcome {
    type V = SendOutcomeView;

    open spec fn view(&self) -> SendOutcomeView {
        match self {
            SendOutcome::Response { status } => SendOutcomeView::Response { status: *status },
            SendOutcome::Failed { error } => SendOutcomeView::Failed { error: error@ },
        }
    }
}

/// What to do after an attempt.
pub enum RetryDecision {
    /// The response is a success: hand it to the caller.
    Deliver,
    /// Stop and report this error.
    Fail { error: AppError },
    /// Wait this many milliseconds, then make the next attempt.
    Retry { delay_ms: u64 },
}

/// `RetryDecision` as the contracts see it.
pub enum RetryDecisionView {
    Deliver,
    Fail { error: AppErrorView },
    Retry { delay_ms: u64 },
}

impl View for RetryDecision {
    type V = RetryDecisionView;

    open spec fn view(&self) -> RetryDecisionView {
        match self {
            RetryDecision::Deliver => RetryDecisionView::Deliver,
            RetryDecision::Fail { error } => RetryDecisionView::Fail { error: error@ },
            RetryDecision::Retry { delay_ms } => RetryDecisionView::Retry { delay_ms: *delay_ms },
        }
    }
}

/// Progress of one delivery: attempts made so far, the limit, the wait
/// between attempts, and the error of the last retried attempt.
pub struct RetryState {
    attempts_made: u8,
    max_attempts: u8,
    retry_delay_ms: u64,
    last_error: Option<AppError>,
}

/// `RetryState` as the contracts see it.
pub struct RetryView {
    pub made: nat,
    pub max: nat,
    pub delay_ms: u64,
    pub last_error: Option<AppErrorView>,
}

impl View for RetryState {
    type V = RetryView;

    closed spec fn view(&self) -> RetryView {
        RetryView {
            made: self.attempts_made as nat,
            max: self.max_attempts as nat,
            delay_ms: self.retry_delay_ms,
            last_error: match self.last_error {
                Some(e) => Some(e@),
                None => None,
            },
        }
    }
}

/// A status in 200..=299.
pub open spec fn is_success_status(status: u16) -> bool {
    200 <= status < 300
}

/// A status of 500 or above.
pub open spec fn is_server_error_status(status: u16) -> bool {
    status >= 500
}

/// A status that a response can carry.
pub open spec fn valid_status(status: u16) -> bool {
    100 <= status <= 999
}

/// An outcome that a `SendOutcome` can be.
pub open spec fn valid_outcome(o: SendOutcomeView) -> bool {
    match o {
        SendOutcomeView::Response { status } => valid_status(status),
        SendOutcomeView::Failed { .. } => true,
    }
}

/// An outcome after which another attempt is made, if one remains.
pub open spec fn is_retryable(o: SendOutcomeView) -> bool {
    match o {
        SendOutcomeView::Response { status } => !is_success_status(status) && is_server_error_status(status),
        SendOutcomeView::Failed { .. } => true,
    }
}

/// The error that an unsuccessful outcome stands for.
pub open spec fn outcome_error(o: SendOutcomeView) -> AppErrorView {
    match o {
        SendOutcomeView::Response { status } => if is_server_error_status(status) {
            app_error(ErrorKind::MessageProcessing, "Server error: "@ + status_display(status))
        } else {
            app_error(ErrorKind::MessageProcessing, "Client error: "@ + status_display(status))
        },
        SendOutcomeView::Failed { error } => error,
    }
}

/// The error reported when no attempt is left: that of the last retried
/// attempt, or a generic one when none was made.
pub open spec fn exhausted_error(last: Option<AppErrorView>) -> AppErrorView {
    match last {
        Some(e) => e,
        None => app_error(ErrorKind::MessageProcessing, "All retry attempts failed"@),
    }
}

/// A delivery that has not made any attempt yet.
pub open spec fn fresh_retry(max: nat, delay_ms: u64) -> RetryView {
    RetryView { made: 0, max, delay_ms, last_error: None }
}

/// Whether another attempt may be made.
pub open spec fn can_attempt(st: RetryView) -> bool {
    st.made < st.max
}

/// The state and decision after an attempt with outcome `o`.
pub open spec fn next_retry(st: RetryView, o: SendOutcomeView) -> (RetryView, RetryDecisionView) {
    let made = st.made + 1;
    if o matches SendOutcomeView::Response { status } && is_success_status(status) {
        (RetryView { made, ..st }, RetryDecisionView::Deliver)
    } else if is_retryable(o) {
        let st2 = RetryView { made, last_error: Some(outcome_error(o)), ..st };
        if made < st.max {
            (st2, RetryDecisionView::Retry { delay_ms: st.delay_ms })
        } else {
            (st2, RetryDecisionView::Fail { error: outcome_error(o) })
        }
    } else {
        (RetryView { made, ..st }, RetryDecisionView::Fail { error: outcome_error(o) })
    }
}

/// How a delivery ended when fed a sequence of outcomes: the number of
/// requests made, the number of waits, and the final decision (`None` when the
/// outcomes ran out while another attempt was due).
pub struct RetryRun {
    pub sends: nat,
    pub waits: nat,
    pub end: Option<RetryDecisionView>,
}

/// The run of a delivery from state `st` when its attempts come back with
/// `outcomes`, in order.
pub open spec fn run_retries(st: RetryView, outcomes: Seq<SendOutcomeView>) -> RetryRun
    decreases outcomes.len(),
{
    if !can_attempt(st) {
        RetryRun { sends: 0, waits: 0, end: Some(RetryDecisionView::Fail { error: exhausted_error(st.last_error) }) }
    } else if outcomes.len() == 0 {
        RetryRun { sends: 0, waits: 0, end: None }
    } else {
        let (st2, d) = next_retry(st, outcomes[0]);
        if d is Retry {
            let r = run_retries(st2, outcomes.drop_first());
            RetryRun { sends: r.sends + 1, waits: r.waits + 1, end: r.end }
        } else {
            RetryRun { sends: 1, waits: 0, end: Some(d) }
        }
    }
}

/// Law: a delivery waits only between two attempts. Whenever a run ends after
/// at least one request, it has waited exactly once less than it has sent.
pub proof fn law_waits_between_attempts(st: RetryView, outcomes: Seq<SendOutcomeView>)
    ensures
        run_retries(st, outcomes).end is Some && run_retries(st, outcomes).sends > 0
            ==> run_retries(st, outcomes).waits + 1 == run_retries(st, outcomes).sends,
        run_retries(st, outcomes).waits <= run_retries(st, outcomes).sends,
    decreases outcomes.len(),
{
    if can_attempt(st) && outcomes.len() > 0 {
        let (st2, d) = next_retry(st, outcomes[0]);
        if d is Retry {
            law_waits_between_attempts(st2, outcomes.drop_first());
            assert(can_attempt(st2));
            let r = run_retries(st2, outcomes.drop_first());
            if r.end is Some {
                assert(r.sends > 0);
            }
        }
    }
}

/// Law: a delivery never makes more requests than its attempts allow.
pub proof fn law_attempt_limit(st: RetryView, outcomes: Seq<SendOutcomeView>)
    requires
        st.made <= st.max,
    ensures
        st.made + run_retries(st, outcomes).sends <= st.max,
    decreases outcomes.len(),
{
    if can_attempt(st) && outcomes.len() > 0 {
        let (st2, d) = next_retry(st, outcomes[0]);
        if d is Retry {
            law_attempt_limit(st2, outcomes.drop_first());
        }
    }
}

proof fn lemma_exhausts_from(st: RetryView, outcomes: Seq<SendOutcomeView>)
    requires
        st.made <= st.max,
        outcomes.len() >= st.max - st.made,
        forall|i: int| 0 <= i < st.max - st.made ==> is_retryable(#[trigger] outcomes[i]),
    ensures
        run_retries(st, outcomes).sends == st.max - st.made,
        run_retries(st, outcomes).end == Some(RetryDecisionView::Fail {
            error: if st.made == st.max {
                exhausted_error(st.last_error)
            } else {
                outcome_error(outcomes[st.max - st.made - 1])
            },
        }),
    decreases st.max - st.made,
{
    if st.made < st.max {
        assert(is_retryable(outcomes[0]));
        let (st2, d) = next_retry(st, outcomes[0]);
        if st.made + 1 < st.max {
            let rest = outcomes.drop_first();
            assert forall|i: int| 0 <= i < st2.max - st2.made implies is_retryable(#[trigger] rest[i]) by {
                assert(rest[i] == outcomes[i + 1]);
            }
            lemma_exhausts_from(st2, rest);
            assert(rest[st2.max - st2.made - 1] == outcomes[st.max - st.made - 1]);
        }
    }
}

/// Law: when every attempt is retryable, a fresh delivery makes exactly
/// `max` requests and then fails with the error of the last one, or, with no
/// attempts allowed, fails at once with "All retry attempts failed".
pub proof fn law_exhausted_retries(max: nat, delay_ms: u64, outcomes: Seq<SendOutcomeView>)
    requires
        outcomes.len() >= max,
        forall|i: int| 0 <= i < max ==> is_retryable(#[trigger] outcomes[i]),
    ensures
        run_retries(fresh_retry(max, delay_ms), outcomes).sends == max,
        run_retries(fresh_retry(max, delay_ms), outcomes).end == Some(RetryDecisionView::Fail {
            error: if max == 0 {
                app_error(ErrorKind::MessageProcessing, "All retry attempts failed"@)
            } else {
                outcome_error(outcomes[max - 1])
            },
        }),
{
    lemma_exhausts_from(fresh_retry(max, delay_ms), outcomes);
}

proof fn lemma_stops_from(st: RetryView, outcomes: Seq<SendOutcomeView>, k: nat)
    requires
        st.made + k < st.max,
        k < outcomes.len(),
        forall|i: int| 0 <= i < k ==> is_retryable(#[trigger] outcomes[i]),
        !is_retryable(outcomes[k as int]),
    ensures
        run_retries(st, outcomes).sends == k + 1,
        run_retries(st, outcomes).waits == k,
        run_retries(st, outcomes).end == Some(
            if outcomes[k as int] matches SendOutcomeView::Response { status } && is_success_status(status) {
                RetryDecisionView::Deliver
            } else {
                RetryDecisionView::Fail { error: outcome_error(outcomes[k as int]) }
            },
        ),
    decreases k,
{
    if k > 0 {
        assert(is_retryable(outcomes[0]));
        let (st2, d) = next_retry(st, outcomes[0]);
        let rest = outcomes.drop_first();
        assert forall|i: int| 0 <= i < (k - 1) as nat implies is_retryable(#[trigger] rest[i]) by {
            assert(rest[i] == outcomes[i + 1]);
        }
        assert(rest[(k - 1) as int] == outcomes[k as int]);
        lemma_stops_from(st2, rest, (k - 1) as nat);
    }
}

/// Law: the first attempt that is not retried decides the delivery. If the
/// first `k` attempts are retried and attempt `k` (counted from 0, within the
/// limit) is not, the delivery makes `k + 1` requests with `k` waits, and
/// ends with success on a 2xx status, or fails with "Client error: ..."
/// on any other status below 500.
pub proof fn law_first_final_outcome_decides(
    max: nat,
    delay_ms: u64,
    outcomes: Seq<SendOutcomeView>,
    k: nat,
)
    requires
        k < max,
        k < outcomes.len(),
        forall|i: int| 0 <= i < k ==> is_retryable(#[trigger] outcomes[i]),
        !is_retryable(outcomes[k as int]),
    ensures
        run_retries(fresh_retry(max, delay_ms), outcomes).sends == k + 1,
        run_retries(fresh_retry(max, delay_ms), outcomes).waits == k,
        run_retries(fresh_retry(max, delay_ms), outcomes).end == Some(
            if outcomes[k as int] matches SendOutcomeView::Response { status } && is_success_status(status) {
                RetryDecisionView::Deliver
            } else {
                RetryDecisionView::Fail { error: outcome_error(outcomes[k as int]) }
            },
        ),
        match outcomes[k as int] {
            SendOutcomeView::Response { status } => !is_success_status(status) ==> outcome_error(
                outcomes[k as int],
            ) == app_error(ErrorKind::MessageProcessing, "Client error: "@ + status_display(status)),
            SendOutcomeView::Failed { .. } => false,
        },
{
    lemma_stops_from(fresh_retry(max, delay_ms), outcomes, k);
}

impl RetryState {
    /// A delivery allowed `max_attempts` requests, `retry_delay_ms` apart.
    pub fn new(max_attempts: u8, retry_delay_ms: u64) -> (r: RetryState)
        ensures
            r@ == fresh_retry(max_attempts as nat, retry_delay_ms),
    {
        RetryState { attempts_made: 0, max_attempts, retry_delay_ms, last_error: None }
    }

    /// Whether another attempt may be made.
    pub fn can_attempt(&self) -> (r: bool)
        ensures
            r == can_attempt(self@),
    {
        self.attempts_made < self.max_attempts
    }

    /// The number, counted from 1, of the attempt about to be made.
    pub fn next_attempt_number(&self) -> (r: u8)
        requires
            can_attempt(self@),
        ensures
            r == self@.made + 1,
    {
        self.attempts_made + 1
    }

    /// Records the outcome of the attempt just made and says what to do next.
    pub fn record(&mut self, outcome: SendOutcome) -> (d: RetryDecision)
        requires
            can_attempt(old(self)@),
            valid_outcome(outcome@),
        ensures
            (final(self)@, d@) == next_retry(old(self)@, outcome@),
    {
        let made = self.attempts_made + 1;
        self.attempts_made = made;
        match outcome {
            SendOutcome::Response { status } => {
                if 200 <= status && status < 300 {
                    RetryDecision::Deliver
                } else if status >= 500 {
                    let text = status_text(status);
                    let error = AppError::message_processing(join2("Server error: ", text.as_str()).as_str());
                    self.retry_or_fail(error)
                } else {
                    let text = status_text(status);
                    RetryDecision::Fail {
                        error: AppError::message_processing(join2("Client error: ", text.as_str()).as_str()),
                    }
                }
            },
            SendOutcome::Failed { error } => self.retry_or_fail(error),
        }
    }

    fn retry_or_fail(&mut self, error: AppError) -> (d: RetryDecision)
        ensures
            final(self)@ == (RetryView { last_error: Some(error@), ..old(self)@ }),
            d@ == (if old(self)@.made < old(self)@.max {
                RetryDecisionView::Retry { delay_ms: old(self)@.delay_ms }
            } else {
                RetryDecisionView::Fail { error: error@ }
            }),
    {
        if self.attempts_made < self.max_attempts {
            self.last_error = Some(error);
            RetryDecision::Retry { delay_ms: self.retry_delay_ms }
        } else {
            let reported = error.duplicate();
            self.last_error = Some(error);
            RetryDecision::Fail { error: reported }
        }
    }

    /// The error to report when no attempt may be made any more.
    pub fn give_up(self) -> (e: AppError)
        ensures
            e@ == exhausted_error(self@.last_error),
    {
        match self.last_error {
            Some(e) => e,
            None => AppError::message_processing("All retry attempts failed"),
        }
    }
}

impl HttpClientService {
    /// A service with the given configuration.
    pub fn new(config: HttpConfig) -> (r: HttpClientService)
        ensures
            r.config == config,
    {
        HttpClientService { config }
    }

    /// The state of a new delivery under this service's retry policy.
    pub fn retry_state(&self) -> (r: RetryState)
        ensures
            r@ == fresh_retry(self.config.retry_attempts as nat, self.config.retry_delay),
    {
        RetryState::new(self.config.retry_attempts, self.config.retry_delay)
    }
}

} // verus!
