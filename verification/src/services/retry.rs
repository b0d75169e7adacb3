//! The retry policy, and one exchange carried out under it.
//!
//! Every exchange gets up to three attempts. After a failed attempt `n` that
//! is not the last, the caller waits `2 * n` seconds before the next one. The
//! failure of the last attempt is the failure of the exchange.

use crate::services::exchange::{
    outcome_view, spec_interpret, Answer, AnswerView, Exchange, ExchangeView, HttpReply,
    HttpReplyView, ProviderError, ProviderErrorView,
};
use vstd::prelude::*;

verus! {

/// Attempts an exchange gets in all.
pub const MAX_ATTEMPTS: u32 = 3;

/// Seconds of waiting per attempt already made.
pub const BASE_DELAY_SECS: u64 = 2;

/// What follows a failed attempt.
#[derive(Debug, Clone, Copy, PartialEq, Eq, Structural)]
pub enum Backoff {
    /// Wait this many seconds, then try again.
    RetryAfter(u64),
    /// No attempt is left.
    GiveUp,
}

/// What follows the failure of attempt number `attempt`.
pub open spec fn spec_after_failure(attempt: u32) -> Backoff {
    if attempt < MAX_ATTEMPTS {
        Backoff::RetryAfter((BASE_DELAY_SECS * attempt) as u64)
    } else {
        Backoff::GiveUp
    }
}

/// What follows the failure of attempt number `attempt` (counted from 1).
pub fn after_failure(attempt: u32) -> (next: Backoff)
    ensures
        next == spec_after_failure(attempt),
{
    if attempt < MAX_ATTEMPTS {
        Backoff::RetryAfter(BASE_DELAY_SECS * (attempt as u64))
    } else {
        Backoff::GiveUp
    }
}

/// What the caller reports back while an exchange is under way.
#[derive(Debug)]
pub enum Event {
    /// The reply to the request it was asked to send.
    Reply(HttpReply),
    /// The wait it was asked for is over.
    Waited,
}

/// The model of an `Event`.
pub enum EventView {
    Reply(HttpReplyView),
    Waited,
}

impl View for Event {
    type V = EventView;

    open spec fn view(&self) -> EventView {
        match self {
            Event::Reply(reply) => EventView::Reply(reply@),
            Event::Waited => EventView::Waited,
        }
    }
}

/// An exchange under the retry policy: which attempt is current, and whether
/// the caller is to send it or to wait before it.
#[derive(Debug)]
pub struct Call {
    exchange: Exchange,
    attempt: u32,
    resting: bool,
}

/// The model of a `Call`.
pub struct CallView {
    pub exchange: ExchangeView,
    /// The attempt under way, or, while resting, the one that just failed.
    pub attempt: u32,
    /// Whether the caller is waiting out the delay after a failure.
    pub resting: bool,
}

impl CallView {
    /// Attempts are numbered 1 to 3, and a rest follows only an attempt that
    /// was not the last.
    pub open spec fn wf(self) -> bool {
        &&& 1 <= self.attempt <= MAX_ATTEMPTS
        &&& self.resting ==> self.attempt < MAX_ATTEMPTS
    }

    /// The first attempt of an exchange, about to be sent.
    pub open spec fn start(exchange: ExchangeView) -> CallView {
        CallView { exchange, attempt: 1, resting: false }
    }

    /// Seconds the caller is to wait now; zero while not resting.
    pub open spec fn wait(self) -> u64 {
        if self.resting {
            (BASE_DELAY_SECS * self.attempt) as u64
        } else {
            0
        }
    }

    /// The call after the outcome of the attempt under way is known.
    pub open spec fn settle(self, outcome: Result<AnswerView, ProviderErrorView>) -> CallStepView {
        match outcome {
            Ok(answer) => CallStepView::Finished(Ok(answer)),
            Err(error) => match spec_after_failure(self.attempt) {
                Backoff::RetryAfter(_) => CallStepView::Pending(
                    CallView { resting: true, ..self },
                ),
                Backoff::GiveUp => CallStepView::Finished(Err(error)),
            },
        }
    }

    /// The call after an event. An event that does not answer what the
    /// caller was asked to do changes nothing.
    pub open spec fn handle(self, event: EventView) -> CallStepView {
        match event {
            EventView::Reply(reply) => if self.resting {
                CallStepView::Pending(self)
            } else {
                self.settle(spec_interpret(self.exchange, reply))
            },
            EventView::Waited => if self.resting {
                CallStepView::Pending(
                    CallView { attempt: (self.attempt + 1) as u32, resting: false, ..self },
                )
            } else {
                CallStepView::Pending(self)
            },
        }
    }
}

impl View for Call {
    type V = CallView;

    closed spec fn view(&self) -> CallView {
        CallView { exchange: self.exchange@, attempt: self.attempt, resting: self.resting }
    }
}

/// Where a call stands after an event.
#[derive(Debug)]
pub enum CallStep {
    /// Still under way.
    Pending(Call),
    /// Over, with the answer or with the failure of the last attempt.
    Finished(Result<Answer, ProviderError>),
}

/// The model of a `CallStep`.
pub enum CallStepView {
    Pending(CallView),
    Finished(Result<AnswerView, ProviderErrorView>),
}

impl View for CallStep {
    type V = CallStepView;

    open spec fn view(&self) -> CallStepView {
        match self {
            CallStep::Pending(call) => CallStepView::Pending(call@),
            CallStep::Finished(outcome) => CallStepView::Finished(outcome_view(*outcome)),
        }
    }
}

impl Call {
    #[verifier::type_invariant]
    spec fn inv(self) -> bool {
        self@.wf()
    }

    /// The first attempt of `exchange`, about to be sent.
    pub fn new(exchange: Exchange) -> (call: Call)
        ensures
            call@ == CallView::start(exchange@),
    {
        Call { exchange, attempt: 1, resting: false }
    }

    /// The exchange this call carries out.
    pub fn exchange(&self) -> (exchange: &Exchange)
        ensures
            exchange@ == self@.exchange,
    {
        &self.exchange
    }

    /// Gives up the call for its exchange.
    pub fn into_exchange(self) -> (exchange: Exchange)
        ensures
            exchange@ == self@.exchange,
    {
        self.exchange
    }

    /// Number of the attempt under way, counted from 1.
    pub fn attempt(&self) -> (n: u32)
        ensures
            n == self@.attempt,
            1 <= n <= MAX_ATTEMPTS,
    {
        proof {
            use_type_invariant(self);
        }
        self.attempt
    }

    /// Whether the caller is to wait rather than send.
    pub fn is_resting(&self) -> (r: bool)
        ensures
            r == self@.resting,
    {
        self.resting
    }

    /// Seconds the caller is to wait now; zero while not resting.
    pub fn wait(&self) -> (seconds: u64)
        ensures
            seconds == self@.wait(),
    {
        proof {
            use_type_invariant(self);
        }
        if self.resting {
            BASE_DELAY_SECS * (self.attempt as u64)
        } else {
            0
        }
    }

    /// The call after the outcome of the attempt under way is known: over on
    /// success and on the failure of the third attempt, otherwise resting
    /// before the next attempt.
    pub fn settle(self, outcome: Result<Answer, ProviderError>) -> (step: CallStep)
        ensures
            step@ == self@.settle(outcome_view(outcome)),
            step matches CallStep::Pending(call) ==> call@.wf(),
    {
        proof {
            use_type_invariant(&self);
        }
        match outcome {
            Ok(answer) => CallStep::Finished(Ok(answer)),
            Err(error) => match after_failure(self.attempt) {
                Backoff::RetryAfter(_) => CallStep::Pending(
                    Call { exchange: self.exchange, attempt: self.attempt, resting: true },
                ),
                Backoff::GiveUp => CallStep::Finished(Err(error)),
            },
        }
    }

    /// The call after `event`. A reply while sending is judged and settles
    /// the attempt; the end of a wait while resting starts the next attempt;
    /// anything else changes nothing.
    pub fn handle(self, event: Event) -> (step: CallStep)
        ensures
            step@ == self@.handle(event@),
            step matches CallStep::Pending(call) ==> call@.wf(),
    {
        proof {
            use_type_invariant(&self);
        }
        match event {
            Event::Reply(reply) => if self.resting {
                CallStep::Pending(self)
            } else {
                let outcome = self.exchange.interpret(reply);
                self.settle(outcome)
            },
            Event::Waited => if self.resting {
                CallStep::Pending(
                    Call { exchange: self.exchange, attempt: self.attempt + 1, resting: false },
                )
            } else {
                CallStep::Pending(self)
            },
        }
    }
}

/// What a call did from some point on: how many attempts it made, the waits
/// it asked for between them, and how it ended (`None` while still under
/// way).
pub struct CallRun {
    pub attempts: nat,
    pub waits: Seq<u64>,
    pub result: Option<Result<AnswerView, ProviderErrorView>>,
}

/// The course of a call that is about to send, when the replies to its
/// successive attempts are `replies` and every wait it asks for is waited
/// out.
pub open spec fn spec_run(call: CallView, replies: Seq<HttpReplyView>) -> CallRun
    decreases replies.len(),
{
    if replies.len() == 0 {
        CallRun { attempts: 0, waits: Seq::empty(), result: None }
    } else {
        match call.handle(EventView::Reply(replies[0])) {
            CallStepView::Finished(outcome) => CallRun {
                attempts: 1,
                waits: Seq::empty(),
                result: Some(outcome),
            },
            CallStepView::Pending(resting) => match resting.handle(EventView::Waited) {
                CallStepView::Pending(next) => {
                    let rest = spec_run(next, replies.skip(1));
                    CallRun {
                        attempts: 1 + rest.attempts,
                        waits: seq![resting.wait()] + rest.waits,
                        result: rest.result,
                    }
                },
                CallStepView::Finished(outcome) => CallRun {
                    attempts: 1,
                    waits: Seq::empty(),
                    result: Some(outcome),
                },
            },
        }
    }
}

/// An exchange that fails at every attempt is attempted exactly three times,
/// with waits of 2 and then 4 seconds in between, and ends with the failure
/// of the third attempt.
pub proof fn law_three_failures_exhaust(exchange: ExchangeView, replies: Seq<HttpReplyView>)
    requires
        replies.len() >= 3,
        forall|i: int| 0 <= i < 3 ==> spec_interpret(exchange, #[trigger] replies[i]) is Err,
    ensures
        spec_run(CallView::start(exchange), replies).attempts == 3,
        spec_run(CallView::start(exchange), replies).waits == seq![2u64, 4u64],
        spec_run(CallView::start(exchange), replies).result == Some(
            spec_interpret(exchange, replies[2]),
        ),
{
    let first = CallView::start(exchange);
    let second = CallView { exchange, attempt: 2, resting: false };
    let third = CallView { exchange, attempt: 3, resting: false };
    let r1 = replies.skip(1);
    let r2 = r1.skip(1);
    assert(spec_interpret(exchange, replies[0]) is Err);
    assert(spec_interpret(exchange, replies[1]) is Err);
    assert(spec_interpret(exchange, replies[2]) is Err);
    assert(r1[0] == replies[1]);
    assert(r2[0] == replies[2]);
    assert(spec_run(third, r2).attempts == 1 && spec_run(third, r2).waits == Seq::<u64>::empty()
        && spec_run(third, r2).result == Some(spec_interpret(exchange, replies[2])));
    assert(spec_run(second, r1).attempts == 2 && spec_run(second, r1).waits =~= seq![4u64]
        && spec_run(second, r1).result == Some(spec_interpret(exchange, replies[2])));
    assert(spec_run(first, replies).waits =~= seq![2u64, 4u64]);
}

/// However the replies fall, a call makes at most as many attempts as the
/// policy leaves it, and asks for one wait between any two of them.
pub proof fn law_attempts_are_bounded(call: CallView, replies: Seq<HttpReplyView>)
    requires
        call.wf(),
        !call.resting,
    ensures
        spec_run(call, replies).attempts <= MAX_ATTEMPTS - call.attempt + 1,
        spec_run(call, replies).result is Some ==> spec_run(call, replies).waits.len() + 1
            == spec_run(call, replies).attempts,
    decreases replies.len(),
{
    if replies.len() > 0 {
        match call.handle(EventView::Reply(replies[0])) {
            CallStepView::Finished(_) => {},
            CallStepView::Pending(resting) => match resting.handle(EventView::Waited) {
                CallStepView::Pending(next) => {
                    law_attempts_are_bounded(next, replies.skip(1));
                },
                CallStepView::Finished(_) => {},
            },
        }
    }
}

/// A call that is answered at its first attempt ends there, without a wait.
pub proof fn law_success_ends_call(call: CallView, reply: HttpReplyView)
    requires
        !call.resting,
        spec_interpret(call.exchange, reply) is Ok,
    ensures
        call.handle(EventView::Reply(reply)) == CallStepView::Finished(
            spec_interpret(call.exchange, reply),
        ),
{
}

} // verus!
