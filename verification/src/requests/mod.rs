//! What follows a request: reading the page, and deciding on a retry.
//!
//! Sending the form and waiting are left to the caller. This module holds
//! the decisions between them: a [`Backoff`] is told what came of each
//! attempt and answers with the next [`Action`], to wait and send again or
//! to finish. A failed attempt is answered by a retry while the waiting
//! done so far and the next delay together stay within the ceiling; delays
//! double from one second on, so the fourth failure in a row is final.

pub mod diagnostics;
pub mod parse_selectors;
pub mod parsers;

use crate::errors::SIAError;
use crate::models::licence_state::{LicenseRecord, LicenseState};
use crate::requests::parse_selectors::{NO_RESULTS_NOTICE, TOO_MANY_RESULTS_NOTICE};
use crate::requests::parsers::{parse, parsed, views_of};
use crate::text::contains_text;
use vstd::prelude::*;

verus! {

/// The delay before the first retry, in seconds.
pub const INITIAL_DELAY: u64 = 1;

/// The most that all delays of one dispatch may add up to, in seconds.
pub const BACKOFF_CEILING: u64 = 8;

/// What came of one attempt to send the form.
#[derive(Debug, Clone, PartialEq, Eq)]
pub enum Attempt {
    /// The request was not answered: no connection, no name resolution, a
    /// timeout.
    TransportFailure,
    /// The server answered.
    Response { status: u16, body: String },
}

/// What the dispatcher does next.
#[derive(Debug, PartialEq, Eq)]
pub enum Action {
    /// Wait for `delay` seconds, then send the form again.
    Retry { delay: u64 },
    /// Stop, with this result.
    Finish(Result<Vec<LicenseState>, SIAError>),
}

/// What an [`Action`] holds, with each licence as a record.
pub ghost enum Decision {
    Retry { delay: u64 },
    Finish(Result<Seq<LicenseRecord>, SIAError>),
}

/// The state of one dispatch between attempts.
#[derive(Debug, Clone, Copy, PartialEq, Eq, Structural)]
pub struct Backoff {
    /// The delay before the next retry, in seconds.
    pub delay: u64,
    /// The sum of the delays waited so far, in seconds.
    pub waited: u64,
}

/// What a result holds, with each licence as a record.
pub open spec fn outcome_of(result: Result<Vec<LicenseState>, SIAError>) -> Result<
    Seq<LicenseRecord>,
    SIAError,
> {
    match result {
        Ok(licenses) => Ok(views_of(licenses@)),
        Err(e) => Err(e),
    }
}

/// The result that the caller sees for a reading of the page: the two
/// notices count as an empty list of licences, anything else stands.
pub open spec fn settled(outcome: Result<Seq<LicenseRecord>, SIAError>) -> Result<
    Seq<LicenseRecord>,
    SIAError,
> {
    match outcome {
        Ok(records) => Ok(records),
        Err(e) => if e.recoverable() {
            Ok(Seq::empty())
        } else {
            Err(e)
        },
    }
}

/// Whether a status is one of success, 200 to 299.
pub open spec fn is_success(status: u16) -> bool {
    200 <= status <= 299
}

impl View for Action {
    type V = Decision;

    open spec fn view(&self) -> Decision {
        match self {
            Action::Retry { delay } => Decision::Retry { delay: *delay },
            Action::Finish(result) => Decision::Finish(outcome_of(*result)),
        }
    }
}

impl Attempt {
    /// The failure that this attempt stands for, if it is one: a request
    /// that was not answered, or an answer with a status outside 200 to
    /// 299.
    pub open spec fn failure(self) -> Option<SIAError> {
        match self {
            Attempt::TransportFailure => Some(SIAError::TransportFailed),
            Attempt::Response { status, body } => if is_success(status) {
                None
            } else {
                Some(SIAError::ServerRejected(status))
            },
        }
    }

    /// The page that came with the answer; empty where there was none.
    pub open spec fn page(self) -> Seq<char> {
        match self {
            Attempt::TransportFailure => Seq::empty(),
            Attempt::Response { status, body } => body@,
        }
    }
}

impl Backoff {
    /// The state before the first attempt.
    pub open spec fn fresh() -> Backoff {
        Backoff { delay: INITIAL_DELAY, waited: 0 }
    }

    /// Waiting for the next delay would take the sum of the delays over
    /// the ceiling.
    pub open spec fn exhausted(self) -> bool {
        self.waited + self.delay > BACKOFF_CEILING
    }

    /// The state after the next delay has been waited: the delay is added
    /// to the sum and doubled.
    pub open spec fn after_retry(self) -> Backoff {
        Backoff { delay: (2 * self.delay) as u64, waited: (self.waited + self.delay) as u64 }
    }

    /// The state and the decision that follow an attempt.
    ///
    /// An answer with a status of success ends the dispatch with what the
    /// page holds, and is never retried. A failure is retried after the
    /// next delay, unless the state is exhausted: then the failure is the
    /// result.
    pub open spec fn step(self, attempt: Attempt) -> (Backoff, Decision) {
        match attempt.failure() {
            None => (self, Decision::Finish(settled(parsed(attempt.page())))),
            Some(e) => if self.exhausted() {
                (self, Decision::Finish(Err(e)))
            } else {
                (self.after_retry(), Decision::Retry { delay: self.delay })
            },
        }
    }

    /// The result of a dispatch to which the attempts come out as listed,
    /// or `None` where the list ends before the dispatch does.
    pub open spec fn run(self, attempts: Seq<Attempt>) -> Option<
        Result<Seq<LicenseRecord>, SIAError>,
    >
        decreases attempts.len(),
    {
        if attempts.len() == 0 {
            None
        } else {
            match self.step(attempts.first()) {
                (_, Decision::Finish(result)) => Some(result),
                (next, Decision::Retry { delay }) => next.run(attempts.drop_first()),
            }
        }
    }

    /// The number of attempts that a dispatch makes where the attempts
    /// come out as listed: up to and with the one that ends it.
    pub open spec fn attempts_made(self, attempts: Seq<Attempt>) -> nat
        decreases attempts.len(),
    {
        if attempts.len() == 0 {
            0
        } else {
            match self.step(attempts.first()) {
                (_, Decision::Finish(result)) => 1,
                (next, Decision::Retry { delay }) => 1 + next.attempts_made(
                    attempts.drop_first(),
                ),
            }
        }
    }

    /// The state before the first attempt.
    pub fn new() -> (state: Backoff)
        ensures
            state == Backoff::fresh(),
    {
        Backoff { delay: INITIAL_DELAY, waited: 0 }
    }

    /// Whether a failure in this state is final.
    pub fn is_exhausted(&self) -> (r: bool)
        ensures
            r == self.exhausted(),
    {
        self.waited > BACKOFF_CEILING || self.delay > BACKOFF_CEILING - self.waited
    }

    /// Takes what came of an attempt and decides what to do next.
    pub fn on_attempt(&mut self, attempt: Attempt) -> (action: Action)
        ensures
            (*final(self), action@) == old(self).step(attempt),
    {
        match attempt {
            Attempt::Response { status, body } => {
                if 200 <= status && status <= 299 {
                    Action::Finish(settle(parse(body.as_str())))
                } else {
                    self.on_failure(SIAError::ServerRejected(status))
                }
            },
            Attempt::TransportFailure => self.on_failure(SIAError::TransportFailed),
        }
    }

    /// Decides on a retry after a failure.
    fn on_failure(&mut self, failure: SIAError) -> (action: Action)
        ensures
            old(self).exhausted() ==> *final(self) == *old(self) && action == Action::Finish(
                Err(failure),
            ),
            !old(self).exhausted() ==> *final(self) == old(self).after_retry() && action == (
            Action::Retry { delay: old(self).delay }),
    {
        if self.is_exhausted() {
            Action::Finish(Err(failure))
        } else {
            let delay: u64 = self.delay;
            self.waited = self.waited + delay;
            self.delay = 2 * delay;
            Action::Retry { delay }
        }
    }
}

impl Default for Backoff {
    /// The state before the first attempt.
    fn default() -> (state: Self)
        ensures
            state == Backoff::fresh(),
    {
        Backoff::new()
    }
}

/// Turns a reading of the page into the result that the caller sees: the
/// two notices become an empty list, anything else stands.
pub fn settle(result: Result<Vec<LicenseState>, SIAError>) -> (r: Result<
    Vec<LicenseState>,
    SIAError,
>)
    ensures
        outcome_of(r) == settled(outcome_of(result)),
        result is Ok ==> r == result,
{
    match result {
        Ok(licenses) => Ok(licenses),
        Err(e) => {
            if e.is_recoverable() {
                let none: Vec<LicenseState> = Vec::new();
                assert(views_of(none@) =~= Seq::<LicenseRecord>::empty());
                Ok(none)
            } else {
                Err(e)
            }
        },
    }
}

impl Backoff {
    /// The state after `n` retries of a fresh dispatch.
    pub open spec fn after_retries(n: nat) -> Backoff
        decreases n,
    {
        if n == 0 {
            Backoff::fresh()
        } else {
            Backoff::after_retries((n - 1) as nat).after_retry()
        }
    }

    /// Every attempt of the list is a failure.
    pub open spec fn all_failed(attempts: Seq<Attempt>) -> bool {
        forall|i: int| 0 <= i < attempts.len() ==> (#[trigger] attempts[i]).failure() is Some
    }
}

/// `result` is what ends a dispatch of the fields to the address: there
/// are one to four attempts, each of which `post_form` may make with
/// them, such that a fresh dispatch to which the attempts come out in
/// this order ends with the last of them, and with `result`.
pub open spec fn ends_dispatch<P: Fn(&str, &Vec<(String, String)>) -> Attempt>(
    post_form: P,
    url: &str,
    fields: &Vec<(String, String)>,
    result: Result<Vec<LicenseState>, SIAError>,
) -> bool {
    exists|attempts: Seq<Attempt>|
        {
            &&& 1 <= attempts.len() <= 4
            &&& forall|i: int|
                0 <= i < attempts.len() ==> call_ensures(
                    post_form,
                    (url, fields),
                    #[trigger] attempts[i],
                )
            &&& #[trigger] Backoff::fresh().run(attempts) == Some(outcome_of(result))
            &&& Backoff::fresh().attempts_made(attempts) == attempts.len()
        }
}

/// Where a fresh dispatch has met nothing but failures, at most three of
/// them, the next attempt decides: the dispatch ends with it if the
/// state after so many retries ends on it, and goes on otherwise.
pub proof fn lemma_run_after_failures(failed: Seq<Attempt>, next: Attempt)
    requires
        failed.len() <= 3,
        Backoff::all_failed(failed),
    ensures
        Backoff::fresh().attempts_made(failed.push(next)) == failed.len() + 1,
        Backoff::fresh().run(failed.push(next)) == (match Backoff::after_retries(
            failed.len(),
        ).step(next).1 {
            Decision::Finish(result) => Some(result),
            Decision::Retry { delay } => None,
        }),
{
    let all = failed.push(next);
    let rest1 = all.drop_first();
    let rest2 = rest1.drop_first();
    let rest3 = rest2.drop_first();
    reveal_with_fuel(Backoff::run, 6);
    reveal_with_fuel(Backoff::attempts_made, 6);
    reveal_with_fuel(Backoff::after_retries, 5);
}

/// Posts a form until the dispatch ends: makes an attempt with
/// `post_form`, and, as long as [`Backoff`] decides so, waits with `wait`
/// and makes another.
///
/// `post_form` posts the fields to the address once and tells what came of
/// it; `wait` waits for the number of seconds it is given, which is 1, 2
/// or 4. The dispatch ends with the fourth attempt at the latest. Its
/// result is what `Backoff` decided on the last attempt made: what the
/// page of a successful answer holds, or the failure that used up the
/// retries.
pub fn dispatch<P, W>(url: &str, fields: &Vec<(String, String)>, post_form: P, wait: W) -> (result:
    Result<Vec<LicenseState>, SIAError>) where
    P: Fn(&str, &Vec<(String, String)>) -> Attempt,
    W: Fn(u64),

    requires
        call_requires(post_form, (url, fields)),
        forall|delay: u64| 1 <= delay <= 4 ==> call_requires(wait, (delay,)),
    ensures
        ends_dispatch(post_form, url, fields, result),
{
    let mut state = Backoff::new();
    let ghost mut failed: Seq<Attempt> = Seq::empty();
    loop
        invariant
            failed.len() <= 3,
            Backoff::all_failed(failed),
            state == Backoff::after_retries(failed.len()),
            forall|i: int|
                0 <= i < failed.len() ==> call_ensures(post_form, (url, fields), #[trigger] failed[i]),
            call_requires(post_form, (url, fields)),
            forall|delay: u64| 1 <= delay <= 4 ==> call_requires(wait, (delay,)),
        decreases 4 - failed.len(),
    {
        let attempt = post_form(url, fields);
        let ghost made = attempt;
        proof {
            reveal_with_fuel(Backoff::after_retries, 5);
            lemma_run_after_failures(failed, made);
        }
        match state.on_attempt(attempt) {
            Action::Finish(result) => {
                assert(Backoff::fresh().run(failed.push(made)) == Some(outcome_of(result)));
                return result;
            },
            Action::Retry { delay } => {
                wait(delay);
                proof {
                    failed = failed.push(made);
                }
            },
        }
    }
}

/// A fresh dispatch that meets failure after failure waits one second,
/// then two, then four, and ends at the fourth failure, with that failure
/// as its result. Its delays add up to seven seconds.
pub proof fn lemma_fourth_failure_is_final(a1: Attempt, a2: Attempt, a3: Attempt, a4: Attempt)
    requires
        a1.failure() is Some,
        a2.failure() is Some,
        a3.failure() is Some,
        a4.failure() is Some,
    ensures
        ({
            let s0 = Backoff::fresh();
            let (s1, d1) = s0.step(a1);
            let (s2, d2) = s1.step(a2);
            let (s3, d3) = s2.step(a3);
            let (s4, d4) = s3.step(a4);
            &&& d1 == Decision::Retry { delay: 1 }
            &&& d2 == Decision::Retry { delay: 2 }
            &&& d3 == Decision::Retry { delay: 4 }
            &&& d4 == Decision::Finish(Err(a4.failure().unwrap()))
            &&& s4 == s3
            &&& s3.waited == 7
        }),
        Backoff::fresh().run(seq![a1, a2, a3, a4]) == Some(
            Err::<Seq<LicenseRecord>, SIAError>(a4.failure().unwrap()),
        ),
        Backoff::fresh().attempts_made(seq![a1, a2, a3, a4]) == 4,
{
    let attempts = seq![a1, a2, a3, a4];
    let rest1 = attempts.drop_first();
    let rest2 = rest1.drop_first();
    let rest3 = rest2.drop_first();
    assert(rest1.first() == a2 && rest2.first() == a3 && rest3.first() == a4);
    reveal_with_fuel(Backoff::run, 5);
    reveal_with_fuel(Backoff::attempts_made, 5);
}

/// However the attempts come out, a fresh dispatch makes at most four of
/// them: a list of four attempts or more always holds the one that ends
/// the dispatch, and no attempt after that one is made.
pub proof fn lemma_at_most_four_attempts(attempts: Seq<Attempt>)
    ensures
        Backoff::fresh().attempts_made(attempts) <= 4,
        attempts.len() >= 4 ==> Backoff::fresh().run(attempts) is Some,
        Backoff::fresh().run(attempts) is None ==> Backoff::fresh().attempts_made(attempts)
            == attempts.len(),
{
    let rest1 = attempts.drop_first();
    let rest2 = rest1.drop_first();
    let rest3 = rest2.drop_first();
    reveal_with_fuel(Backoff::run, 5);
    reveal_with_fuel(Backoff::attempts_made, 5);
}

/// An answer with a status of success ends the dispatch in every state,
/// whatever the page holds, and the result is never one of the two
/// notices: those have become an empty list.
pub proof fn lemma_success_is_final(state: Backoff, status: u16, body: String)
    requires
        is_success(status),
    ensures
        ({
            let (next, decision) = state.step(Attempt::Response { status, body });
            &&& next == state
            &&& decision == Decision::Finish(settled(parsed(body@)))
            &&& decision matches Decision::Finish(Err(e)) ==> !e.recoverable()
            &&& (parsed(body@) == Err::<Seq<LicenseRecord>, SIAError>(SIAError::NoLicensesFound)
                || parsed(body@) == Err::<Seq<LicenseRecord>, SIAError>(SIAError::TooManyResults))
                ==> decision == Decision::Finish(Ok(Seq::empty()))
        }),
{
}

/// A page that shows one of the two notices counts as an empty list of
/// licences, whatever else it holds, and ends the dispatch in every
/// state when it comes with a status of success.
pub proof fn lemma_notices_are_empty_results(state: Backoff, status: u16, body: String)
    requires
        is_success(status),
        contains_text(body@, NO_RESULTS_NOTICE@) || contains_text(body@, TOO_MANY_RESULTS_NOTICE@),
    ensures
        settled(parsed(body@)) == Ok::<Seq<LicenseRecord>, SIAError>(Seq::empty()),
        state.step(Attempt::Response { status, body }) == (
            state,
            Decision::Finish(Ok(Seq::empty())),
        ),
{
}

} // verus!
