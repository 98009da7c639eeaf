//! The decision logic of the retry loop.
//!
//! The loop itself launches the command, waits for it, and asks
//! [`next_step`] what to do with the outcome: stop on success, abort on a
//! fatal launch or wait error, and otherwise retry, pausing first when a
//! wait is configured. The spec functions here say what a whole run does
//! when successive attempts produce a given sequence of outcomes.

use vstd::prelude::*;
use crate::duration::Dur;

verus! {

/// What one attempt — one launch-and-wait cycle — came to.
#[derive(Clone, Copy, Debug, PartialEq, Eq)]
pub enum AttemptOutcome {
    /// The child ran to termination and its exit status was classified.
    Exited { success: bool },
    /// The launch or the wait itself failed: a fatal condition, not a
    /// retry condition.
    Fatal,
}

/// What the loop does after one attempt.
#[derive(Clone, Copy, Debug, PartialEq, Eq)]
pub enum Directive {
    /// Leave the loop; the run as a whole succeeded.
    Stop,
    /// Leave the loop; surface the fatal error to the caller.
    Abort,
    /// Run the command again, pausing first for `delay` if one is given.
    RetryAfter { delay: Option<Dur> },
}

/// How a finished run ended.
#[derive(Clone, Copy, Debug, PartialEq, Eq)]
pub enum RunOutcome {
    /// The child reported success.
    Success,
    /// A launch or wait error stopped the loop.
    Fatal,
}

/// The directive that follows one attempt: success stops the loop, a
/// fatal condition aborts it, and any non-success exit asks for another
/// attempt after the configured wait, if any.
pub open spec fn next_step_spec(wait: Option<Dur>, outcome: AttemptOutcome) -> Directive {
    match outcome {
        AttemptOutcome::Fatal => Directive::Abort,
        AttemptOutcome::Exited { success } => if success {
            Directive::Stop
        } else {
            Directive::RetryAfter { delay: wait }
        },
    }
}

/// Decide what the loop does after one attempt. A non-success exit is
/// never fatal: it is the normal retry trigger.
pub fn next_step(wait: &Option<Dur>, outcome: &AttemptOutcome) -> (d: Directive)
    ensures
        d == next_step_spec(*wait, *outcome),
{
    match *outcome {
        AttemptOutcome::Fatal => Directive::Abort,
        AttemptOutcome::Exited { success } => if success {
            Directive::Stop
        } else {
            Directive::RetryAfter { delay: *wait }
        },
    }
}

/// How many times the loop launches the command when successive attempts
/// produce `outcomes`, counted until the first directive that leaves the
/// loop; if no outcome leaves it, every listed attempt is launched.
pub open spec fn launches(wait: Option<Dur>, outcomes: Seq<AttemptOutcome>) -> nat
    decreases outcomes.len(),
{
    if outcomes.len() == 0 {
        0
    } else {
        match next_step_spec(wait, outcomes[0]) {
            Directive::RetryAfter { delay } => 1 + launches(wait, outcomes.drop_first()),
            _ => 1,
        }
    }
}

/// The pauses the loop takes, in order, when successive attempts produce
/// `outcomes`: one pause of the configured duration after each
/// non-success exit, and none after the attempt that leaves the loop.
pub open spec fn sleep_durations(wait: Option<Dur>, outcomes: Seq<AttemptOutcome>) -> Seq<Dur>
    decreases outcomes.len(),
{
    if outcomes.len() == 0 {
        Seq::empty()
    } else {
        match next_step_spec(wait, outcomes[0]) {
            Directive::RetryAfter { delay: Some(d) } => seq![d] + sleep_durations(
                wait,
                outcomes.drop_first(),
            ),
            Directive::RetryAfter { delay: None } => sleep_durations(wait, outcomes.drop_first()),
            _ => Seq::empty(),
        }
    }
}

/// One externally visible step of a run.
#[derive(Clone, Copy, Debug, PartialEq, Eq)]
pub enum LoopEvent {
    /// The command is launched and awaited once.
    Launch,
    /// The loop pauses for `delay` before the next launch.
    Pause { delay: Dur },
}

/// The visible steps of a run, in order, when successive attempts produce
/// `outcomes`: every attempt is a launch, and after a non-success exit
/// with a wait configured a pause comes before the next launch. A pause
/// never stands first, last, or beside another pause.
pub open spec fn run_trace(wait: Option<Dur>, outcomes: Seq<AttemptOutcome>) -> Seq<LoopEvent>
    decreases outcomes.len(),
{
    if outcomes.len() == 0 {
        Seq::empty()
    } else {
        match next_step_spec(wait, outcomes[0]) {
            Directive::RetryAfter { delay: Some(d) } => seq![
                LoopEvent::Launch,
                LoopEvent::Pause { delay: d },
            ] + run_trace(wait, outcomes.drop_first()),
            Directive::RetryAfter { delay: None } => seq![LoopEvent::Launch] + run_trace(
                wait,
                outcomes.drop_first(),
            ),
            _ => seq![LoopEvent::Launch],
        }
    }
}

/// How a run ends when successive attempts produce `outcomes`, or `None`
/// if no listed outcome leaves the loop within them.
pub open spec fn run_result(wait: Option<Dur>, outcomes: Seq<AttemptOutcome>) -> Option<RunOutcome>
    decreases outcomes.len(),
{
    if outcomes.len() == 0 {
        None
    } else {
        match next_step_spec(wait, outcomes[0]) {
            Directive::Stop => Some(RunOutcome::Success),
            Directive::Abort => Some(RunOutcome::Fatal),
            Directive::RetryAfter { delay } => run_result(wait, outcomes.drop_first()),
        }
    }
}

/// If the first attempt succeeds, the loop launches exactly once, pauses
/// never, and the run succeeds — whether or not a wait is configured.
pub proof fn lemma_success_termination(wait: Option<Dur>, outcomes: Seq<AttemptOutcome>)
    requires
        outcomes.len() >= 1,
        outcomes[0] == (AttemptOutcome::Exited { success: true }),
    ensures
        launches(wait, outcomes) == 1,
        sleep_durations(wait, outcomes) == Seq::<Dur>::empty(),
        run_result(wait, outcomes) == Some(RunOutcome::Success),
        run_trace(wait, outcomes) == seq![LoopEvent::Launch],
{
}

/// If the first `k` attempts exit without success and attempt `k` (the
/// `k+1`-th) succeeds, the loop launches exactly `k + 1` times and the
/// run succeeds; with a wait configured, it pauses exactly `k` times,
/// each time for that duration — only between consecutive attempts, never
/// before the first or after the last — and with no wait configured it
/// never pauses.
pub proof fn lemma_retry_on_failure(wait: Option<Dur>, outcomes: Seq<AttemptOutcome>, k: int)
    requires
        0 <= k < outcomes.len(),
        forall|j: int|
            0 <= j < k ==> outcomes[j] == (AttemptOutcome::Exited { success: false }),
        outcomes[k] == (AttemptOutcome::Exited { success: true }),
    ensures
        launches(wait, outcomes) == k + 1,
        run_result(wait, outcomes) == Some(RunOutcome::Success),
        wait matches Some(d) ==> sleep_durations(wait, outcomes) == Seq::new(
            k as nat,
            |j: int| d,
        ),
        wait is None ==> sleep_durations(wait, outcomes) == Seq::<Dur>::empty(),
        wait matches Some(d) ==> run_trace(wait, outcomes) == Seq::new(
            (2 * k + 1) as nat,
            |j: int|
                if j % 2 == 0 {
                    LoopEvent::Launch
                } else {
                    LoopEvent::Pause { delay: d }
                },
        ),
        wait is None ==> run_trace(wait, outcomes) == Seq::new(
            (k + 1) as nat,
            |j: int| LoopEvent::Launch,
        ),
    decreases k,
{
    if k == 0 {
        lemma_success_termination(wait, outcomes);
        if wait is Some {
            assert(sleep_durations(wait, outcomes) =~= Seq::new(0nat, |j: int| wait->0));
            assert(run_trace(wait, outcomes) =~= Seq::new(
                1nat,
                |j: int|
                    if j % 2 == 0 {
                        LoopEvent::Launch
                    } else {
                        LoopEvent::Pause { delay: wait->0 }
                    },
            ));
        } else {
            assert(run_trace(wait, outcomes) =~= Seq::new(1nat, |j: int| LoopEvent::Launch));
        }
    } else {
        let rest = outcomes.drop_first();
        assert(forall|j: int|
            0 <= j < k - 1 ==> rest[j] == (AttemptOutcome::Exited { success: false }));
        assert(rest[k - 1] == outcomes[k]);
        lemma_retry_on_failure(wait, rest, k - 1);
        if wait is Some {
            let d = wait->0;
            assert(sleep_durations(wait, outcomes) == seq![d] + sleep_durations(wait, rest));
            assert(seq![d] + Seq::new((k - 1) as nat, |j: int| d) =~= Seq::new(
                k as nat,
                |j: int| d,
            ));
            let f = |j: int|
                if j % 2 == 0 {
                    LoopEvent::Launch
                } else {
                    LoopEvent::Pause { delay: d }
                };
            assert(run_trace(wait, outcomes) == seq![
                LoopEvent::Launch,
                LoopEvent::Pause { delay: d },
            ] + run_trace(wait, rest));
            assert(seq![LoopEvent::Launch, LoopEvent::Pause { delay: d }] + Seq::new(
                (2 * (k - 1) + 1) as nat,
                f,
            ) =~= Seq::new((2 * k + 1) as nat, f));
        } else {
            assert(run_trace(wait, outcomes) == seq![LoopEvent::Launch] + run_trace(wait, rest));
            assert(seq![LoopEvent::Launch] + Seq::new(k as nat, |j: int| LoopEvent::Launch)
                =~= Seq::new((k + 1) as nat, |j: int| LoopEvent::Launch));
        }
    }
}

/// With no wait configured the loop never pauses, whatever the attempts
/// come to: consecutive attempts have no enforced delay between them.
pub proof fn lemma_no_delay_when_unset(outcomes: Seq<AttemptOutcome>)
    ensures
        sleep_durations(None, outcomes) == Seq::<Dur>::empty(),
    decreases outcomes.len(),
{
    if outcomes.len() > 0 {
        lemma_no_delay_when_unset(outcomes.drop_first());
    }
}

/// If the first `k` attempts exit without success and attempt `k` is a
/// fatal launch or wait failure, the loop launches exactly `k + 1` times
/// — no further attempt follows the failure — and the run surfaces the
/// fatal error, whatever wait is configured.
pub proof fn lemma_fatal_short_circuit(wait: Option<Dur>, outcomes: Seq<AttemptOutcome>, k: int)
    requires
        0 <= k < outcomes.len(),
        forall|j: int|
            0 <= j < k ==> outcomes[j] == (AttemptOutcome::Exited { success: false }),
        outcomes[k] == AttemptOutcome::Fatal,
    ensures
        launches(wait, outcomes) == k + 1,
        run_result(wait, outcomes) == Some(RunOutcome::Fatal),
    decreases k,
{
    if k > 0 {
        let rest = outcomes.drop_first();
        assert(forall|j: int|
            0 <= j < k - 1 ==> rest[j] == (AttemptOutcome::Exited { success: false }));
        assert(rest[k - 1] == outcomes[k]);
        lemma_fatal_short_circuit(wait, rest, k - 1);
    }
}

/// How many launches a run makes, and how it ends, do not depend on the
/// configured wait: the wait only spaces the attempts out.
pub proof fn lemma_wait_does_not_change_attempts(
    w1: Option<Dur>,
    w2: Option<Dur>,
    outcomes: Seq<AttemptOutcome>,
)
    ensures
        launches(w1, outcomes) == launches(w2, outcomes),
        run_result(w1, outcomes) == run_result(w2, outcomes),
    decreases outcomes.len(),
{
    if outcomes.len() > 0 {
        lemma_wait_does_not_change_attempts(w1, w2, outcomes.drop_first());
    }
}

} // verus!
