//! The retrying upload task: a detached unit of work that attempts one
//! put-object operation against the remote store up to a fixed budget of
//! times, sleeping with exponential backoff between failures.
//!
//! The task is split from the I/O that drives it. [`UploadTask`] is the
//! verified step machine: it decides, after each attempt's outcome, whether
//! to stop, and how long to sleep before the next attempt. An unverified
//! driver owns the network call and the clock; it asks the machine after
//! every attempt and obeys the answer.

use vstd::prelude::*;

use crate::error::StorageError;

verus! {

/// Delay before the second attempt, in milliseconds.
pub const BASE_DELAY_MS: u64 = 100;

/// The backoff delay slept after the failure of attempt `i`, in
/// milliseconds: the base delay grown by a factor of 6/5 (that is, 1.2) per
/// step, rounded down, and saturating at `u64::MAX` so that every budget,
/// however large, has a defined delay.
pub open spec fn delay_after(i: nat) -> nat
    decreases i,
{
    if i == 0 {
        BASE_DELAY_MS as nat
    } else {
        let grown = delay_after((i - 1) as nat) * 6 / 5;
        if grown > u64::MAX {
            u64::MAX as nat
        } else {
            grown
        }
    }
}

/// Computes [`delay_after`] for attempt index `i`.
pub fn backoff_delay_ms(i: usize) -> (d: u64)
    ensures
        d == delay_after(i as nat),
{
    let mut d: u64 = BASE_DELAY_MS;
    let mut j: usize = 0;
    while j < i
        invariant
            j <= i,
            d == delay_after(j as nat),
        decreases i - j,
    {
        let grown: u128 = (d as u128) * 6 / 5;
        if grown > u64::MAX as u128 {
            d = u64::MAX;
        } else {
            d = grown as u64;
        }
        j = j + 1;
    }
    d
}

/// Where a task stands: still attempting, done after a successful put, or
/// done after spending the whole budget on failures.
#[derive(Clone, Copy, Debug, PartialEq, Eq, Structural)]
pub enum UploadPhase {
    Running,
    Succeeded,
    GaveUp,
}

/// The decision core of one detached upload.
///
/// The machine records the outcome of each attempt the driver makes. Its
/// history is kept as a ghost sequence of outcomes, one per attempt, and the
/// well-formedness predicate [`UploadTask::wf`] ties the attempt count, the
/// sleep count and the phase to that history. A success ends the run at
/// once, so at most the last recorded outcome is a success.
pub struct UploadTask {
    budget: usize,
    attempts: usize,
    sleeps: usize,
    phase: UploadPhase,
    outcomes: Ghost<Seq<bool>>,
}

impl UploadTask {
    /// The attempt budget the task was created with.
    pub closed spec fn budget(&self) -> nat {
        self.budget as nat
    }

    /// How many attempts have been recorded.
    pub closed spec fn attempts(&self) -> nat {
        self.attempts as nat
    }

    /// How many sleeps the machine has instructed.
    pub closed spec fn sleeps(&self) -> nat {
        self.sleeps as nat
    }

    /// The outcome of each recorded attempt, in order.
    pub closed spec fn outcomes(&self) -> Seq<bool> {
        self.outcomes@
    }

    /// Where the task stands.
    pub closed spec fn phase(&self) -> UploadPhase {
        self.phase
    }

    pub open spec fn running(&self) -> bool {
        self.phase() is Running
    }

    pub open spec fn succeeded(&self) -> bool {
        self.phase() is Succeeded
    }

    pub open spec fn gave_up(&self) -> bool {
        self.phase() is GaveUp
    }

    pub open spec fn finished(&self) -> bool {
        !self.running()
    }

    /// The delays the machine has instructed so far, in order: the sleep
    /// after the failure of attempt `i` lasts `delay_after(i)` milliseconds.
    pub open spec fn slept_delays(&self) -> Seq<nat> {
        Seq::new(self.sleeps(), |i: int| delay_after(i as nat))
    }

    /// Well-formedness: the counters, the phase and the history agree.
    ///
    /// - one outcome is recorded per attempt, and never more than the budget;
    /// - a success ends the run, so only the last outcome can be a success;
    /// - the task has succeeded exactly when the last outcome is a success,
    ///   and has given up exactly when the budget is spent without one;
    /// - every failure is followed by a sleep except one that spends the
    ///   budget, so a finished run of `n` attempts slept `n - 1` times and a
    ///   running one of `n` attempts slept `n` times.
    pub closed spec fn wf(&self) -> bool {
        &&& self.outcomes@.len() == self.attempts
        &&& self.attempts <= self.budget
        &&& forall|i: int|
            0 <= i < self.outcomes@.len() && self.outcomes@[i] ==> i == self.outcomes@.len() - 1
        &&& (self.phase is Succeeded <==> self.attempts > 0 && self.outcomes@.last())
        &&& (self.phase is GaveUp <==> self.attempts == self.budget && !(self.attempts > 0
            && self.outcomes@.last()))
        &&& self.sleeps == if self.phase is Running {
            self.attempts as int
        } else if self.attempts > 0 {
            self.attempts - 1
        } else {
            0
        }
    }

    /// A fresh task with the given attempt budget. A budget of zero is a
    /// valid degenerate configuration: the task is complete at once, having
    /// attempted nothing.
    pub fn new(budget: usize) -> (t: UploadTask)
        ensures
            t.wf(),
            t.budget() == budget,
            t.attempts() == 0,
            t.sleeps() == 0,
            t.outcomes() == Seq::<bool>::empty(),
            budget == 0 ==> t.gave_up(),
            budget > 0 ==> t.running(),
    {
        let phase = if budget == 0 {
            UploadPhase::GaveUp
        } else {
            UploadPhase::Running
        };
        UploadTask { budget, attempts: 0, sleeps: 0, phase, outcomes: Ghost(Seq::empty()) }
    }

    /// Records the outcome of the attempt the driver just made and decides
    /// what follows: `None` means stop or retry at once, `Some(d)` means
    /// sleep `d` milliseconds and then attempt again. A success ends the run
    /// with no further delay; a failure that spends the budget ends it too,
    /// with no delay after it.
    pub fn record_attempt(&mut self, ok: bool) -> (sleep_ms: Option<u64>)
        requires
            old(self).wf(),
            old(self).running(),
        ensures
            final(self).wf(),
            final(self).budget() == old(self).budget(),
            final(self).outcomes() == old(self).outcomes().push(ok),
            final(self).attempts() == old(self).attempts() + 1,
            ok ==> final(self).succeeded(),
            !ok && old(self).attempts() + 1 < old(self).budget() ==> final(self).running(),
            !ok && old(self).attempts() + 1 == old(self).budget() ==> final(self).gave_up(),
            final(self).running() <==> (sleep_ms matches Some(d) && d == delay_after(
                old(self).attempts(),
            )),
            final(self).running() ==> final(self).sleeps() == old(self).sleeps() + 1,
            final(self).finished() ==> sleep_ms is None && final(self).sleeps() == old(
                self,
            ).sleeps(),
    {
        proof {
            self.outcomes@ = self.outcomes@.push(ok);
        }
        self.attempts = self.attempts + 1;
        if ok {
            self.phase = UploadPhase::Succeeded;
            None
        } else if self.attempts == self.budget {
            self.phase = UploadPhase::GaveUp;
            None
        } else {
            self.sleeps = self.sleeps + 1;
            Some(backoff_delay_ms(self.attempts - 1))
        }
    }

    /// Whether the run is over, successfully or not.
    pub fn is_finished(&self) -> (b: bool)
        ensures
            b == self.finished(),
    {
        !matches!(self.phase, UploadPhase::Running)
    }

    /// Whether a recorded attempt succeeded and ended the run.
    pub fn has_succeeded(&self) -> (b: bool)
        ensures
            b == self.succeeded(),
    {
        matches!(self.phase, UploadPhase::Succeeded)
    }

    /// The attempt budget.
    pub fn attempt_budget(&self) -> (n: usize)
        ensures
            n == self.budget(),
    {
        self.budget
    }

    /// How many attempts have been recorded.
    pub fn attempt_count(&self) -> (n: usize)
        ensures
            n == self.attempts(),
    {
        self.attempts
    }

    /// How many sleeps the machine has instructed.
    pub fn sleep_count(&self) -> (n: usize)
        ensures
            n == self.sleeps(),
    {
        self.sleeps
    }

    /// The error a finished, failed run reports to the observability side
    /// channel, and nowhere else: the original caller is never told.
    pub fn failure(&self) -> (r: Option<StorageError>)
        ensures
            r is Some <==> self.gave_up(),
            self.gave_up() ==> r == Some(StorageError::RetryExhausted),
    {
        if matches!(self.phase, UploadPhase::GaveUp) {
            Some(StorageError::RetryExhausted)
        } else {
            None
        }
    }
}

/// One detached upload, tagged with everything it owns: the key, its own
/// copy of the blob, and the step machine that paces its attempts. The
/// unverified driver takes the job by value, performs the puts and the
/// sleeps, and lets the machine decide.
pub struct UploadJob {
    pub key: String,
    pub data: Vec<u8>,
    pub task: UploadTask,
}

/// If every put succeeds, a finished task with a budget of at least one made
/// exactly one attempt and never slept.
pub proof fn lemma_all_success_single_attempt(t: UploadTask)
    requires
        t.wf(),
        t.finished(),
        t.budget() >= 1,
        forall|i: int| 0 <= i < t.outcomes().len() ==> t.outcomes()[i],
    ensures
        t.succeeded(),
        t.attempts() == 1,
        t.sleeps() == 0,
{
    if t.gave_up() {
        assert(t.outcomes().len() >= 1);
        assert(t.outcomes()[t.outcomes().len() - 1]);
        assert(false);
    }
    assert(t.succeeded());
    if t.outcomes().len() >= 2 {
        assert(t.outcomes()[0]);
        assert(false);
    }
}

/// If every put fails, a finished task spent its whole budget: it made
/// exactly as many attempts as the budget allows and slept once after each
/// failure but the last, with the sleep after attempt `i` lasting
/// `delay_after(i)` milliseconds.
pub proof fn lemma_all_failures_exhaust_budget(t: UploadTask)
    requires
        t.wf(),
        t.finished(),
        forall|i: int| 0 <= i < t.outcomes().len() ==> !t.outcomes()[i],
    ensures
        t.gave_up(),
        t.attempts() == t.budget(),
        t.budget() >= 1 ==> t.sleeps() == t.budget() - 1,
        t.budget() == 0 ==> t.sleeps() == 0,
        t.budget() >= 1 ==> t.slept_delays() =~= Seq::new(
            (t.budget() - 1) as nat,
            |i: int| delay_after(i as nat),
        ),
{
    if t.succeeded() {
        assert(!t.outcomes()[t.outcomes().len() - 1]);
        assert(false);
    }
    assert(t.gave_up());
}

/// A task with a budget of zero is complete from the start: no attempt is
/// made and no sleep is instructed.
pub proof fn lemma_zero_budget_nothing_done(t: UploadTask)
    requires
        t.wf(),
        t.budget() == 0,
    ensures
        t.finished(),
        t.gave_up(),
        t.attempts() == 0,
        t.sleeps() == 0,
{
}

/// If the put fails on every attempt before `k` and succeeds on attempt `k`,
/// within the budget, a finished task made exactly `k + 1` attempts and
/// slept exactly `k` times, each sleep `i` lasting `delay_after(i)`
/// milliseconds; no sleep follows the success.
pub proof fn lemma_success_on_attempt_k(t: UploadTask, k: nat)
    requires
        t.wf(),
        t.finished(),
        k < t.budget(),
        forall|i: int| 0 <= i < k && i < t.outcomes().len() ==> !t.outcomes()[i],
        k < t.outcomes().len() ==> t.outcomes()[k as int],
    ensures
        t.succeeded(),
        t.attempts() == k + 1,
        t.sleeps() == k,
        t.slept_delays() =~= Seq::new(k, |i: int| delay_after(i as nat)),
{
    if t.gave_up() {
        assert(t.outcomes().len() == t.budget());
        assert(t.outcomes()[k as int]);
        assert(k == t.outcomes().len() - 1);
        assert(t.outcomes().last());
        assert(false);
    }
    assert(t.succeeded());
    let last: int = t.outcomes().len() - 1;
    assert(t.outcomes()[last]);
    if last < k {
        assert(!t.outcomes()[last]);
        assert(false);
    }
    assert(t.outcomes()[k as int]);
    assert(k == last);
}

} // verus!
