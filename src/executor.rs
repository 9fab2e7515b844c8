use vstd::prelude::*;

verus! {

/// The outcome of polling a task once.
#[derive(PartialEq, Eq, Structural, Debug)]
pub enum Poll<T> {
    /// The task finished with this output.
    Ready(T),
    /// The task cannot make progress yet.
    Pending,
}

/// What the polling loop does after a poll.
#[derive(PartialEq, Eq, Structural, Debug)]
pub enum Next<T> {
    /// Poll the task again, at once.
    PollAgain,
    /// Stop, and hand back this output.
    Finish(T),
}

/// The decision that follows one poll: a pending task is polled again,
/// a ready one ends the loop with its output untouched.
pub open spec fn next_of<T>(outcome: Poll<T>) -> Next<T> {
    match outcome {
        Poll::Ready(v) => Next::Finish(v),
        Poll::Pending => Next::PollAgain,
    }
}

/// A loop that keeps polling, starting with `polls` polls made, over the
/// outcomes that its successive polls return: how many polls it has made
/// when it stops, and what it returns (`None` while the outcomes run out
/// before one is ready).
pub open spec fn drive<T>(polls: nat, outcomes: Seq<Poll<T>>) -> (nat, Option<T>)
    decreases outcomes.len(),
{
    if outcomes.len() == 0 {
        (polls, None)
    } else {
        match next_of(outcomes[0]) {
            Next::Finish(v) => (polls + 1, Some(v)),
            Next::PollAgain => drive(polls + 1, outcomes.drop_first()),
        }
    }
}

/// A single-task executor that busy-polls: it never waits for a wake-up,
/// it re-polls a pending task at once. It counts the polls made.
pub struct Executor {
    polls: u64,
}

impl Executor {
    /// The number of polls made so far.
    pub closed spec fn spec_polls(&self) -> nat {
        self.polls as nat
    }

    /// An executor that has made no poll yet.
    pub fn new() -> (r: Executor)
        ensures
            r.spec_polls() == 0,
    {
        Executor { polls: 0 }
    }

    /// The number of polls made so far.
    pub fn polls(&self) -> (r: u64)
        ensures
            r == self.spec_polls(),
    {
        self.polls
    }

    /// Records one poll and its outcome, and says what comes next.
    pub fn step<T>(&mut self, outcome: Poll<T>) -> (r: Next<T>)
        requires
            old(self).spec_polls() < u64::MAX,
        ensures
            final(self).spec_polls() == old(self).spec_polls() + 1,
            r == next_of(outcome),
    {
        self.polls = self.polls + 1;
        match outcome {
            Poll::Ready(v) => Next::Finish(v),
            Poll::Pending => Next::PollAgain,
        }
    }
}

/// A task that is pending for its first `k` polls and then ready with `v`
/// is polled exactly `k + 1` times, and the loop returns `v` unchanged;
/// whatever would have come after is never polled.
pub proof fn lemma_busy_poll_terminates<T>(polls: nat, outcomes: Seq<Poll<T>>, k: nat, v: T)
    requires
        k < outcomes.len(),
        forall|i: int| 0 <= i < k ==> outcomes[i] == Poll::<T>::Pending,
        outcomes[k as int] == Poll::Ready(v),
    ensures
        drive(polls, outcomes) == (polls + k + 1, Some(v)),
    decreases k,
{
    if k > 0 {
        assert(outcomes[0] == Poll::<T>::Pending);
        let rest = outcomes.drop_first();
        assert(rest[k - 1] == outcomes[k as int]);
        lemma_busy_poll_terminates(polls + 1, rest, (k - 1) as nat, v);
    }
}

} // verus!
