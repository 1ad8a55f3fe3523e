//! The consumer's end of a one-shot background task.
//!
//! Some work runs elsewhere and sends its one result through a channel. A
//! [`Task`] holds the receiving end and a record of how far things have
//! come. [`Task::try_take`] looks at the channel without waiting: it hands
//! the result out the first time it finds one and answers `None` on every
//! call before and after. Work that ends without a result is not an error; it
//! shows as `None` for ever. Nothing here can stop the work, and dropping the
//! task only discards what the work may still send.

use std::sync::mpsc::Receiver;
use vstd::prelude::*;

verus! {

/// `std::sync::mpsc::Receiver`, the receiving end of a channel. It is
/// carried through as it is: nothing is known of what it holds.
#[verifier::external_type_specification]
#[verifier::external_body]
#[verifier::reject_recursive_types(T)]
pub struct ExReceiver<T>(Receiver<T>);

/// What one look at the channel found.
#[derive(Debug, Clone, PartialEq, Eq)]
pub enum Polled<T> {
    /// A value had arrived.
    Ready(T),
    /// Nothing has arrived yet, and the sender is still there.
    Pending,
    /// Nothing has arrived, and the sender is gone: nothing ever will.
    Closed,
}

/// How far a task has come, as its owner knows it.
#[derive(Debug, Clone, Copy, PartialEq, Eq, Structural)]
pub enum TaskPhase {
    /// No result has been seen; one may still come.
    Waiting,
    /// The result was handed out.
    Delivered,
    /// The work ended without a result.
    Lost,
}

/// The phase after a poll that found `polled` while the task was in
/// `phase`. Only a waiting task moves: to `Delivered` on a value, to `Lost`
/// when the sender is gone.
pub open spec fn phase_after<T>(phase: TaskPhase, polled: Polled<T>) -> TaskPhase {
    match phase {
        TaskPhase::Waiting => match polled {
            Polled::Ready(_) => TaskPhase::Delivered,
            Polled::Pending => TaskPhase::Waiting,
            Polled::Closed => TaskPhase::Lost,
        },
        TaskPhase::Delivered => TaskPhase::Delivered,
        TaskPhase::Lost => TaskPhase::Lost,
    }
}

/// What a poll hands to the owner: the value, if the task was waiting and
/// one had arrived; nothing in every other case.
pub open spec fn taken_from<T>(phase: TaskPhase, polled: Polled<T>) -> Option<T> {
    match (phase, polled) {
        (TaskPhase::Waiting, Polled::Ready(value)) => Some(value),
        _ => None,
    }
}

/// The phases and answers of a run of polls, from `phase` on: the phase at
/// the end, and what each poll handed out.
pub open spec fn run_polls<T>(phase: TaskPhase, polls: Seq<Polled<T>>) -> (
    TaskPhase,
    Seq<Option<T>>,
)
    decreases polls.len(),
{
    if polls.len() == 0 {
        (phase, Seq::empty())
    } else {
        let rest = run_polls(phase_after(phase, polls[0]), polls.drop_first());
        (rest.0, seq![taken_from(phase, polls[0])] + rest.1)
    }
}

/// How many of the answers hold a value.
pub open spec fn deliveries<T>(answers: Seq<Option<T>>) -> nat
    decreases answers.len(),
{
    if answers.len() == 0 {
        0
    } else {
        (if answers[0] is Some {
            1nat
        } else {
            0nat
        }) + deliveries(answers.drop_first())
    }
}

/// A run of polls gives one answer per poll.
pub proof fn lemma_one_answer_per_poll<T>(phase: TaskPhase, polls: Seq<Polled<T>>)
    ensures
        run_polls(phase, polls).1.len() == polls.len(),
    decreases polls.len(),
{
    if polls.len() > 0 {
        lemma_one_answer_per_poll(phase_after(phase, polls[0]), polls.drop_first());
    }
}

/// A task that is no longer waiting never hands out a value again and never
/// changes phase, whatever the channel shows.
pub proof fn lemma_settled_stays_silent<T>(phase: TaskPhase, polls: Seq<Polled<T>>)
    requires
        phase != TaskPhase::Waiting,
    ensures
        run_polls(phase, polls).0 == phase,
        run_polls(phase, polls).1.len() == polls.len(),
        forall|i: int| 0 <= i < polls.len() ==> (#[trigger] run_polls(phase, polls).1[i]) is None,
        deliveries(run_polls(phase, polls).1) == 0,
    decreases polls.len(),
{
    if polls.len() > 0 {
        let rest = run_polls(phase, polls.drop_first());
        lemma_settled_stays_silent(phase, polls.drop_first());
        let answers = run_polls(phase, polls).1;
        assert(answers =~= seq![None::<T>] + rest.1);
        assert(answers.drop_first() =~= rest.1);
        assert forall|i: int| 0 <= i < polls.len() implies (#[trigger] answers[i]) is None by {
            if i > 0 {
                assert(answers[i] == rest.1[i - 1]);
            }
        }
    }
}

/// Single delivery: over any run of polls, from any phase and whatever the
/// channel shows, the owner receives a value at most once.
pub proof fn lemma_single_delivery<T>(phase: TaskPhase, polls: Seq<Polled<T>>)
    ensures
        deliveries(run_polls(phase, polls).1) <= 1,
    decreases polls.len(),
{
    if polls.len() > 0 {
        let next = phase_after(phase, polls[0]);
        let rest = run_polls(next, polls.drop_first());
        let answers = run_polls(phase, polls).1;
        assert(answers.drop_first() =~= rest.1);
        if taken_from(phase, polls[0]) is Some {
            lemma_settled_stays_silent(next, polls.drop_first());
        } else {
            lemma_single_delivery(next, polls.drop_first());
        }
    }
}

/// The first poll that finds the result hands it out, and no other poll of
/// the run hands out anything: not those before it, which found nothing
/// yet, and not those after it, whatever they find.
pub proof fn lemma_first_ready_delivers<T>(polls: Seq<Polled<T>>, k: int, value: T)
    requires
        0 <= k < polls.len(),
        polls[k] == Polled::Ready(value),
        forall|i: int| 0 <= i < k ==> polls[i] == Polled::<T>::Pending,
    ensures
        run_polls(TaskPhase::Waiting, polls).0 == TaskPhase::Delivered,
        run_polls(TaskPhase::Waiting, polls).1.len() == polls.len(),
        run_polls(TaskPhase::Waiting, polls).1[k] == Some(value),
        forall|i: int|
            0 <= i < polls.len() && i != k ==> (#[trigger] run_polls(
                TaskPhase::Waiting,
                polls,
            ).1[i]) is None,
    decreases polls.len(),
{
    let answers = run_polls(TaskPhase::Waiting, polls).1;
    let tail = polls.drop_first();
    lemma_one_answer_per_poll(TaskPhase::Waiting, polls);
    if k == 0 {
        let rest = run_polls(TaskPhase::Delivered, tail);
        lemma_settled_stays_silent(TaskPhase::Delivered, tail);
        assert(answers =~= seq![Some(value)] + rest.1);
        assert forall|i: int| 0 <= i < polls.len() && i != k implies (#[trigger] answers[i])
            is None by {
            assert(answers[i] == rest.1[i - 1]);
        }
    } else {
        let rest = run_polls(TaskPhase::Waiting, tail);
        assert(polls[0] == Polled::<T>::Pending);
        assert(tail[k - 1] == polls[k]);
        assert forall|i: int| 0 <= i < k - 1 implies tail[i] == Polled::<T>::Pending by {
            assert(tail[i] == polls[i + 1]);
        }
        lemma_first_ready_delivers(tail, k - 1, value);
        assert(answers =~= seq![None::<T>] + rest.1);
        assert(answers[k] == rest.1[k - 1]);
        assert forall|i: int| 0 <= i < polls.len() && i != k implies (#[trigger] answers[i])
            is None by {
            if i > 0 {
                assert(answers[i] == rest.1[i - 1]);
            }
        }
    }
}

/// A poll that finds the work unfinished changes nothing and hands out
/// nothing: the task can be polled again.
pub proof fn lemma_pending_changes_nothing<T>(phase: TaskPhase)
    ensures
        phase_after(phase, Polled::<T>::Pending) == phase,
        taken_from(phase, Polled::<T>::Pending) is None,
{
}

/// One step of the bridge: what the owner gets and where the task stands
/// after a poll that found `polled`.
pub fn settle<T>(phase: TaskPhase, polled: Polled<T>) -> (step: (TaskPhase, Option<T>))
    ensures
        step.0 == phase_after(phase, polled),
        step.1 == taken_from(phase, polled),
{
    match phase {
        TaskPhase::Waiting => match polled {
            Polled::Ready(value) => (TaskPhase::Delivered, Some(value)),
            Polled::Pending => (TaskPhase::Waiting, None),
            Polled::Closed => (TaskPhase::Lost, None),
        },
        TaskPhase::Delivered => (TaskPhase::Delivered, None),
        TaskPhase::Lost => (TaskPhase::Lost, None),
    }
}

/// `Receiver::try_recv` looks at the channel and returns at once. What it
/// finds depends on how far the sender has come, so nothing is promised of
/// the result; the three results it can give are told apart here.
#[verifier::external_body]
fn poll_channel<T>(rx: &Receiver<T>) -> (polled: Polled<T>) {
    match rx.try_recv() {
        Ok(value) => Polled::Ready(value),
        Err(std::sync::mpsc::TryRecvError::Empty) => Polled::Pending,
        Err(std::sync::mpsc::TryRecvError::Disconnected) => Polled::Closed,
    }
}

/// The handle of a task that will, with luck, produce one value of type `T`.
#[verifier::reject_recursive_types(T)]
pub struct Task<T> {
    rx: Receiver<T>,
    phase: TaskPhase,
}

impl<T> Task<T> {
    /// Where the task stands.
    pub closed spec fn phase(&self) -> TaskPhase {
        self.phase
    }

    /// The channel that the task listens on.
    pub closed spec fn channel(&self) -> Receiver<T> {
        self.rx
    }

    /// Whether `after` and `taken` are a possible outcome of one poll of a
    /// task that stood at `before`: the outcome of `settle` for something
    /// the channel can show. A task that was not waiting is not polled at
    /// all, so for it there is one outcome only.
    pub open spec fn poll_outcome(before: TaskPhase, after: TaskPhase, taken: Option<T>) -> bool {
        if before == TaskPhase::Waiting {
            exists|polled: Polled<T>|
                after == phase_after(before, polled) && taken == #[trigger] taken_from(
                    before,
                    polled,
                )
        } else {
            after == before && taken is None
        }
    }

    /// A task for the work that sends its result into `rx`'s channel.
    pub fn from_receiver(rx: Receiver<T>) -> (task: Self)
        ensures
            task.phase() == TaskPhase::Waiting,
            task.channel() == rx,
    {
        Task { rx, phase: TaskPhase::Waiting }
    }

    /// Where the task stands: waiting, delivered or lost.
    pub fn current_phase(&self) -> (phase: TaskPhase)
        ensures
            phase == self.phase(),
    {
        self.phase
    }

    /// Whether the task can still hand out a value. Once it cannot, it never
    /// will again, and its owner may drop it.
    pub fn is_exhausted(&self) -> (exhausted: bool)
        ensures
            exhausted == (self.phase() != TaskPhase::Waiting),
    {
        self.phase != TaskPhase::Waiting
    }

    /// Looks for the result without waiting for it.
    ///
    /// Returns the value the first time one is there, and `None` on every
    /// call before and after: while the work is running, once the value was
    /// handed out, and when the work has ended without one.
    pub fn try_take(&mut self) -> (taken: Option<T>)
        ensures
            Self::poll_outcome(old(self).phase(), final(self).phase(), taken),
            final(self).channel() == old(self).channel(),
            taken is Some ==> old(self).phase() == TaskPhase::Waiting && final(self).phase()
                == TaskPhase::Delivered,
            old(self).phase() != TaskPhase::Waiting ==> taken is None && final(self).phase() == old(
                self,
            ).phase(),
            final(self).phase() == TaskPhase::Waiting ==> old(self).phase() == TaskPhase::Waiting,
    {
        if self.phase != TaskPhase::Waiting {
            return None;
        }
        let polled = poll_channel(&self.rx);
        let (phase, taken) = settle(self.phase, polled);
        self.phase = phase;
        taken
    }
}

} // verus!
