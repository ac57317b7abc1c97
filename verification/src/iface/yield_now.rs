use vstd::prelude::*;
use std::rc::Rc;
use std::sync::Arc;
use crate::exec::glommio_ct::Preemption;

verus! {

/// What one poll of a [`YieldNowFut`] asks of the executor.
#[derive(Debug, Clone, Copy, PartialEq, Eq, Structural)]
pub enum YieldPoll {
    /// The task already yielded once: the future is complete.
    Ready,
    /// Wake the task's waker, then report `Pending`: the task goes to the back
    /// of the scheduler's queue.
    WakeAndPend,
}

/// The effect of one poll on the `done` flag, and what the poll reports.
pub open spec fn yield_step(done: bool) -> (bool, YieldPoll) {
    if done {
        (true, YieldPoll::Ready)
    } else {
        (true, YieldPoll::WakeAndPend)
    }
}

/// How many of `polls` consecutive polls, starting from the flag `done`, ask
/// the executor to pend.
pub open spec fn pends_over(done: bool, polls: nat) -> nat
    decreases polls,
{
    if polls == 0 {
        0
    } else {
        let (next, r) = yield_step(done);
        (if r == YieldPoll::WakeAndPend { 1nat } else { 0nat }) + pends_over(next, (polls - 1) as nat)
    }
}

/// A fresh yield future yields exactly once: its first poll wakes the task and
/// pends, its second poll completes.
pub proof fn law_fresh_yield_pends_then_completes()
    ensures
        yield_step(false).1 == YieldPoll::WakeAndPend,
        yield_step(yield_step(false).0).1 == YieldPoll::Ready,
{
}

/// Once a yield future has yielded, every further poll completes and leaves it
/// complete.
pub proof fn law_yielded_stays_ready(done: bool)
    requires
        done,
    ensures
        yield_step(done) == (true, YieldPoll::Ready),
{
}

/// However often it is polled, a yield future asks to pend at most once, and
/// never once it has yielded.
pub proof fn law_pends_at_most_once(done: bool, polls: nat)
    ensures
        pends_over(done, polls) <= 1,
        done ==> pends_over(done, polls) == 0,
    decreases polls,
{
    if polls > 0 {
        law_pends_at_most_once(true, (polls - 1) as nat);
    }
}

/// Future returned by [`YieldNow::yield_now`]. The first poll wakes the task
/// and reports pending; every poll after that reports ready.
#[derive(Debug, Clone, Copy)]
pub struct YieldNowFut {
    done: bool,
    answer: Option<Preemption>,
}

impl YieldNowFut {
    /// Whether the future has already yielded, so that its next poll completes.
    pub closed spec fn done(self) -> bool {
        self.done
    }

    /// The executor's answer to whether the task should yield, when the
    /// future was made from one.
    pub closed spec fn answer(self) -> Option<Preemption> {
        self.answer
    }

    /// Whether the future has already yielded.
    pub fn is_done(&self) -> (b: bool)
        ensures
            b == self.done(),
    {
        self.done
    }

    /// One poll: reports what the executor must do, and records that the task
    /// has yielded.
    pub fn poll_step(&mut self) -> (r: YieldPoll)
        ensures
            (final(self).done(), r) == yield_step(old(self).done()),
            final(self).answer() == old(self).answer(),
    {
        if self.done {
            return YieldPoll::Ready;
        }
        self.done = true;
        YieldPoll::WakeAndPend
    }
}

/// The future that `yield_now` gives on glommio, given whether other tasks
/// are waiting: one that yields once when they are, and one that is complete
/// at once otherwise.
pub fn yield_for_preemption(need_preempt: bool) -> (f: YieldNowFut)
    ensures
        f.done() == !need_preempt,
        f.answer() is None,
{
    YieldNowFut { done: !need_preempt, answer: None }
}

/// The future that `yield_now` gives on glommio, from glommio's answer: one
/// that yields once when glommio wants the task to yield, and one that is
/// complete at once otherwise. It carries the answer.
pub fn yield_for_answer(answer: Preemption) -> (f: YieldNowFut)
    ensures
        f.done() == !answer.wanted(),
        f.answer() == Some(answer),
{
    YieldNowFut { done: !answer.is_wanted(), answer: Some(answer) }
}

/// A yield future made from the executor's answer asks the executor to pend
/// on its first poll exactly when the executor wanted the task to yield, and
/// once it has pended it completes on the next poll.
pub proof fn law_answered_yield_follows_the_answer(f: YieldNowFut)
    requires
        f.answer() is Some,
        f.done() == !f.answer()->0.wanted(),
    ensures
        yield_step(f.done()).1 == YieldPoll::WakeAndPend <==> f.answer()->0.wanted(),
        yield_step(yield_step(f.done()).0).1 == YieldPoll::Ready,
{
}

/// Trait indicating that tasks can yield to the executor. This puts the current
/// task at the back of the scheduler's queue, giving other tasks a chance to run.
pub trait YieldNow {
    /// Await this future in order to yield to the executor.
    fn yield_now(&self) -> (fut: YieldNowFut)
        default_ensures
            !fut.done(),
    {
        YieldNowFut { done: false, answer: None }
    }
}

impl<'a, T: YieldNow> YieldNow for &'a T {
}

impl<'a, T: YieldNow> YieldNow for &'a mut T {
}

impl<T: YieldNow> YieldNow for Box<T> {
}

impl<T: YieldNow> YieldNow for Rc<T> {
}

impl<T: YieldNow> YieldNow for Arc<T> {
}

} // verus!
