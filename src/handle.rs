use crate::channel::{
    oneshot_channel, oneshot_poll, ChannelClosed, CompletionSender, Delivery, RecvPoll,
};
use crate::outcome::{outcome_of, Outcome};
use std::task::Context;
use tokio::sync::oneshot::Receiver;
use vstd::prelude::*;

verus! {

/// The state of a poll: still waiting, an answer, or nothing more to give
/// because the handle already answered.
#[derive(Debug)]
pub enum Step<T> {
    Pending,
    Ready(T),
    Spent,
}

/// What awaiting a handle under the unwinding contract comes to: the value,
/// an unwind to resume with the closure's own payload, or the channel closing
/// with no outcome (a broken invariant, fatal under this contract).
#[derive(Debug)]
pub enum Finish<T, P> {
    Return(T),
    Unwind(P),
    Closed,
}

/// The failure of a task under the `Result` contract.
#[derive(Debug)]
pub enum TaskError<P> {
    /// The closure unwound; this is its payload.
    Aborted(P),
    /// No outcome was ever sent.
    Closed(ChannelClosed),
}

pub open spec fn finish_of<T, P>(d: Delivery<T, P>) -> Finish<T, P> {
    match d {
        Ok(Outcome::Completed(v)) => Finish::Return(v),
        Ok(Outcome::Aborted(p)) => Finish::Unwind(p),
        Err(_) => Finish::Closed,
    }
}

pub open spec fn settle_of<T, P>(d: Delivery<T, P>) -> Result<T, TaskError<P>> {
    match d {
        Ok(Outcome::Completed(v)) => Ok(v),
        Ok(Outcome::Aborted(p)) => Err(TaskError::Aborted(p)),
        Err(c) => Err(TaskError::Closed(c)),
    }
}

/// Resolves a delivery under the unwinding contract.
pub fn finish<T, P>(d: Delivery<T, P>) -> (f: Finish<T, P>)
    ensures
        f == finish_of(d),
{
    match d {
        Ok(Outcome::Completed(v)) => Finish::Return(v),
        Ok(Outcome::Aborted(p)) => Finish::Unwind(p),
        Err(_) => Finish::Closed,
    }
}

/// Resolves a delivery under the `Result` contract; it never unwinds.
pub fn settle<T, P>(d: Delivery<T, P>) -> (r: Result<T, TaskError<P>>)
    ensures
        r == settle_of(d),
{
    match d {
        Ok(Outcome::Completed(v)) => Ok(v),
        Ok(Outcome::Aborted(p)) => Err(TaskError::Aborted(p)),
        Err(c) => Err(TaskError::Closed(c)),
    }
}

/// A closure that returns `v` is awaited as `v`, under either contract: its
/// captured run becomes the outcome that is sent, and that outcome, once
/// delivered, resolves to `v` again.
pub proof fn lemma_round_trip<T, P>(v: T)
    ensures
        finish_of(Ok::<Outcome<T, P>, ChannelClosed>(outcome_of(Ok::<T, P>(v))))
            == Finish::<T, P>::Return(v),
        settle_of(Ok::<Outcome<T, P>, ChannelClosed>(outcome_of(Ok::<T, P>(v))))
            == Ok::<T, TaskError<P>>(v),
{
}

/// A closure that unwinds with payload `p` makes the awaiter unwind with that
/// same payload under the unwinding contract.
pub proof fn lemma_unwind_propagates<T, P>(p: P)
    ensures
        finish_of(Ok::<Outcome<T, P>, ChannelClosed>(outcome_of(Err::<T, P>(p))))
            == Finish::<T, P>::Unwind(p),
{
}

/// Under the `Result` contract the same unwind comes back as `Err`, wrapping
/// the same payload, and a closed channel as `Err` too: every delivery
/// settles without unwinding.
pub proof fn lemma_result_contract<T, P>(p: P, c: ChannelClosed)
    ensures
        settle_of(Ok::<Outcome<T, P>, ChannelClosed>(outcome_of(Err::<T, P>(p))))
            == Err::<T, TaskError<P>>(TaskError::Aborted(p)),
        settle_of(Err::<Outcome<T, P>, ChannelClosed>(c))
            == Err::<T, TaskError<P>>(TaskError::Closed(c)),
{
}

/// What a handle makes of one poll of its receiver, and the receiver it keeps:
/// a receiver still waiting gives `Pending` and is kept; a received outcome is
/// yielded as it came; a sender gone unsent gives `ChannelClosed`. In the last
/// two cases the receiver is done with and nothing is kept.
fn step_of_poll<T>(p: RecvPoll<T>) -> (r: (Step<Result<T, ChannelClosed>>, Option<Receiver<T>>))
    ensures
        match p {
            RecvPoll::Waiting(rx) => r.0 is Pending && r.1 == Some(rx),
            RecvPoll::Received(o) => r.0 == Step::Ready(Ok::<T, ChannelClosed>(o)) && r.1 is None,
            RecvPoll::Closed => r.0 == Step::Ready(Err::<T, ChannelClosed>(ChannelClosed))
                && r.1 is None,
        },
{
    match p {
        RecvPoll::Waiting(rx) => (Step::Pending, Some(rx)),
        RecvPoll::Received(o) => (Step::Ready(Ok(o)), None),
        RecvPoll::Closed => (Step::Ready(Err(ChannelClosed)), None),
    }
}

/// The awaiting side of one submission. It yields one delivery, once; after
/// that it is resolved and every further poll is `Spent`.
#[derive(Debug)]
#[verifier::reject_recursive_types(T)]
#[verifier::reject_recursive_types(P)]
pub struct TaskHandle<T, P> {
    rx: Option<Receiver<Outcome<T, P>>>,
}

/// A connected sender and handle. Dropping the handle severs the channel
/// without stopping whoever holds the sender; dropping the sender unused
/// makes the handle deliver `ChannelClosed`.
pub fn completion_channel<T, P>() -> (r: (CompletionSender<T, P>, TaskHandle<T, P>))
    ensures
        !r.1.is_resolved(),
{
    let (tx, rx) = oneshot_channel();
    (CompletionSender::new(tx), TaskHandle { rx: Some(rx) })
}

impl<T, P> TaskHandle<T, P> {
    /// The handle has yielded its delivery.
    pub closed spec fn is_resolved(&self) -> bool {
        self.rx is None
    }

    pub fn is_finished(&self) -> (b: bool)
        ensures
            b == self.is_resolved(),
    {
        self.rx.is_none()
    }

    /// Polls for the delivery. While nothing has arrived the task stays
    /// registered for a wake-up and the handle stays unresolved; the poll that
    /// finds the delivery yields it and resolves the handle; every poll after
    /// that is `Spent` and leaves the handle as it is.
    pub fn poll_delivery(&mut self, cx: &mut Context) -> (s: Step<Delivery<T, P>>)
        ensures
            old(self).is_resolved() ==> s is Spent,
            !old(self).is_resolved() ==> !(s is Spent),
            final(self).is_resolved() <==> !(s is Pending),
            s is Pending ==> *final(self) == *old(self),
    {
        match self.rx.take() {
            None => Step::Spent,
            Some(rx) => {
                let (s, keep) = step_of_poll(oneshot_poll(rx, cx));
                self.rx = keep;
                s
            },
        }
    }
}

} // verus!
