use crate::outcome::Outcome;
use std::task::Context;
use tokio::sync::oneshot::error::RecvError;
use tokio::sync::oneshot::{Receiver, Sender};
use vstd::prelude::*;

verus! {

#[verifier::external_type_specification]
#[verifier::external_body]
#[verifier::reject_recursive_types(T)]
pub struct ExSender<T>(Sender<T>);

#[verifier::external_type_specification]
#[verifier::external_body]
#[verifier::reject_recursive_types(T)]
pub struct ExReceiver<T>(Receiver<T>);

#[verifier::external_type_specification]
#[verifier::external_body]
pub struct ExRecvError(RecvError);

#[verifier::external_type_specification]
#[verifier::external_body]
pub struct ExContext<'a>(Context<'a>);

/// The sending half went away without ever sending an outcome.
///
/// The submission path always sends before it lets go of its sender, so this
/// only shows up when a pool is torn down with the closure still queued, or
/// when a `CompletionSender` is dropped unused.
#[derive(Clone, Copy, Debug, PartialEq, Eq, Structural)]
pub struct ChannelClosed;

/// What the completion channel hands its single reader.
pub type Delivery<T, P> = Result<Outcome<T, P>, ChannelClosed>;

/// What one poll of a receiver found. The receiver comes back only while it
/// is still waiting: once it has yielded, it is gone.
#[verifier::reject_recursive_types(T)]
pub(crate) enum RecvPoll<T> {
    Waiting(Receiver<T>),
    Received(T),
    Closed,
}

/// Relies on `tokio::sync::oneshot::channel`: a fresh sender and receiver
/// joined to each other.
#[verifier::external_body]
pub(crate) fn oneshot_channel<T>() -> (Sender<T>, Receiver<T>) {
    tokio::sync::oneshot::channel()
}

/// Relies on `tokio::sync::oneshot::Sender::send`: it never blocks, and when
/// the receiver is already gone the value is handed back untouched in `Err`.
#[verifier::external_body]
fn oneshot_send<T>(tx: Sender<T>, v: T) -> (r: Result<(), T>)
    ensures
        r is Err ==> r->Err_0 == v,
{
    tx.send(v)
}

/// Relies on tokio's `Future` impl for `oneshot::Receiver`: `Pending` leaves
/// the task registered for a wake-up, `Ready(Ok(v))` carries the sent value,
/// `Ready(Err(_))` says the sender dropped without sending. tokio panics when
/// a receiver is polled after it yielded; the receiver is therefore moved in
/// and handed back only while pending.
#[verifier::external_body]
pub(crate) fn oneshot_poll<T>(rx: Receiver<T>, cx: &mut Context) -> (r: RecvPoll<T>)
    ensures
        r is Waiting ==> r->Waiting_0 == rx,
{
    let mut rx = rx;
    match std::future::Future::poll(std::pin::Pin::new(&mut rx), cx) {
        std::task::Poll::Pending => RecvPoll::Waiting(rx),
        std::task::Poll::Ready(Ok(v)) => RecvPoll::Received(v),
        std::task::Poll::Ready(Err(_)) => RecvPoll::Closed,
    }
}

/// The worker side of a completion channel: used once, to send the outcome
/// of the closure it was paired with.
#[verifier::reject_recursive_types(T)]
#[verifier::reject_recursive_types(P)]
pub struct CompletionSender<T, P> {
    tx: Sender<Outcome<T, P>>,
}

impl<T, P> CompletionSender<T, P> {
    pub(crate) fn new(tx: Sender<Outcome<T, P>>) -> Self {
        CompletionSender { tx }
    }

    /// Sends the outcome to the handle. This never blocks and never fails
    /// visibly: when the handle has already been dropped, the outcome is
    /// dropped here, on the calling (worker) thread, so a panic in its
    /// destructor goes to that thread's own panic handling.
    pub fn complete(self, outcome: Outcome<T, P>) {
        // An unclaimed outcome comes back in `Err` and is dropped at the end
        // of this statement.
        let _ = oneshot_send(self.tx, outcome);
    }
}

} // verus!
