//! Awaitable hand-off of blocking, CPU-heavy closures from async code to a
//! rayon worker pool.
//!
//! A closure is wrapped so that its result, or the payload of its panic, is
//! carried back over a one-shot completion channel; the receiving half is a
//! `TaskHandle` that the awaiting task polls until an outcome arrives.
//! Everything that decides what a poll yields is verified here; catching a
//! closure's panic and the `Future` impls sit in the companion crate.

mod channel;
mod handle;
mod ordering;
mod outcome;
mod seal;
mod submit;

pub use channel::{ChannelClosed, CompletionSender, Delivery};
pub use handle::{
    completion_channel, finish, finish_of, lemma_result_contract, lemma_round_trip,
    lemma_unwind_propagates, settle, settle_of, Finish, Step, TaskError, TaskHandle,
};
pub use ordering::Ordering;
pub use outcome::{outcome_of, Outcome};
pub use submit::{submit_global, submit_to, Sealed};
