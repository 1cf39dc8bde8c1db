use crate::handle::{completion_channel, TaskHandle};
use crate::ordering::Ordering;
use crate::outcome::Outcome;
use crate::seal::Seal;
use rayon::ThreadPool;
use vstd::prelude::*;

verus! {

#[verifier::external_type_specification]
#[verifier::external_body]
pub struct ExThreadPool(ThreadPool);

/// Relies on `rayon::spawn`: enqueues `func` on the global pool, LIFO, and
/// returns at once; the pool later calls it exactly once.
pub assume_specification<F>[ rayon::spawn::<F> ](func: F)
    where
        F: FnOnce() + Send + 'static,
    requires
        func.requires(()),
;

/// Relies on `rayon::spawn_fifo`: as `rayon::spawn`, in FIFO order.
pub assume_specification<F>[ rayon::spawn_fifo::<F> ](func: F)
    where
        F: FnOnce() + Send + 'static,
    requires
        func.requires(()),
;

/// Relies on `rayon::ThreadPool::spawn`: as `rayon::spawn`, on this pool.
pub assume_specification<OP>[ ThreadPool::spawn::<OP> ](pool: &ThreadPool, op: OP)
    where
        OP: FnOnce() + Send + 'static,
    requires
        op.requires(()),
;

/// Relies on `rayon::ThreadPool::spawn_fifo`: as `rayon::spawn_fifo`, on
/// this pool.
pub assume_specification<OP>[ ThreadPool::spawn_fifo::<OP> ](pool: &ThreadPool, op: OP)
    where
        OP: FnOnce() + Send + 'static,
    requires
        op.requires(()),
;

/// Marks the pools that the async submission methods are offered for. Its
/// supertrait is out of reach of other crates, so no type beyond those
/// listed here can take it on.
pub trait Sealed: Seal {}

impl Seal for ThreadPool {}

impl Sealed for ThreadPool {}

/// Submits `run` to the process-wide rayon pool under `order` and returns the
/// handle at once, without waiting for `run` to start.
///
/// `run` is the closure under a capture of its unwinding: `Err` carries the
/// payload of a panic. Whatever it returns is sent, as an `Outcome`, to the
/// handle; when the handle is gone by then, the outcome is dropped on the
/// worker thread.
pub fn submit_global<F, R, P>(run: F, order: Ordering) -> (h: TaskHandle<R, P>)
    where
        F: FnOnce() -> Result<R, P> + Send + 'static,
        R: Send + 'static,
        P: Send + 'static,
    requires
        run.requires(()),
    ensures
        !h.is_resolved(),
{
    let (tx, handle) = completion_channel();
    let job = move ||
        requires
            run.requires(()),
        {
            let r = run();
            tx.complete(Outcome::from_result(r));
        };
    match order {
        Ordering::Lifo => rayon::spawn(job),
        Ordering::Fifo => rayon::spawn_fifo(job),
    }
    handle
}

/// As `submit_global`, on the given pool.
pub fn submit_to<F, R, P>(pool: &ThreadPool, run: F, order: Ordering) -> (h: TaskHandle<R, P>)
    where
        F: FnOnce() -> Result<R, P> + Send + 'static,
        R: Send + 'static,
        P: Send + 'static,
    requires
        run.requires(()),
    ensures
        !h.is_resolved(),
{
    let (tx, handle) = completion_channel();
    let job = move ||
        requires
            run.requires(()),
        {
            let r = run();
            tx.complete(Outcome::from_result(r));
        };
    match order {
        Ordering::Lifo => pool.spawn(job),
        Ordering::Fifo => pool.spawn_fifo(job),
    }
    handle
}

} // verus!
