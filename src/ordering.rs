use vstd::prelude::*;

verus! {

/// Which queued submission a freed worker picks up next.
///
/// `Lifo` favours the most recent submission (good for recursive fan-out);
/// `Fifo` runs submissions in the order they were made. The discipline is a
/// property of each call, not of the pool or of the handle.
#[derive(Clone, Copy, Debug, PartialEq, Eq, Structural)]
pub enum Ordering {
    Lifo,
    Fifo,
}

} // verus!
