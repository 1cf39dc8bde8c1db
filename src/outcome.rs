use vstd::prelude::*;

verus! {

/// How a submitted closure ended: it returned a value, or it unwound with a
/// payload that stays opaque to this crate (`P` is usually the boxed panic
/// payload that `catch_unwind` hands back).
#[derive(Debug)]
pub enum Outcome<T, P> {
    Completed(T),
    Aborted(P),
}

/// The outcome that a captured run of a closure stands for: `Ok` is a normal
/// return, `Err` an unwind with its payload.
pub open spec fn outcome_of<T, P>(r: Result<T, P>) -> Outcome<T, P> {
    match r {
        Ok(v) => Outcome::Completed(v),
        Err(p) => Outcome::Aborted(p),
    }
}

impl<T, P> Outcome<T, P> {
    /// Turns the result of a captured run into an outcome.
    pub fn from_result(r: Result<T, P>) -> (o: Self)
        ensures
            o == outcome_of(r),
    {
        match r {
            Ok(v) => Outcome::Completed(v),
            Err(p) => Outcome::Aborted(p),
        }
    }

    /// The inverse of `from_result`.
    pub fn into_result(self) -> (r: Result<T, P>)
        ensures
            outcome_of(r) == self,
    {
        match self {
            Outcome::Completed(v) => Ok(v),
            Outcome::Aborted(p) => Err(p),
        }
    }

    pub fn is_completed(&self) -> (b: bool)
        ensures
            b == (*self is Completed),
    {
        match self {
            Outcome::Completed(_) => true,
            Outcome::Aborted(_) => false,
        }
    }
}

} // verus!
