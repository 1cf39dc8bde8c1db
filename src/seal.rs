use vstd::prelude::*;

verus! {

/// Held by the pools this crate supports; the module is private, so the trait
/// cannot be named, nor implemented, outside the crate.
pub trait Seal {}

} // verus!
