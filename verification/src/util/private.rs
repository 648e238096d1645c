use vstd::prelude::*;

verus! {

/// Seals the entry-marker traits: only the entry types of this crate implement them.
pub trait Sealed {}

} // verus!
