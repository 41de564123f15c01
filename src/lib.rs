//! Deterministic property-based test planning: generators that draw test
//! cases from a seeded random source, plans that replay a fixed stream of
//! cases, and the reports that let a failing case be regenerated.

pub mod defaults;
pub mod duplicate;
pub mod generator;
pub mod generators;
pub mod reporter;
pub mod run;
pub mod source;
pub mod try_clone;

use vstd::prelude::*;

verus! {

/// The sum of two sizes.
pub fn add(left: usize, right: usize) -> (r: usize)
    requires
        left + right <= usize::MAX,
    ensures
        r == left + right,
{
    left + right
}

} // verus!
