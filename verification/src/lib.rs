//! Verified ownership and sharing primitives, together with a set of small
//! verified value types and string helpers.
//!
//! The two central modules are [`boxed`], which provides exclusive ownership
//! of a single value ([`boxed::OwnedBox`]), and [`shared`], which provides
//! reference-counted shared ownership with an explicit live-handle count
//! ([`shared::SharedStore`]).

pub mod boxed;
pub mod coins;
pub mod rect;
pub mod routing;
pub mod shared;
pub mod strings;
pub mod summary;
pub mod users;

use vstd::prelude::*;

verus! {

/// Returns the number five.
pub fn five() -> (n: i32)
    ensures
        n == 5,
{
    5
}

} // verus!
