//! Exclusive ownership of a single value.
//!
//! An [`OwnedBox`] holds exactly one value with a single owner. The owner may
//! read or change the value through a borrow, or take the value back out with
//! [`OwnedBox::move_out`], which consumes the box. Because every operation
//! that ends the box's life consumes it by value, the contained value can be
//! released at most once, and the type system rejects any use of a box after
//! it has been moved out of.

use vstd::prelude::*;

verus! {

/// A handle with sole, transferable ownership of one value.
pub struct OwnedBox<T> {
    value: T,
}

/// The box that [`OwnedBox::construct`] returns for a given value.
pub closed spec fn spec_construct<T>(value: T) -> OwnedBox<T> {
    OwnedBox { value }
}

impl<T> OwnedBox<T> {
    /// The value the box contains.
    pub closed spec fn spec_value(self) -> T {
        self.value
    }

    /// Takes ownership of `value` and returns the box that contains it.
    pub fn construct(value: T) -> (b: OwnedBox<T>)
        ensures
            b == spec_construct(value),
            b.spec_value() == value,
    {
        OwnedBox { value }
    }

    /// Borrows the contained value.
    pub fn access(&self) -> (r: &T)
        ensures
            *r == self.spec_value(),
    {
        &self.value
    }

    /// Mutably borrows the contained value; when the borrow ends, the box
    /// contains whatever the caller left behind the returned reference.
    pub fn access_mut(&mut self) -> (r: &mut T)
        ensures
            *r == old(self).spec_value(),
            final(self).spec_value() == *final(r),
    {
        &mut self.value
    }

    /// Consumes the box and hands its value back to the caller. The box
    /// cannot be used afterwards, so the value leaves it exactly once.
    pub fn move_out(self) -> (value: T)
        ensures
            value == self.spec_value(),
    {
        self.value
    }
}

/// Law: a box constructed from `value` contains exactly `value`, so
/// accessing or moving out of a freshly constructed box yields `value`.
pub proof fn lemma_construct_contains<T>(value: T)
    ensures
        spec_construct(value).spec_value() == value,
{
}

/// A minimal owned wrapper around a single value, with an explicit accessor
/// in place of dereference.
pub struct MyBox<T>(pub T);

impl<T> MyBox<T> {
    /// Wraps `x`.
    pub fn new(x: T) -> (b: MyBox<T>)
        ensures
            b.0 == x,
    {
        MyBox(x)
    }

    /// Borrows the wrapped value.
    pub fn deref(&self) -> (r: &T)
        ensures
            *r == self.0,
    {
        &self.0
    }
}

} // verus!
