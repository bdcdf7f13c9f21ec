//! The ownership handle: a typed, owning, nullable address.

use vstd::prelude::*;

verus! {

/// What a handle points at, as a plain optional value.
pub open spec fn unboxed<T>(p: Option<Box<T>>) -> Option<T> {
    match p {
        Option::Some(b) => Option::Some(*b),
        Option::None => Option::None,
    }
}

/// An owning handle over at most one heap target of type `T`.
///
/// The handle asserts single, exclusive logical ownership of its target:
/// for ownership purposes it behaves as if it directly contained a `T`.
/// A handle with no target is the null sentinel. The handle performs no
/// element bookkeeping of its own; deciding when the target's contents are
/// torn down is its owner's responsibility.
pub struct Unique<T> {
    target: Option<Box<T>>,
}

impl<T> View for Unique<T> {
    type V = Option<T>;

    closed spec fn view(&self) -> Option<T> {
        unboxed(self.target)
    }
}

impl<T> Unique<T> {
    /// Wraps a target; no validation is performed.
    pub fn new(target: Option<Box<T>>) -> (u: Self)
        ensures
            u@ == unboxed(target),
    {
        Unique { target }
    }

    /// Borrows the canonical target, if there is one.
    pub fn as_ptr(&self) -> (r: Option<&T>)
        ensures
            match r {
                Option::Some(t) => self@ == Option::Some(*t),
                Option::None => self@ is None,
            },
    {
        match &self.target {
            Option::Some(b) => Option::Some(&**b),
            Option::None => Option::None,
        }
    }

    /// True iff the handle is the null sentinel.
    pub fn is_null(&self) -> (r: bool)
        ensures
            r == (self@ is None),
    {
        self.target.is_none()
    }

    /// Surrenders ownership of the target, leaving the null sentinel behind.
    pub fn take(&mut self) -> (p: Option<Box<T>>)
        ensures
            unboxed(p) == old(self)@,
            final(self)@ is None,
    {
        self.target.take()
    }
}

} // verus!
