//! A wrapper that authorises its own release ahead of time.

use crate::model::RegionKind;
use crate::state::ForbidState;
use vstd::prelude::*;

verus! {

/// A value whose release is permitted wherever it happens.
///
/// The wrapper stands for its value in every read and every call made
/// through it, and those stay subject to the checks of the surrounding
/// state. Only [`PermitDrop::release`] differs: it destroys the value in a
/// region that permits deallocation.
pub struct PermitDrop<T> {
    value: T,
}

impl<T> View for PermitDrop<T> {
    type V = T;

    closed spec fn view(&self) -> T {
        self.value
    }
}

impl<T> PermitDrop<T> {
    /// Wraps a value. The state of the thread is not consulted.
    pub fn new(value: T) -> (wrapper: PermitDrop<T>)
        ensures
            wrapper@ == value,
    {
        PermitDrop { value }
    }

    /// Destroys the wrapped value with `destroy`, in a region that permits
    /// deallocation and leaves allocation as forbidden as it was.
    ///
    /// The wrapper is consumed, so it is released once.
    pub fn release<F>(self, state: &mut ForbidState, destroy: F) where
        F: FnOnce(T, &mut ForbidState),

        requires
            forall|inner: &mut ForbidState|
                inner@ == old(state)@.enter(RegionKind::PermitDealloc) ==> call_requires(
                    destroy,
                    (self@, inner),
                ),
        ensures
            exists|inner: &mut ForbidState|
                inner@ == old(state)@.enter(RegionKind::PermitDealloc) && call_ensures(
                    destroy,
                    (self@, inner),
                    (),
                ) && final(state)@ == final(inner)@.leave(
                    old(state)@.capture(RegionKind::PermitDealloc),
                ),
    {
        let region = state.enter(RegionKind::PermitDealloc);
        destroy(self.value, state);
        state.leave(region);
    }
}

impl<T> std::ops::Deref for PermitDrop<T> {
    type Target = T;

    fn deref(&self) -> (value: &T)
        ensures
            *value == self@,
    {
        &self.value
    }
}

impl<T> std::ops::DerefMut for PermitDrop<T> {
    fn deref_mut(&mut self) -> (value: &mut T)
        ensures
            *value == old(self)@,
            final(self)@ == *final(value),
    {
        &mut self.value
    }
}

} // verus!
