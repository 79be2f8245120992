//! The interception point that every allocator call passes through.

use crate::model::{RegionKind, Request};
use crate::policy::Policy;
use crate::state::{ForbidState, RegionDescriptor};
use vstd::prelude::*;

verus! {

/// What the caller of the hook does with the allocator call.
#[derive(Debug, PartialEq, Eq)]
pub enum Decision {
    /// Hand the call to the real allocator.
    Delegate,
    /// Raise the failure that reports a violation. Both counters are at zero
    /// while the failure is reported; the descriptor puts them back once the
    /// failure has left the hook.
    Raise(RegionDescriptor),
}

/// The allocator hook. It owns no state: it judges each call against the
/// state of the calling thread.
#[derive(Clone, Copy, Debug)]
pub struct AllocDisabler;

impl AllocDisabler {
    /// Judges one allocator call of the given kind on the calling thread.
    ///
    /// A call whose counter is at zero is delegated and changes nothing.
    /// Otherwise the policy of the state decides: the violation is counted
    /// and the call delegated, or both counters are zeroed and a failure is
    /// to be raised, or nothing is checked at all.
    pub fn check(&self, state: &mut ForbidState, request: Request) -> (decision: Decision)
        requires
            old(state)@.can_count(request),
        ensures
            final(state)@ == old(state)@.check(request),
            old(state)@.raises(request) <==> decision is Raise,
            decision matches Decision::Raise(region) ==> region@ == old(state)@.capture(
                RegionKind::PermitAlloc,
            ),
    {
        if !state.forbids(request) {
            return Decision::Delegate;
        }
        match state.policy() {
            Policy::Disabled => Decision::Delegate,
            Policy::Count => {
                state.count_violation();
                Decision::Delegate
            },
            Policy::Abort => Decision::Raise(state.enter(RegionKind::PermitAlloc)),
        }
    }
}

/// The text of the failure that reports a violation under [`Policy::Abort`].
pub fn violation_message() -> (message: &'static str)
    ensures
        message@ == "Tried to (de)allocate memory in a thread forbids allocator calls!"@,
{
    "Tried to (de)allocate memory in a thread forbids allocator calls!"
}

} // verus!
