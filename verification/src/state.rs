//! The executable per-thread state and the primitive region transitions.

use crate::model::{ForbidModel, RegionKind, RegionModel, Request};
use crate::policy::Policy;
use vstd::prelude::*;

verus! {

/// One thread's forbid/permit bookkeeping.
///
/// A thread creates it once, before its first region, and hands it to every
/// guard and to the allocator hook. Nothing but those mutates it.
#[derive(Clone, Copy, Debug, PartialEq, Eq)]
pub struct ForbidState {
    policy: Policy,
    alloc_forbidden_depth: u32,
    dealloc_forbidden_depth: u32,
    violation_count: u32,
}

/// The counters that a region captured when it was entered.
///
/// It is consumed by [`ForbidState::leave`], so a region is left once.
#[derive(Debug, PartialEq, Eq)]
pub struct RegionDescriptor {
    alloc_forbidden_depth: Option<u32>,
    dealloc_forbidden_depth: Option<u32>,
}

impl View for ForbidState {
    type V = ForbidModel;

    closed spec fn view(&self) -> ForbidModel {
        ForbidModel {
            policy: self.policy,
            alloc_forbidden_depth: self.alloc_forbidden_depth as nat,
            dealloc_forbidden_depth: self.dealloc_forbidden_depth as nat,
            violation_count: self.violation_count as nat,
        }
    }
}

impl View for RegionDescriptor {
    type V = RegionModel;

    closed spec fn view(&self) -> RegionModel {
        RegionModel {
            alloc_forbidden_depth: match self.alloc_forbidden_depth {
                Some(depth) => Some(depth as nat),
                None => None,
            },
            dealloc_forbidden_depth: match self.dealloc_forbidden_depth {
                Some(depth) => Some(depth as nat),
                None => None,
            },
        }
    }
}

impl ForbidState {
    /// The state of a thread that has not entered any region.
    pub fn new(policy: Policy) -> (state: ForbidState)
        ensures
            state@ == ForbidModel::fresh(policy),
    {
        ForbidState {
            policy,
            alloc_forbidden_depth: 0,
            dealloc_forbidden_depth: 0,
            violation_count: 0,
        }
    }

    /// The policy that this state was created with.
    pub fn policy(&self) -> (policy: Policy)
        ensures
            policy == self@.policy,
    {
        self.policy
    }

    /// How many forbidden regions are open for allocation.
    pub fn alloc_forbidden_depth(&self) -> (depth: u32)
        ensures
            depth == self@.alloc_forbidden_depth,
    {
        self.alloc_forbidden_depth
    }

    /// How many forbidden regions are open for deallocation.
    pub fn dealloc_forbidden_depth(&self) -> (depth: u32)
        ensures
            depth == self@.dealloc_forbidden_depth,
    {
        self.dealloc_forbidden_depth
    }

    /// Whether a call of the given kind would be a violation now.
    pub fn forbids(&self, request: Request) -> (forbidden: bool)
        ensures
            forbidden == self@.forbids(request),
    {
        match self.policy {
            Policy::Disabled => false,
            _ => match request {
                Request::Alloc => self.alloc_forbidden_depth > 0,
                Request::Dealloc => self.dealloc_forbidden_depth > 0,
            },
        }
    }

    /// Whether the counters can take a region of the given kind, as
    /// [`ForbidState::enter`] asks.
    pub fn can_enter(&self, kind: RegionKind) -> (fits: bool)
        ensures
            fits == self@.can_enter(kind),
    {
        match (kind, self.policy) {
            (RegionKind::Forbidden, Policy::Abort) | (RegionKind::Forbidden, Policy::Count) => {
                self.alloc_forbidden_depth < u32::MAX && self.dealloc_forbidden_depth < u32::MAX
            },
            _ => true,
        }
    }

    /// Whether the count of violations can take what a call of the given
    /// kind would add, as the allocator hook asks.
    pub fn can_count(&self, request: Request) -> (fits: bool)
        ensures
            fits == self@.can_count(request),
    {
        match self.policy {
            Policy::Count => !self.forbids(request) || self.violation_count < u32::MAX,
            _ => true,
        }
    }

    /// Enters a region of the given kind and returns what to restore on
    /// leaving it.
    pub fn enter(&mut self, kind: RegionKind) -> (region: RegionDescriptor)
        requires
            old(self)@.can_enter(kind),
        ensures
            final(self)@ == old(self)@.enter(kind),
            region@ == old(self)@.capture(kind),
    {
        match self.policy {
            Policy::Disabled => RegionDescriptor {
                alloc_forbidden_depth: None,
                dealloc_forbidden_depth: None,
            },
            _ => {
                let alloc_forbidden_depth: u32 = self.alloc_forbidden_depth;
                let dealloc_forbidden_depth: u32 = self.dealloc_forbidden_depth;
                match kind {
                    RegionKind::Forbidden => {
                        self.alloc_forbidden_depth = alloc_forbidden_depth + 1;
                        self.dealloc_forbidden_depth = dealloc_forbidden_depth + 1;
                    },
                    RegionKind::PermitAlloc => {
                        self.alloc_forbidden_depth = 0;
                        self.dealloc_forbidden_depth = 0;
                    },
                    RegionKind::PermitDealloc => {
                        self.dealloc_forbidden_depth = 0;
                    },
                }
                RegionDescriptor {
                    alloc_forbidden_depth: match kind {
                        RegionKind::PermitDealloc => None,
                        _ => Some(alloc_forbidden_depth),
                    },
                    dealloc_forbidden_depth: Some(dealloc_forbidden_depth),
                }
            },
        }
    }

    /// Counts one violation.
    pub(crate) fn count_violation(&mut self)
        requires
            old(self)@.violation_count < u32::MAX,
        ensures
            final(self)@ == (ForbidModel {
                violation_count: old(self)@.violation_count + 1,
                ..old(self)@
            }),
    {
        self.violation_count = self.violation_count + 1;
    }

    /// Leaves a region: puts each counter that the region captured back to
    /// its captured value.
    pub fn leave(&mut self, region: RegionDescriptor)
        ensures
            final(self)@ == old(self)@.leave(region@),
    {
        match self.policy {
            Policy::Disabled => {},
            _ => {
                match region.alloc_forbidden_depth {
                    Some(depth) => {
                        self.alloc_forbidden_depth = depth;
                    },
                    None => {},
                }
                match region.dealloc_forbidden_depth {
                    Some(depth) => {
                        self.dealloc_forbidden_depth = depth;
                    },
                    None => {},
                }
            },
        }
    }
}

/// The number of violations counted since the state was created or last
/// reset. Only [`Policy::Count`] ever counts one.
pub fn violation_count(state: &ForbidState) -> (count: u32)
    ensures
        count == state@.violation_count,
{
    state.violation_count
}

/// Puts the count of violations back to zero and leaves the rest alone.
pub fn reset_violation_count(state: &mut ForbidState)
    ensures
        final(state)@ == old(state)@.reset_violation_count(),
{
    state.violation_count = 0;
}

} // verus!
