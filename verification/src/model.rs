//! The mathematical model of one thread's forbid/permit bookkeeping.
//!
//! The counters are natural numbers here, so that nesting is unbounded in
//! the model; the executable state holds them in machine integers and asks
//! of its callers that an increment fits.

use crate::policy::Policy;
use vstd::prelude::*;

verus! {

/// The two kinds of allocator call that pass through the hook.
#[derive(Clone, Copy, Debug, PartialEq, Eq, Structural)]
pub enum Request {
    /// A request for memory.
    Alloc,
    /// A request to give memory back.
    Dealloc,
}

/// The three kinds of scoped region.
#[derive(Clone, Copy, Debug, PartialEq, Eq, Structural)]
pub enum RegionKind {
    /// Allocation and deallocation are forbidden inside.
    Forbidden,
    /// Allocation and deallocation are permitted inside.
    PermitAlloc,
    /// Deallocation is permitted inside; allocation stays as it was.
    PermitDealloc,
}

/// One thread's bookkeeping: how many forbidden regions are open for each
/// kind of call, and how many violations were counted.
pub struct ForbidModel {
    pub policy: Policy,
    pub alloc_forbidden_depth: nat,
    pub dealloc_forbidden_depth: nat,
    pub violation_count: nat,
}

/// What a region captured on entry: for each counter the value to put back
/// on exit, or `None` where the region leaves that counter alone.
pub struct RegionModel {
    pub alloc_forbidden_depth: Option<nat>,
    pub dealloc_forbidden_depth: Option<nat>,
}

impl RegionModel {
    /// The capture of a region that restores nothing.
    pub open spec fn nothing() -> RegionModel {
        RegionModel { alloc_forbidden_depth: None, dealloc_forbidden_depth: None }
    }
}

impl ForbidModel {
    /// The bookkeeping of a thread that has not entered any region.
    pub open spec fn fresh(policy: Policy) -> ForbidModel {
        ForbidModel {
            policy,
            alloc_forbidden_depth: 0,
            dealloc_forbidden_depth: 0,
            violation_count: 0,
        }
    }

    /// The nesting counter that governs calls of the given kind.
    pub open spec fn depth(self, request: Request) -> nat {
        match request {
            Request::Alloc => self.alloc_forbidden_depth,
            Request::Dealloc => self.dealloc_forbidden_depth,
        }
    }

    /// Whether a call of the given kind is a violation in this state.
    pub open spec fn forbids(self, request: Request) -> bool {
        !(self.policy is Disabled) && self.depth(request) > 0
    }

    /// Whether a call of the given kind is answered by raising a failure.
    pub open spec fn raises(self, request: Request) -> bool {
        self.policy is Abort && self.forbids(request)
    }

    /// What a region of the given kind captures when it is entered from this
    /// state: the counters that it changes, as they stand.
    pub open spec fn capture(self, kind: RegionKind) -> RegionModel {
        if self.policy is Disabled {
            RegionModel::nothing()
        } else {
            match kind {
                RegionKind::Forbidden | RegionKind::PermitAlloc => RegionModel {
                    alloc_forbidden_depth: Some(self.alloc_forbidden_depth),
                    dealloc_forbidden_depth: Some(self.dealloc_forbidden_depth),
                },
                RegionKind::PermitDealloc => RegionModel {
                    alloc_forbidden_depth: None,
                    dealloc_forbidden_depth: Some(self.dealloc_forbidden_depth),
                },
            }
        }
    }

    /// The state inside a region of the given kind entered from this state.
    ///
    /// A forbidden region has both counters one higher. A region that
    /// permits allocation has both at zero. A region that permits
    /// deallocation has the deallocation counter at zero and the allocation
    /// counter untouched.
    pub open spec fn enter(self, kind: RegionKind) -> ForbidModel {
        if self.policy is Disabled {
            self
        } else {
            match kind {
                RegionKind::Forbidden => ForbidModel {
                    alloc_forbidden_depth: self.alloc_forbidden_depth + 1,
                    dealloc_forbidden_depth: self.dealloc_forbidden_depth + 1,
                    ..self
                },
                RegionKind::PermitAlloc => ForbidModel {
                    alloc_forbidden_depth: 0,
                    dealloc_forbidden_depth: 0,
                    ..self
                },
                RegionKind::PermitDealloc => ForbidModel { dealloc_forbidden_depth: 0, ..self },
            }
        }
    }

    /// The state after a region ends in this state: each captured counter is
    /// put back to its captured value, whatever it has become meanwhile.
    pub open spec fn leave(self, region: RegionModel) -> ForbidModel {
        if self.policy is Disabled {
            self
        } else {
            ForbidModel {
                alloc_forbidden_depth: match region.alloc_forbidden_depth {
                    Some(depth) => depth,
                    None => self.alloc_forbidden_depth,
                },
                dealloc_forbidden_depth: match region.dealloc_forbidden_depth {
                    Some(depth) => depth,
                    None => self.dealloc_forbidden_depth,
                },
                ..self
            }
        }
    }

    /// The state after the hook has judged a call of the given kind.
    ///
    /// A permitted call changes nothing. A violation is counted under
    /// [`Policy::Count`]; under [`Policy::Abort`] both counters drop to zero
    /// so that whatever reports the failure may allocate unchecked.
    pub open spec fn check(self, request: Request) -> ForbidModel {
        if !self.forbids(request) {
            self
        } else {
            match self.policy {
                Policy::Abort => self.enter(RegionKind::PermitAlloc),
                Policy::Count => ForbidModel {
                    violation_count: self.violation_count + 1,
                    ..self
                },
                Policy::Disabled => self,
            }
        }
    }

    /// The state with the count of violations back at zero.
    pub open spec fn reset_violation_count(self) -> ForbidModel {
        ForbidModel { violation_count: 0, ..self }
    }

    /// Whether the machine counters can take a region of the given kind:
    /// only a forbidden region counts upwards.
    pub open spec fn can_enter(self, kind: RegionKind) -> bool {
        kind is Forbidden && !(self.policy is Disabled) ==> self.alloc_forbidden_depth < u32::MAX
            && self.dealloc_forbidden_depth < u32::MAX
    }

    /// Whether the machine counter can take the violation, if any, that a
    /// call of the given kind would add.
    pub open spec fn can_count(self, request: Request) -> bool {
        self.policy is Count && self.forbids(request) ==> self.violation_count < u32::MAX
    }
}

} // verus!
