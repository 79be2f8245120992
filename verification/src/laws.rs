//! What holds of the transitions, stated over the model that the contracts
//! of the executable functions use.

use crate::model::{ForbidModel, RegionKind, Request};
use vstd::prelude::*;

verus! {

/// A region puts back what it captured, whatever state its body ended in: a
/// forbidden region and a region that permits allocation restore both
/// counters, a region that permits deallocation restores the deallocation
/// counter and passes the allocation counter on. The count of violations is
/// the one that the body left. Where checks are disabled the state that the
/// body left is passed on whole.
pub proof fn lemma_leave_restores_captured(
    before: ForbidModel,
    kind: RegionKind,
    body_end: ForbidModel,
)
    requires
        body_end.policy == before.policy,
    ensures
        ({
            let after = body_end.leave(before.capture(kind));
            &&& after.policy == before.policy
            &&& after.violation_count == body_end.violation_count
            &&& before.policy is Disabled ==> after == body_end
            &&& !(before.policy is Disabled) ==> {
                &&& after.dealloc_forbidden_depth == before.dealloc_forbidden_depth
                &&& kind is PermitDealloc ==> after.alloc_forbidden_depth
                    == body_end.alloc_forbidden_depth
                &&& !(kind is PermitDealloc) ==> after.alloc_forbidden_depth
                    == before.alloc_forbidden_depth
            }
        }),
{
}

/// A region whose body ends in the state in which it began leaves the state
/// of before the region.
pub proof fn lemma_enter_then_leave(before: ForbidModel, kind: RegionKind)
    ensures
        before.enter(kind).leave(before.capture(kind)) == before,
{
}

/// An allocator call made directly inside a forbidden region is a
/// violation. When violations are counted it is counted once, the call is
/// delegated, and the count is one higher when the region has been left.
/// When violations abort it raises, with both counters at zero until the
/// descriptor that the hook returned puts them back.
pub proof fn lemma_call_in_forbidden_region_is_reported(state: ForbidModel, request: Request)
    requires
        !(state.policy is Disabled),
    ensures
        ({
            let inside = state.enter(RegionKind::Forbidden);
            let judged = inside.check(request);
            &&& inside.forbids(request)
            &&& state.policy is Count ==> {
                &&& !inside.raises(request)
                &&& judged == ForbidModel {
                    violation_count: inside.violation_count + 1,
                    ..inside
                }
                &&& judged.leave(state.capture(RegionKind::Forbidden)) == ForbidModel {
                    violation_count: state.violation_count + 1,
                    ..state
                }
            }
            &&& state.policy is Abort ==> {
                &&& inside.raises(request)
                &&& !judged.forbids(Request::Alloc)
                &&& !judged.forbids(Request::Dealloc)
                &&& judged.leave(inside.capture(RegionKind::PermitAlloc)) == inside
            }
        }),
{
}

/// An allocator call made while no region forbids its kind is never
/// reported: it is delegated and the state is untouched.
pub proof fn lemma_call_outside_is_not_reported(state: ForbidModel, request: Request)
    requires
        state.depth(request) == 0,
    ensures
        !state.forbids(request),
        !state.raises(request),
        state.check(request) == state,
{
}

/// A region that permits allocation, inside a forbidden region, permits
/// calls of both kinds, and they leave no trace. When it has been left the
/// forbidden region is what it was: calls of both kinds are violations
/// again.
pub proof fn lemma_permit_alloc_in_forbidden_region(state: ForbidModel, request: Request)
    requires
        !(state.policy is Disabled),
    ensures
        ({
            let outer = state.enter(RegionKind::Forbidden);
            let inner = outer.enter(RegionKind::PermitAlloc);
            let after = inner.check(request).leave(outer.capture(RegionKind::PermitAlloc));
            &&& !inner.forbids(Request::Alloc)
            &&& !inner.forbids(Request::Dealloc)
            &&& inner.check(request) == inner
            &&& after == outer
            &&& after.forbids(Request::Alloc)
            &&& after.forbids(Request::Dealloc)
        }),
{
}

/// A region that permits deallocation, inside a forbidden region, permits
/// deallocation and nothing else: an allocation inside it is a violation as
/// it is in the forbidden region itself. When it has been left,
/// deallocation is a violation again.
pub proof fn lemma_permit_dealloc_in_forbidden_region(state: ForbidModel)
    requires
        !(state.policy is Disabled),
    ensures
        ({
            let outer = state.enter(RegionKind::Forbidden);
            let inner = outer.enter(RegionKind::PermitDealloc);
            let after = inner.check(Request::Dealloc).leave(
                outer.capture(RegionKind::PermitDealloc),
            );
            &&& !inner.forbids(Request::Dealloc)
            &&& inner.check(Request::Dealloc) == inner
            &&& inner.forbids(Request::Alloc)
            &&& inner.raises(Request::Alloc) == outer.raises(Request::Alloc)
            &&& state.policy is Count ==> inner.check(Request::Alloc).violation_count
                == state.violation_count + 1
            &&& after == outer
            &&& after.forbids(Request::Dealloc)
        }),
{
}

/// A value that was built in a region that permits allocation and then
/// wrapped for a deferred release can be released inside a forbidden region
/// without a violation, and the release leaves the forbidden region as it
/// was. Allocation stays a violation all the while: in the forbidden region,
/// where calls made through the wrapper are judged, and during the release
/// itself.
pub proof fn lemma_deferred_release_in_forbidden_region(state: ForbidModel)
    requires
        !(state.policy is Disabled),
    ensures
        ({
            let outer = state.enter(RegionKind::Forbidden);
            let built = outer.enter(RegionKind::PermitAlloc).check(Request::Alloc).leave(
                outer.capture(RegionKind::PermitAlloc),
            );
            let releasing = built.enter(RegionKind::PermitDealloc);
            let released = releasing.check(Request::Dealloc).leave(
                built.capture(RegionKind::PermitDealloc),
            );
            &&& built == outer
            &&& !releasing.forbids(Request::Dealloc)
            &&& releasing.check(Request::Dealloc) == releasing
            &&& released == outer
            &&& outer.forbids(Request::Alloc)
            &&& releasing.forbids(Request::Alloc)
        }),
{
}

/// Resetting the count and reading it at once gives zero, and the reset
/// touches nothing else.
pub proof fn lemma_reset_then_count_is_zero(state: ForbidModel)
    ensures
        state.reset_violation_count().violation_count == 0,
        state.reset_violation_count().policy == state.policy,
        state.reset_violation_count().alloc_forbidden_depth == state.alloc_forbidden_depth,
        state.reset_violation_count().dealloc_forbidden_depth == state.dealloc_forbidden_depth,
{
}

/// Entering a region, leaving one and judging a call never lower the count
/// of violations.
pub proof fn lemma_violation_count_never_falls(
    state: ForbidModel,
    kind: RegionKind,
    request: Request,
    body_end: ForbidModel,
)
    ensures
        state.enter(kind).violation_count == state.violation_count,
        body_end.leave(state.capture(kind)).violation_count == body_end.violation_count,
        state.check(request).violation_count >= state.violation_count,
{
}

} // verus!
