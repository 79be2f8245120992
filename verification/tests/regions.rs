use assert_no_alloc::{
    assert_no_alloc, permit_alloc, permit_dealloc, reset_violation_count, violation_count,
    AllocDisabler, Decision, ForbidState, PermitDrop, Policy, RegionKind, Request,
};

const A: AllocDisabler = AllocDisabler;

fn depths(state: &ForbidState) -> (u32, u32) {
    (state.alloc_forbidden_depth(), state.dealloc_forbidden_depth())
}

// Whether a call of the given kind is counted as a violation, judged on a
// copy of the state.
fn is_violation(state: &ForbidState, request: Request) -> bool {
    let mut copy = *state;
    let before = violation_count(&copy);
    A.check(&mut copy, request);
    let counted = violation_count(&copy) > before;
    assert_eq!(counted, state.forbids(request));
    counted
}

// Enters `depth` forbidden regions, one inside the other, and returns the
// counters seen in the innermost.
fn nest(state: &mut ForbidState, depth: u32) -> (u32, u32) {
    if depth == 0 {
        depths(state)
    } else {
        assert_no_alloc(state, |state| nest(state, depth - 1))
    }
}

#[test]
fn entering_sets_the_counters_of_each_kind() {
    let mut state = ForbidState::new(Policy::Count);
    let first = state.enter(RegionKind::Forbidden);
    assert_eq!(depths(&state), (1, 1));
    let second = state.enter(RegionKind::Forbidden);
    assert_eq!(depths(&state), (2, 2));
    let third = state.enter(RegionKind::PermitDealloc);
    assert_eq!(depths(&state), (2, 0));
    let fourth = state.enter(RegionKind::Forbidden);
    assert_eq!(depths(&state), (3, 1));
    let fifth = state.enter(RegionKind::PermitAlloc);
    assert_eq!(depths(&state), (0, 0));
    state.leave(fifth);
    assert_eq!(depths(&state), (3, 1));
    state.leave(fourth);
    assert_eq!(depths(&state), (2, 0));
    state.leave(third);
    assert_eq!(depths(&state), (2, 2));
    state.leave(second);
    assert_eq!(depths(&state), (1, 1));
    state.leave(first);
    assert_eq!(depths(&state), (0, 0));
    assert_eq!(violation_count(&state), 0);
}

#[test]
fn nested_forbidden_regions_leave_no_trace() {
    for policy in [Policy::Abort, Policy::Count] {
        for depth in [0u32, 1, 2, 3, 17, 200] {
            let mut state = ForbidState::new(policy);
            assert_eq!(nest(&mut state, depth), (depth, depth));
            assert_eq!(state, ForbidState::new(policy));
        }
    }
    let mut state = ForbidState::new(Policy::Disabled);
    assert_eq!(nest(&mut state, 5), (0, 0));
    assert_eq!(state, ForbidState::new(Policy::Disabled));
}

#[test]
fn nested_forbidden_regions_keep_the_count() {
    let mut state = ForbidState::new(Policy::Count);
    assert_no_alloc(&mut state, |state| {
        A.check(state, Request::Alloc);
    });
    assert_eq!(violation_count(&state), 1);
    nest(&mut state, 4);
    assert_eq!(violation_count(&state), 1);
    assert_eq!(depths(&state), (0, 0));
}

#[test]
fn the_result_of_the_body_is_handed_on() {
    let mut state = ForbidState::new(Policy::Count);
    assert_eq!(assert_no_alloc(&mut state, |_| 7u32), 7);
    assert_eq!(permit_alloc(&mut state, |_| "seven"), "seven");
    assert_eq!(permit_dealloc(&mut state, |_| vec![7u8]), vec![7u8]);
}

#[test]
fn a_failure_of_the_body_passes_through_and_the_counters_are_restored() {
    let mut state = ForbidState::new(Policy::Count);
    let outcome: Result<u32, String> = assert_no_alloc(&mut state, |state| {
        let inner: Result<u32, String> =
            permit_dealloc(state, |_| Err(String::from("failed inside")));
        assert_eq!(depths(state), (1, 1));
        inner
    });
    assert_eq!(outcome, Err(String::from("failed inside")));
    assert_eq!(depths(&state), (0, 0));
    assert!(!is_violation(&state, Request::Alloc));
    assert!(!is_violation(&state, Request::Dealloc));

    let outcome: Result<u32, String> = assert_no_alloc(&mut state, |state| {
        let inner: Result<u32, String> =
            assert_no_alloc(state, |_| Err(String::from("failed deeper")));
        assert!(is_violation(state, Request::Alloc));
        assert!(is_violation(state, Request::Dealloc));
        inner
    });
    assert_eq!(outcome, Err(String::from("failed deeper")));
    assert_eq!(state, ForbidState::new(Policy::Count));
}

#[test]
fn a_raised_violation_leaves_the_counters_as_before_the_region() {
    let mut state = ForbidState::new(Policy::Abort);
    let raised = assert_no_alloc(&mut state, |state| {
        assert_no_alloc(state, |state| match A.check(state, Request::Alloc) {
            Decision::Delegate => false,
            Decision::Raise(region) => {
                assert_eq!(depths(state), (0, 0));
                state.leave(region);
                assert_eq!(depths(state), (2, 2));
                true
            }
        })
    });
    assert!(raised);
    assert_eq!(state, ForbidState::new(Policy::Abort));
    assert_eq!(A.check(&mut state, Request::Alloc), Decision::Delegate);
}

#[test]
fn a_region_restores_what_it_captured_whatever_the_body_left() {
    let mut state = ForbidState::new(Policy::Count);
    assert_no_alloc(&mut state, |state| {
        // regions entered and never left
        let _ = state.enter(RegionKind::Forbidden);
        let _ = state.enter(RegionKind::Forbidden);
    });
    assert_eq!(depths(&state), (0, 0));
    assert_no_alloc(&mut state, |state| {
        permit_alloc(state, |state| {
            let _ = state.enter(RegionKind::Forbidden);
        });
        assert_eq!(depths(state), (1, 1));
        permit_dealloc(state, |state| {
            let _ = state.enter(RegionKind::Forbidden);
            assert_eq!(depths(state), (2, 1));
        });
        // a region that permits deallocation captures that counter alone
        assert_eq!(depths(state), (2, 1));
    });
    assert_eq!(depths(&state), (0, 0));
}

#[test]
fn permit_alloc_inside_two_forbidden_regions() {
    let mut state = ForbidState::new(Policy::Count);
    assert_no_alloc(&mut state, |state| {
        assert_no_alloc(state, |state| {
            permit_alloc(state, |state| {
                assert_eq!(depths(state), (0, 0));
                assert!(!is_violation(state, Request::Alloc));
                assert!(!is_violation(state, Request::Dealloc));
            });
            assert_eq!(depths(state), (2, 2));
            assert!(is_violation(state, Request::Alloc));
            assert!(is_violation(state, Request::Dealloc));
        });
        assert_eq!(depths(state), (1, 1));
        assert!(is_violation(state, Request::Alloc));
    });
    assert_eq!(state, ForbidState::new(Policy::Count));
}

#[test]
fn permit_dealloc_permits_deallocation_only() {
    let mut state = ForbidState::new(Policy::Count);
    assert_no_alloc(&mut state, |state| {
        permit_dealloc(state, |state| {
            assert_eq!(depths(state), (1, 0));
            A.check(state, Request::Dealloc);
            assert_eq!(violation_count(state), 0);
            A.check(state, Request::Alloc);
            assert_eq!(violation_count(state), 1);
        });
        assert_eq!(depths(state), (1, 1));
        A.check(state, Request::Dealloc);
        assert_eq!(violation_count(state), 2);
    });
    assert_eq!(depths(&state), (0, 0));
    assert_eq!(violation_count(&state), 2);
    reset_violation_count(&mut state);
    assert_eq!(state, ForbidState::new(Policy::Count));
}

#[test]
fn permit_regions_outside_any_forbidden_region() {
    let mut state = ForbidState::new(Policy::Count);
    permit_alloc(&mut state, |state| {
        assert_eq!(depths(state), (0, 0));
        A.check(state, Request::Alloc);
    });
    permit_dealloc(&mut state, |state| {
        assert_eq!(depths(state), (0, 0));
        A.check(state, Request::Dealloc);
    });
    assert_eq!(state, ForbidState::new(Policy::Count));
}

#[test]
fn disabled_regions_run_the_body_and_touch_nothing() {
    let mut state = ForbidState::new(Policy::Disabled);
    let ran = assert_no_alloc(&mut state, |state| {
        assert_eq!(depths(state), (0, 0));
        assert_eq!(A.check(state, Request::Alloc), Decision::Delegate);
        permit_dealloc(state, |state| permit_alloc(state, |state| depths(state) == (0, 0)))
    });
    assert!(ran);
    assert_eq!(state, ForbidState::new(Policy::Disabled));
}

#[test]
fn permit_drop_stands_for_its_value() {
    let mut wrapped = PermitDrop::new(vec![1u32, 2, 3]);
    assert_eq!(wrapped.len(), 3);
    assert_eq!(*wrapped, vec![1u32, 2, 3]);
    wrapped.push(4);
    assert_eq!(*wrapped, vec![1u32, 2, 3, 4]);
}

#[test]
fn permit_drop_releases_its_value_once_in_a_region_that_permits_deallocation() {
    let mut state = ForbidState::new(Policy::Count);
    let mut released: Vec<u32> = Vec::new();
    assert_no_alloc(&mut state, |state| {
        assert_no_alloc(state, |state| {
            let wrapped = PermitDrop::new(42u32);
            wrapped.release(state, |value, state| {
                assert_eq!(depths(state), (2, 0));
                A.check(state, Request::Dealloc);
                released.push(value);
            });
            assert_eq!(depths(state), (2, 2));
        });
    });
    assert_eq!(released, vec![42]);
    assert_eq!(state, ForbidState::new(Policy::Count));
}

#[test]
fn permit_drop_release_does_not_permit_allocation() {
    let mut state = ForbidState::new(Policy::Count);
    assert_no_alloc(&mut state, |state| {
        PermitDrop::new(()).release(state, |_, state| {
            A.check(state, Request::Alloc);
        });
    });
    assert_eq!(violation_count(&state), 1);
}
