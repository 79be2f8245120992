//! A model of what a thread may do with its bookkeeping, for the laws that
//! speak of every computation.

use crate::model::{ForbidModel, RegionKind, Request};
use vstd::prelude::*;

verus! {

/// What a computation does, as far as the bookkeeping can tell: allocator
/// calls, regions around further computations, and failures of its own. It
/// does not reset the count of violations.
pub enum Script {
    /// Nothing more: the computation returns.
    End,
    /// One allocator call, then the rest.
    Call(Request, Box<Script>),
    /// The computation raises a failure of its own.
    Fail,
    /// A region of the given kind around a body, then the rest.
    Region(RegionKind, Box<Script>, Box<Script>),
}

/// How a computation ended: the state it left, and whether it ended by a
/// failure that is still propagating.
pub struct Outcome {
    pub state: ForbidModel,
    pub failed: bool,
}

/// Runs a computation from a state.
///
/// A call that raises ends the computation: the hook zeroes the counters,
/// the failure leaves the hook, and the region that the hook opened puts
/// the counters back. A region is left when its body ends, by return or by
/// failure alike; after a failure the rest is skipped.
pub open spec fn run(script: Script, state: ForbidModel) -> Outcome
    decreases script,
{
    match script {
        Script::End => Outcome { state, failed: false },
        Script::Fail => Outcome { state, failed: true },
        Script::Call(request, rest) => {
            if state.raises(request) {
                Outcome {
                    state: state.check(request).leave(state.capture(RegionKind::PermitAlloc)),
                    failed: true,
                }
            } else {
                run(*rest, state.check(request))
            }
        },
        Script::Region(kind, body, rest) => {
            let inside = run(*body, state.enter(kind));
            let after = inside.state.leave(state.capture(kind));
            if inside.failed {
                Outcome { state: after, failed: true }
            } else {
                run(*rest, after)
            }
        },
    }
}

/// Forbidden regions one inside the other, `depth` of them, around nothing.
pub open spec fn nested_forbidden(depth: nat) -> Script
    decreases depth,
{
    if depth == 0 {
        Script::End
    } else {
        Script::Region(
            RegionKind::Forbidden,
            Box::new(nested_forbidden((depth - 1) as nat)),
            Box::new(Script::End),
        )
    }
}

/// A forbidden region that has nothing inside changes nothing, however many
/// of them are nested: both counters and the count of violations are what
/// they were.
pub proof fn lemma_nested_forbidden_changes_nothing(depth: nat, state: ForbidModel)
    ensures
        run(nested_forbidden(depth), state) == (Outcome { state, failed: false }),
    decreases depth,
{
    if depth > 0 {
        let inside = state.enter(RegionKind::Forbidden);
        lemma_nested_forbidden_changes_nothing((depth - 1) as nat, inside);
        assert(inside.leave(state.capture(RegionKind::Forbidden)) == state);
        assert(run(Script::End, state) == (Outcome { state, failed: false }));
    }
}

/// Whatever a computation does, and whether it returns or fails, it leaves
/// the policy and both counters as it found them: every region that it
/// entered has been left, innermost first, and a call of each kind is judged
/// afterwards as it would have been before.
pub proof fn lemma_run_restores_counters(script: Script, state: ForbidModel)
    ensures
        run(script, state).state.policy == state.policy,
        run(script, state).state.alloc_forbidden_depth == state.alloc_forbidden_depth,
        run(script, state).state.dealloc_forbidden_depth == state.dealloc_forbidden_depth,
        forall|request: Request|
            run(script, state).state.forbids(request) == state.forbids(request),
    decreases script,
{
    match script {
        Script::End => {},
        Script::Fail => {},
        Script::Call(request, rest) => {
            if !state.raises(request) {
                lemma_run_restores_counters(*rest, state.check(request));
            }
        },
        Script::Region(kind, body, rest) => {
            lemma_run_restores_counters(*body, state.enter(kind));
            let inside = run(*body, state.enter(kind));
            if !inside.failed {
                lemma_run_restores_counters(*rest, inside.state.leave(state.capture(kind)));
            }
        },
    }
}

/// No computation lowers the count of violations, and under a policy other
/// than counting none changes it.
pub proof fn lemma_run_never_lowers_violation_count(script: Script, state: ForbidModel)
    ensures
        run(script, state).state.violation_count >= state.violation_count,
        !(state.policy is Count) ==> run(script, state).state.violation_count
            == state.violation_count,
    decreases script,
{
    match script {
        Script::End => {},
        Script::Fail => {},
        Script::Call(request, rest) => {
            if !state.raises(request) {
                lemma_run_never_lowers_violation_count(*rest, state.check(request));
            }
        },
        Script::Region(kind, body, rest) => {
            lemma_run_never_lowers_violation_count(*body, state.enter(kind));
            lemma_run_restores_counters(*body, state.enter(kind));
            let inside = run(*body, state.enter(kind));
            if !inside.failed {
                lemma_run_never_lowers_violation_count(
                    *rest,
                    inside.state.leave(state.capture(kind)),
                );
            }
        },
    }
}

} // verus!
