//! The scoped regions: each runs a computation between an entry that changes
//! the counters and an exit that puts them back.
//!
//! The exit is made when the computation returns. A computation that fails
//! returns its failure as a value, which the region hands on like any other.
//! Where a computation may also unwind, the caller holds the region open
//! itself, with [`ForbidState::enter`] and [`ForbidState::leave`], and leaves
//! it in a destructor. Under [`crate::policy::Policy::Disabled`] neither entry
//! nor exit touches the state.

use crate::model::RegionKind;
use crate::state::ForbidState;
use vstd::prelude::*;

verus! {

/// Runs `func` with both allocation and deallocation forbidden.
///
/// Both counters are one higher while `func` runs, and back at their values
/// of before the call when it has returned, whatever `func` did to them.
/// What `func` returns is handed on unchanged.
pub fn assert_no_alloc<T, F>(state: &mut ForbidState, func: F) -> (ret: T) where
    F: FnOnce(&mut ForbidState) -> T,

    requires
        old(state)@.can_enter(RegionKind::Forbidden),
        forall|inner: &mut ForbidState|
            inner@ == old(state)@.enter(RegionKind::Forbidden) ==> call_requires(func, (inner,)),
    ensures
        exists|inner: &mut ForbidState|
            inner@ == old(state)@.enter(RegionKind::Forbidden) && call_ensures(func, (inner,), ret)
                && final(state)@ == final(inner)@.leave(
                old(state)@.capture(RegionKind::Forbidden),
            ),
{
    let region = state.enter(RegionKind::Forbidden);
    let ret = func(state);
    state.leave(region);
    ret
}

/// Runs `func` with both allocation and deallocation permitted, however
/// deeply forbidden the caller was.
///
/// Both counters are at zero while `func` runs, and back at their values of
/// before the call when it has returned.
pub fn permit_alloc<T, F>(state: &mut ForbidState, func: F) -> (ret: T) where
    F: FnOnce(&mut ForbidState) -> T,

    requires
        forall|inner: &mut ForbidState|
            inner@ == old(state)@.enter(RegionKind::PermitAlloc) ==> call_requires(func, (inner,)),
    ensures
        exists|inner: &mut ForbidState|
            inner@ == old(state)@.enter(RegionKind::PermitAlloc) && call_ensures(func, (inner,), ret)
                && final(state)@ == final(inner)@.leave(
                old(state)@.capture(RegionKind::PermitAlloc),
            ),
{
    let region = state.enter(RegionKind::PermitAlloc);
    let ret = func(state);
    state.leave(region);
    ret
}

/// Runs `func` with deallocation permitted; allocation stays as forbidden
/// as it was.
///
/// The deallocation counter is at zero while `func` runs, and back at its
/// value of before the call when it has returned. The allocation counter is
/// not touched by the region.
pub fn permit_dealloc<T, F>(state: &mut ForbidState, func: F) -> (ret: T) where
    F: FnOnce(&mut ForbidState) -> T,

    requires
        forall|inner: &mut ForbidState|
            inner@ == old(state)@.enter(RegionKind::PermitDealloc) ==> call_requires(func, (inner,)),
    ensures
        exists|inner: &mut ForbidState|
            inner@ == old(state)@.enter(RegionKind::PermitDealloc) && call_ensures(func, (inner,), ret)
                && final(state)@ == final(inner)@.leave(
                old(state)@.capture(RegionKind::PermitDealloc),
            ),
{
    let region = state.enter(RegionKind::PermitDealloc);
    let ret = func(state);
    state.leave(region);
    ret
}

} // verus!
