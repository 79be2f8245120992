//! Forbid dynamic memory (de)allocation in dynamically scoped regions of one
//! thread's execution.
//!
//! The per-thread bookkeeping is an explicit value, [`ForbidState`], that is
//! handed to the region guards and to the allocator hook. Every transition of
//! that value is stated over its mathematical model, [`ForbidModel`].

pub mod deferred;
pub mod hook;
pub mod laws;
pub mod model;
pub mod policy;
pub mod regions;
pub mod script;
pub mod state;

pub use crate::deferred::PermitDrop;
pub use crate::hook::{violation_message, AllocDisabler, Decision};
pub use crate::model::{ForbidModel, RegionKind, RegionModel, Request};
pub use crate::policy::{select_policy, BuildFlags, ConfigError, Policy};
pub use crate::regions::{assert_no_alloc, permit_alloc, permit_dealloc};
pub use crate::state::{reset_violation_count, violation_count, ForbidState, RegionDescriptor};
