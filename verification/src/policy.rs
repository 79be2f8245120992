//! The response to a violation, fixed once per build.

use vstd::prelude::*;

verus! {

/// What the allocator hook does when an allocator call is made while the
/// corresponding kind of call is forbidden.
#[derive(Clone, Copy, Debug, PartialEq, Eq, Structural)]
pub enum Policy {
    /// Report the violation as a failure that propagates to the caller.
    Abort,
    /// Count the violation and let the call go on.
    Count,
    /// Check nothing and keep no bookkeeping at all.
    Disabled,
}

/// The switches of a build from which the policy is chosen.
#[derive(Clone, Copy, Debug, PartialEq, Eq, Structural)]
pub struct BuildFlags {
    /// Count violations in builds with debug assertions.
    pub warn_debug: bool,
    /// Count violations in builds without debug assertions.
    pub warn_release: bool,
    /// Switch all checks off in builds without debug assertions.
    pub disable_release: bool,
    /// Whether the build has debug assertions.
    pub debug_assertions: bool,
}

/// A set of switches that selects no policy.
#[derive(Clone, Copy, Debug, PartialEq, Eq, Structural)]
pub enum ConfigError {
    /// `disable_release` and `warn_release` were requested together.
    ConflictingModes,
}

impl BuildFlags {
    /// The two switches for builds without debug assertions exclude each
    /// other, whether or not the build has debug assertions.
    pub open spec fn conflicting(self) -> bool {
        self.disable_release && self.warn_release
    }

    /// The switch for counting that applies to this kind of build.
    pub open spec fn warns(self) -> bool {
        if self.debug_assertions {
            self.warn_debug
        } else {
            self.warn_release
        }
    }

    /// The policy that these switches select when they do not conflict.
    pub open spec fn policy(self) -> Policy {
        if self.disable_release && !self.debug_assertions {
            Policy::Disabled
        } else if self.warns() {
            Policy::Count
        } else {
            Policy::Abort
        }
    }
}

/// Chooses the one policy of a build, or rejects switches that ask for two.
pub fn select_policy(flags: BuildFlags) -> (selected: Result<Policy, ConfigError>)
    ensures
        flags.conflicting() <==> selected == Err::<Policy, ConfigError>(
            ConfigError::ConflictingModes,
        ),
        !flags.conflicting() <==> selected == Ok::<Policy, ConfigError>(flags.policy()),
{
    if flags.disable_release && flags.warn_release {
        return Err(ConfigError::ConflictingModes);
    }
    let warn = if flags.debug_assertions {
        flags.warn_debug
    } else {
        flags.warn_release
    };
    if flags.disable_release && !flags.debug_assertions {
        Ok(Policy::Disabled)
    } else if warn {
        Ok(Policy::Count)
    } else {
        Ok(Policy::Abort)
    }
}

} // verus!
