//! The decisions behind the external tool's best-effort self-update:
//! which mechanism to try first, which to fall back to, and the policy
//! that an update failure never fails the run. Running the mechanisms is
//! process work and lives in the surrounding program.

use vstd::prelude::*;

use crate::error::YtdlError;

verus! {

/// A way of updating the external tool.
#[derive(Debug, Clone, Copy, PartialEq, Eq)]
pub enum UpdateMechanism {
    /// Upgrade through the package installer it may have come from.
    PipUpgrade,
    /// Ask the tool to update itself.
    SelfUpdate,
}

/// Best-effort updater for the external tool.
pub struct Updater {}

impl Updater {
    /// The mechanism tried first.
    pub fn first_mechanism() -> (r: UpdateMechanism)
        ensures
            r is PipUpgrade,
    {
        UpdateMechanism::PipUpgrade
    }

    /// The fallback after a failed attempt: the tool's own updater after
    /// the package installer, and nothing after that.
    pub fn next_mechanism(failed: UpdateMechanism) -> (r: Option<UpdateMechanism>)
        ensures
            failed is PipUpgrade ==> (r matches Some(m) && m is SelfUpdate),
            failed is SelfUpdate ==> r is None,
    {
        match failed {
            UpdateMechanism::PipUpgrade => Some(UpdateMechanism::SelfUpdate),
            UpdateMechanism::SelfUpdate => None,
        }
    }

    /// Closes the update step: whether or not any mechanism succeeded,
    /// the run goes on — an update failure is never fatal.
    pub fn conclude(updated: bool) -> (r: Result<bool, YtdlError>)
        ensures
            r matches Ok(u) && u == updated,
    {
        Ok(updated)
    }
}

} // verus!