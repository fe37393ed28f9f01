//! The ways provisioning can fail.
use vstd::prelude::*;

verus! {

/// Failures of the provisioner's steps.
#[derive(Debug, Clone, PartialEq, Eq)]
pub enum ProvisionError {
    /// Host clean-up or the supplicant's start failed; nothing can go on.
    FatalStartup,
    /// Every scan attempt of the start-up window found no network.
    ScanEmpty,
    /// The supplicant answered a command with a failure, or not at all.
    SupplicantCommandFailed,
    /// Association did not complete within the polling budget.
    CommitTimeout,
    /// Association ended in a state that does not lead to a connection.
    CommitRejected,
    /// No UI asset under the requested path.
    AssetNotFound,
    /// A helper process could not be started.
    SubprocessSpawnFailed,
}

} // verus!
