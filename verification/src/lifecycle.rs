//! Readiness gate of the storage handle.
//!
//! Bootstrap runs once, detached from the shell's startup path, and the
//! handle is published only after it completes. The race this leaves —
//! commands arriving before the handle is ready — is resolved here with an
//! explicit fail-fast policy: a command issued while bootstrap is still
//! running is rejected as not-ready, and a command issued after bootstrap
//! failed is rejected as unavailable (the visible degraded state), in both
//! cases without touching storage.

use vstd::prelude::*;
use crate::errors::CommandError;

verus! {

/// Where the storage handle stands in its one-shot lifecycle.
#[derive(Debug, Clone, Copy, PartialEq, Eq, Structural)]
pub enum StorageStatus {
    /// Bootstrap is still running; no handle has been published.
    Starting,
    /// Bootstrap finished; the schema is current and commands may run.
    Ready,
    /// Bootstrap failed; the process stays up but storage is degraded.
    Failed,
}

/// Records the bootstrap outcome. The caller invokes this at most once,
/// while the status still reads `Starting`; the status never moves again.
pub fn settle_bootstrap(status: &mut StorageStatus, succeeded: bool)
    requires
        *old(status) is Starting,
    ensures
        succeeded ==> *final(status) is Ready,
        !succeeded ==> *final(status) is Failed,
{
    if succeeded {
        *status = StorageStatus::Ready;
    } else {
        *status = StorageStatus::Failed;
    }
}

/// Decides whether a command may proceed: exactly the ready state admits
/// it; the two other states reject it with the matching recoverable error.
pub fn admit_command(status: &StorageStatus) -> (r: Result<(), CommandError>)
    ensures
        r is Ok <==> *status is Ready,
        *status is Starting ==> (r matches Err(e) && e is NotReady),
        *status is Failed ==> (r matches Err(e) && e is Unavailable),
{
    match status {
        StorageStatus::Ready => Ok(()),
        StorageStatus::Starting => Err(CommandError::NotReady),
        StorageStatus::Failed => Err(CommandError::Unavailable),
    }
}

} // verus!
