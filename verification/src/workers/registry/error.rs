//! Fatal errors of the aggregation/export pipeline.

use vstd::prelude::*;

verus! {

/// Why a pipeline stage stopped. Both variants are fatal: no partial-recovery
/// path exists, so the whole pipeline fails together.
#[derive(Debug)]
pub enum RegistryError {
    /// A channel endpoint is gone: the ingestion queue closed, or the partner
    /// stage terminated and the liveness channel closed with it.
    Disconnected,
    /// The shared aggregation table's lock was poisoned.
    LockPoisoned,
}

} // verus!
