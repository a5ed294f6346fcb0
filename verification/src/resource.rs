//! Resource ceilings of a sandbox.
use vstd::prelude::*;

verus! {

/// Ceilings on the memory and the number of processes of a sandbox.
/// Plain numbers: nothing in them needs validating when they are restored.
#[derive(Debug, Clone, Copy, PartialEq, Eq, Structural)]
pub struct ResourceLimits {
    /// Maximum memory in bytes, if limited.
    pub memory_bytes: Option<u64>,
    /// Maximum number of processes, if limited.
    pub max_processes: Option<u64>,
}

} // verus!
