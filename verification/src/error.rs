//! What can go wrong, and where.

use vstd::prelude::*;
use crate::kernel::ConfigStep;
use crate::libbpf::LoaderStep;

verus! {

/// Every failure that the socket reports.
///
/// Only `InsufficientSpace` is worth a retry. After any other the socket is
/// to be torn down.
#[derive(Clone, Copy, Debug, PartialEq, Eq, Structural)]
pub enum XdpError {
    /// No page-aligned memory could be had for the frame arena.
    Allocation { code: i32 },
    /// A step of the configuration failed; `code` is what the kernel
    /// returned.
    Configuration { step: ConfigStep, code: i32 },
    /// A batch was larger than the room that the ring has for it. The caller
    /// may retry with less, or later.
    InsufficientSpace { available: usize, requested: usize },
    /// A descriptor names bytes that do not lie inside the frame arena.
    CorruptDescriptor { addr: u64, len: u32 },
    /// The socket is not configured, or not any more.
    NotReady,
    /// The dispatch program could not be loaded, or lacks one of its tables.
    ProgramLoad { stage: LoaderStep, code: i32 },
    /// The dispatch program could not be attached to the interface.
    ProgramAttach { code: i32 },
    /// An entry of a table of the dispatch program could not be written.
    MapUpdate { code: i32 },
    /// The kernel refused to take back what it had handed out.
    Teardown { code: i32 },
}

} // verus!
