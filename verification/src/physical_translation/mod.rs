//! Resolution of process virtual addresses to physical addresses.
//!
//! A capability interface with two conforming strategies: one backed by the
//! OS's per-process page-table introspection file, one backed by a privileged
//! call into a hosting hypervisor. A factory selects the strategy from a
//! discriminated configuration value.

use vstd::prelude::*;

pub mod error;
pub mod kvm_hypercall_translator;
pub mod translator;

pub use error::V2PError;

verus! {

/// An address in a process's virtual address space.
pub type VirtualAddress = u64;

/// An address as seen by the memory controller.
pub type PhysicalAddress = u64;

} // verus!
