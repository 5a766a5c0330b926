//! Virtual-to-physical translation strategies.
//!
//! Strategy types for resolving a process virtual address to the physical
//! address backing it, either through the OS's per-process page-table
//! introspection file or through a privileged call into a hosting hypervisor.

use vstd::prelude::*;

pub mod hypervisor_strategy;
pub mod kvm_hypercall_strategy;
pub mod pagemap_strategy;
pub mod pagemap_translator;
pub mod strategy;
pub mod translator;

pub use crate::physical_translation::error::V2PError;
pub use strategy::TranslationStrategy;

verus! {

/// An address in a process's virtual address space.
pub type VirtualAddress = u64;

/// An address as seen by the memory controller.
pub type PhysicalAddress = u64;

} // verus!
