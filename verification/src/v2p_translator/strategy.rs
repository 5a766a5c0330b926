use vstd::prelude::*;

use super::hypervisor_strategy::HypervisorStrategy;
use super::kvm_hypercall_strategy::KvmHypercallStrategy;
use super::{PhysicalAddress, V2PError, VirtualAddress};

verus! {

/// An enumerated dispatch over the self-contained translation strategies:
/// those that can answer from their own state alone. The pagemap-backed
/// strategy is not a variant, since answering through it takes reading the
/// pagemap file, which its caller performs.
pub enum TranslationStrategy {
    Hypervisor(HypervisorStrategy),
    Hypercall(KvmHypercallStrategy),
}

impl TranslationStrategy {
    pub fn translate_to_physical(&self, virtual_address: VirtualAddress) -> (result: Result<
        PhysicalAddress,
        V2PError,
    >)
        ensures
            self matches TranslationStrategy::Hypervisor(_) ==> (result matches Err(
                V2PError::Other(message),
            ) && message@ == "Hypervisor translation not implemented"@),
            self matches TranslationStrategy::Hypercall(_) ==> (result matches Err(
                V2PError::Other(message),
            ) && message@ == "unsupported platform"@),
    {
        match self {
            TranslationStrategy::Hypervisor(strategy) => strategy.translate_to_physical(
                virtual_address,
            ),
            TranslationStrategy::Hypercall(strategy) => strategy.translate_to_physical(
                virtual_address,
            ),
        }
    }
}

} // verus!
