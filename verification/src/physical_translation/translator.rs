use vstd::prelude::*;

use crate::config::models::PhysicalTranslationStrategy;
use crate::physical_translation::kvm_hypercall_translator::KvmHypercallStrategy;
use crate::v2p_translator::pagemap_translator::PagemapStrategy;

use super::{PhysicalAddress, V2PError, VirtualAddress};

verus! {

/// The capability interface for resolving a virtual address to the physical
/// address backing it. Each implementation brings its own admissible-input
/// and answer predicates, so a caller that only knows the interface still
/// knows exactly what the chosen strategy promised.
pub trait VirtualToPhysicalTranslator {
    /// When the translator may be asked about `virtual_address`.
    spec fn to_physical_req(&self, virtual_address: VirtualAddress) -> bool;

    /// What the translator promises of its answer for `virtual_address`.
    spec fn to_physical_post(
        &self,
        virtual_address: VirtualAddress,
        result: Result<PhysicalAddress, V2PError>,
    ) -> bool;

    fn to_physical(&self, virtual_address: VirtualAddress) -> (result: Result<
        PhysicalAddress,
        V2PError,
    >)
        requires
            self.to_physical_req(virtual_address),
        ensures
            self.to_physical_post(virtual_address, result),
    ;
}

/// A constructed translator: the closed set of strategy variants the factory
/// dispatches over.
pub enum Translator {
    Pagemap(PagemapStrategy),
    Hypercall(KvmHypercallStrategy),
}

/// Selects and constructs the translation strategy named by the
/// configuration: a `Selfmap` selection yields a pagemap-backed strategy
/// carrying the selection's settings, a `Hypercall` selection yields a
/// hypercall-backed strategy. There is no fallback between strategies.
pub fn create_translator_from_config(config: PhysicalTranslationStrategy) -> (translator:
    Translator)
    ensures
        match config {
            PhysicalTranslationStrategy::Selfmap(sm_config) => translator matches Translator::Pagemap(
                strategy,
            ) && strategy.config_spec() == sm_config,
            PhysicalTranslationStrategy::Hypercall(hc_config) => translator matches Translator::Hypercall(
                strategy,
            ) && strategy.config == hc_config,
        },
{
    match config {
        PhysicalTranslationStrategy::Selfmap(sm_config) => {
            Translator::Pagemap(PagemapStrategy::new(sm_config))
        },
        PhysicalTranslationStrategy::Hypercall(hc_config) => {
            Translator::Hypercall(KvmHypercallStrategy::new(hc_config))
        },
    }
}

} // verus!
