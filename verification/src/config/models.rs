use vstd::prelude::*;

verus! {

/// Top-level configuration structure.
#[derive(Debug)]
pub struct Config {
    pub memory: MemoryConfig,
    pub physical_translation: PhysicalTranslation,
    pub dram: DramConfig,
    pub hammering: HammeringConfig,
}

/// Configuration related to memory allocation.
#[derive(Debug)]
pub struct MemoryConfig {
    pub allocation: AllocationConfig,
}

/// Detailed allocation settings.
#[derive(Debug)]
pub struct AllocationConfig {
    pub hugepages_mount: String,
    pub size_bytes: usize,
}

/// Strategy for translating virtual to physical addresses.
#[derive(Debug)]
pub struct PhysicalTranslation {
    pub method: TranslationMethod,
}

/// Different methods for physical address translation.
#[derive(Debug)]
pub enum TranslationMethod {
    Selfmap,
    Hypercall,
}

/// Configuration specific to the DRAM module and its layout.
#[derive(Debug)]
pub struct DramConfig {
    pub layout: DramLayout,
}

/// DRAM addressing layout configuration.
///
/// `addressing_functions[i]` is a bitmask over the physical address whose
/// bit-parity defines bit `i` of the bank address; `row_mask` and `col_mask`
/// are each expected to be a contiguous run of set bits selecting the row and
/// column fields of the physical address.
#[derive(Debug)]
pub struct DramLayout {
    pub addressing_functions: Vec<u64>,
    pub row_mask: u64,
    pub col_mask: u64,
}

/// Configuration related to the hammering process.
#[derive(Debug)]
pub struct HammeringConfig {
    pub rounds: u32,
    pub base_offset: usize,
    pub pattern_length: usize,
    pub hammer_data: HammerData,
    pub memory_access_strategy: MemoryAccessStrategy,
}

/// Different strategies for generating data to be hammered.
#[derive(Debug)]
pub enum HammerData {
    Random,
}

/// Memory access strategy during hammering.
#[derive(Debug)]
pub enum MemoryAccessStrategy {
    Native,
    HypervisorAssistance { percentage: u8 },
}

/// Settings for resolving virtual addresses through the OS's per-process
/// page-table introspection file.
#[derive(Debug)]
pub struct SelfmapConfig {
    pub pagemap_path: String,
    pub page_size: u64,
    pub pagemap_entry_size: u64,
    pub pfn_mask: u64,
    pub page_present_mask: u64,
}

/// Settings for resolving virtual addresses through a privileged call into a
/// hosting hypervisor.
#[derive(Debug, Clone, Copy)]
pub struct HypercallConfig {
    pub hypercall_number: u64,
}

/// Discriminated selection of a virtual-to-physical translation strategy,
/// carrying the configuration of the selected variant.
#[derive(Debug)]
pub enum PhysicalTranslationStrategy {
    Selfmap(SelfmapConfig),
    Hypercall(HypercallConfig),
}

} // verus!
