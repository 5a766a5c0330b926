use vstd::prelude::*;

use crate::config::models::SelfmapConfig;

use super::{PhysicalAddress, V2PError, VirtualAddress};

verus! {

/// Represents a strategy for translating virtual addresses to physical
/// addresses using the OS's per-process pagemap interface, with the entry
/// layout taken from a `SelfmapConfig`.
///
/// The strategy itself only computes: it says where in the pagemap file the
/// entry for an address lives (`pagemap_offset`) and what a fetched entry
/// means (`resolve_entry`). Opening and reading the file is left to the
/// caller, which hands the raw entry back in.
pub struct PagemapStrategy {
    /// Configuration for selfmap translation strategy.
    config: SelfmapConfig,
}

impl PagemapStrategy {
    /// The configuration this strategy was constructed from.
    pub closed spec fn config_spec(&self) -> SelfmapConfig {
        self.config
    }

    /// Constructs a new `PagemapStrategy` from the configuration.
    pub fn new(config: SelfmapConfig) -> (strategy: Self)
        ensures
            strategy.config_spec() == config,
    {
        PagemapStrategy { config }
    }

    /// Read access to the configuration, for the caller that performs the
    /// file I/O.
    pub fn config(&self) -> (config: &SelfmapConfig)
        ensures
            config == self.config_spec(),
    {
        &self.config
    }

    /// The byte offset of the pagemap entry describing `virtual_address`:
    /// one fixed-size entry per virtual page.
    pub fn pagemap_offset(&self, virtual_address: VirtualAddress) -> (offset: u64)
        requires
            self.config_spec().page_size > 0,
            virtual_address as int / self.config_spec().page_size as int
                * self.config_spec().pagemap_entry_size as int <= u64::MAX as int,
        ensures
            offset == virtual_address / self.config_spec().page_size
                * self.config_spec().pagemap_entry_size,
    {
        virtual_address / self.config.page_size * self.config.pagemap_entry_size
    }

    /// What a pagemap `entry` fetched for `virtual_address` means: if the
    /// present bit is clear the page has no physical backing and the address
    /// is unmapped; otherwise the physical address is the page-frame number
    /// scaled by the page size, plus the offset within the page.
    pub fn resolve_entry(&self, virtual_address: VirtualAddress, entry: u64) -> (result: Result<
        PhysicalAddress,
        V2PError,
    >)
        requires
            self.config_spec().page_size > 0,
            (entry & self.config_spec().pfn_mask) * self.config_spec().page_size as int + (
            virtual_address as int % self.config_spec().page_size as int) <= u64::MAX as int,
        ensures
            entry & self.config_spec().page_present_mask == 0 ==> result == Err::<
                PhysicalAddress,
                V2PError,
            >(V2PError::UnmappedAddress),
            entry & self.config_spec().page_present_mask != 0 ==> (result matches Ok(phys_addr)
                && phys_addr == (entry & self.config_spec().pfn_mask)
                * self.config_spec().page_size + virtual_address % self.config_spec().page_size),
    {
        if entry & self.config.page_present_mask == 0 {
            return Err(V2PError::UnmappedAddress);
        }
        let page_frame_number = entry & self.config.pfn_mask;
        let phys_addr = page_frame_number * self.config.page_size + (virtual_address
            % self.config.page_size);

        Ok(phys_addr)
    }
}

} // verus!
