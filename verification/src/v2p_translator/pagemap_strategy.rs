use vstd::prelude::*;

use super::{PhysicalAddress, V2PError, VirtualAddress};

verus! {

/// The size of a memory page in bytes.
pub const PAGE_SIZE: u64 = 4096;

/// The size of an entry in the pagemap file in bytes.
pub const PAGEMAP_ENTRY_SIZE: u64 = 8;

/// A mask to extract the page frame number (PFN) from a pagemap entry:
/// bits 0 through 54.
pub const PFN_MASK: u64 = 0x007f_ffff_ffff_ffff;

/// A flag in the pagemap entry indicating if the page is present in memory:
/// bit 63.
pub const PAGE_PRESENT: u64 = 0x8000_0000_0000_0000;

/// Represents a strategy for translating virtual addresses to physical
/// addresses using the OS's per-process pagemap interface, with the entry
/// layout fixed to the default convention above.
///
/// The strategy itself only computes: it says where in the pagemap file the
/// entry for an address lives (`pagemap_offset`) and what a fetched entry
/// means (`resolve_entry`). Opening and reading the file at `pagemap_path`
/// is left to the caller, which hands the raw entry back in.
pub struct PagemapStrategy {
    /// Path to the pagemap file for the target process.
    pagemap_path: String,
}

impl PagemapStrategy {
    /// The path this strategy was constructed with.
    pub closed spec fn pagemap_path_spec(&self) -> Seq<char> {
        self.pagemap_path@
    }

    /// Constructs a new `PagemapStrategy` for a given process pagemap path.
    pub fn new(pagemap_path: &str) -> (strategy: Self)
        ensures
            strategy.pagemap_path_spec() == pagemap_path@,
    {
        PagemapStrategy { pagemap_path: pagemap_path.to_owned() }
    }

    /// Read access to the path, for the caller that performs the file I/O.
    pub fn pagemap_path(&self) -> (path: &str)
        ensures
            path@ == self.pagemap_path_spec(),
    {
        self.pagemap_path.as_str()
    }

    /// The byte offset of the pagemap entry describing `virtual_address`:
    /// one fixed-size entry per virtual page.
    pub fn pagemap_offset(&self, virtual_address: VirtualAddress) -> (offset: u64)
        ensures
            offset == virtual_address / PAGE_SIZE * PAGEMAP_ENTRY_SIZE,
    {
        virtual_address / PAGE_SIZE * PAGEMAP_ENTRY_SIZE
    }

    /// What a pagemap `entry` fetched for `virtual_address` means: if the
    /// present bit is clear the page has no physical backing and the address
    /// is unmapped; otherwise the physical address is the page-frame number
    /// scaled by the page size, plus the offset within the page.
    pub fn resolve_entry(&self, virtual_address: VirtualAddress, entry: u64) -> (result: Result<
        PhysicalAddress,
        V2PError,
    >)
        requires
            (entry & PFN_MASK) * PAGE_SIZE as int + (virtual_address as int % PAGE_SIZE as int)
                <= u64::MAX as int,
        ensures
            entry & PAGE_PRESENT == 0 ==> result == Err::<PhysicalAddress, V2PError>(
                V2PError::UnmappedAddress,
            ),
            entry & PAGE_PRESENT != 0 ==> (result matches Ok(phys_addr) && phys_addr == (entry
                & PFN_MASK) * PAGE_SIZE + virtual_address % PAGE_SIZE),
    {
        if entry & PAGE_PRESENT == 0 {
            return Err(V2PError::UnmappedAddress);
        }
        let page_frame_number = entry & PFN_MASK;
        let phys_addr = page_frame_number * PAGE_SIZE + (virtual_address % PAGE_SIZE);

        Ok(phys_addr)
    }
}

} // verus!
