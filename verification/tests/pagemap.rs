use hmrctl::config::models::SelfmapConfig;
use hmrctl::v2p_translator::pagemap_strategy;
use hmrctl::v2p_translator::pagemap_translator;
use hmrctl::physical_translation::error::V2PError;

const PAGE_PRESENT: u64 = 1u64 << 63;

fn selfmap_config() -> SelfmapConfig {
    SelfmapConfig {
        pagemap_path: "/proc/self/pagemap".to_string(),
        page_size: 4096,
        pagemap_entry_size: 8,
        pfn_mask: (1u64 << 55) - 1,
        page_present_mask: PAGE_PRESENT,
    }
}

#[test]
fn present_entry_resolves_to_scaled_pfn() {
    // A pagemap entry for a present page with a PFN of 12345.
    let pfn = 12345u64;
    let entry = pfn | PAGE_PRESENT;

    let strategy = pagemap_translator::PagemapStrategy::new(selfmap_config());
    let physical_address = strategy.resolve_entry(0, entry).unwrap();

    assert_eq!(physical_address, pfn * 4096);
}

#[test]
fn present_entry_keeps_the_page_offset() {
    let pfn = 7u64;
    let entry = pfn | PAGE_PRESENT;

    let strategy = pagemap_translator::PagemapStrategy::new(selfmap_config());
    let physical_address = strategy.resolve_entry(4096 + 123, entry).unwrap();

    assert_eq!(physical_address, 7 * 4096 + 123);
}

#[test]
fn absent_entry_is_unmapped() {
    // Present bit clear: the PFN bits do not matter.
    let entry = 12345u64;

    let strategy = pagemap_translator::PagemapStrategy::new(selfmap_config());
    let result = strategy.resolve_entry(0, entry);

    assert!(matches!(result, Err(V2PError::UnmappedAddress)));
}

#[test]
fn offset_selects_the_entry_of_the_page() {
    let strategy = pagemap_translator::PagemapStrategy::new(selfmap_config());

    assert_eq!(strategy.pagemap_offset(0), 0);
    assert_eq!(strategy.pagemap_offset(4095), 0);
    assert_eq!(strategy.pagemap_offset(4096), 8);
    assert_eq!(strategy.pagemap_offset(3 * 4096 + 17), 24);
}

#[test]
fn fixed_convention_strategy_resolves_present_entry() {
    let pfn = 12345u64;
    let entry = (pfn & pagemap_strategy::PFN_MASK) | pagemap_strategy::PAGE_PRESENT;

    let strategy = pagemap_strategy::PagemapStrategy::new("/proc/self/pagemap");
    let physical_address = strategy.resolve_entry(0, entry).unwrap();

    assert_eq!(physical_address, pfn * pagemap_strategy::PAGE_SIZE);
}

#[test]
fn fixed_convention_strategy_rejects_absent_entry() {
    let strategy = pagemap_strategy::PagemapStrategy::new("/proc/self/pagemap");

    let result = strategy.resolve_entry(0, 42);

    assert!(matches!(result, Err(V2PError::UnmappedAddress)));
}

#[test]
fn fixed_convention_offset_and_path() {
    let strategy = pagemap_strategy::PagemapStrategy::new("/proc/self/pagemap");

    assert_eq!(strategy.pagemap_path(), "/proc/self/pagemap");
    assert_eq!(strategy.pagemap_offset(2 * 4096), 16);
}
