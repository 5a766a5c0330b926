use hmrctl::config::models::{HypercallConfig, PhysicalTranslationStrategy, SelfmapConfig};
use hmrctl::physical_translation::error::V2PError;
use hmrctl::physical_translation::kvm_hypercall_translator::KvmHypercallStrategy;
use hmrctl::physical_translation::translator::{
    create_translator_from_config, Translator, VirtualToPhysicalTranslator,
};
use hmrctl::v2p_translator::hypervisor_strategy::HypervisorStrategy;
use hmrctl::v2p_translator::strategy::TranslationStrategy;

fn default_selfmap_config(path: &str) -> SelfmapConfig {
    SelfmapConfig {
        pagemap_path: path.to_string(),
        page_size: 4096,
        pagemap_entry_size: 8,
        pfn_mask: (1u64 << 55) - 1, // Mask from bit 0 to 54 inclusive.
        page_present_mask: 1u64 << 63,
    }
}

#[test]
fn kvm_hypercall_translator_test_mocked_translation() {
    let strategy = KvmHypercallStrategy::with_translate_fn(|virt_addr| {
        Ok(virt_addr + 10) // mock
    });

    let virt_addr = 5;
    let phys_addr = strategy.to_physical(virt_addr).unwrap();

    assert_eq!(phys_addr, 15);
}

#[test]
fn kvm_hypercall_strategy_test_mocked_translation() {
    let strategy = hmrctl::v2p_translator::kvm_hypercall_strategy::KvmHypercallStrategy::with_translate_fn(
        |virt_addr| {
            Ok(virt_addr + 10) // mock
        },
    );

    let virt_addr = 5;
    let phys_addr = strategy.translate_to_physical(virt_addr).unwrap();

    assert_eq!(phys_addr, 15);
}

#[test]
fn injected_zero_sentinel_surfaces_as_hypervisor_error() {
    let strategy = KvmHypercallStrategy::with_translate_fn(|_virt_addr| Ok(0));

    let result = strategy.to_physical(7);

    assert!(matches!(result, Err(V2PError::HypervisorError(_))));
}

#[test]
fn injected_error_passes_through() {
    let strategy =
        KvmHypercallStrategy::with_translate_fn(|_virt_addr| Err(V2PError::UnmappedAddress));

    let result = strategy.to_physical(7);

    assert!(matches!(result, Err(V2PError::UnmappedAddress)));
}

#[test]
fn production_hypercall_reports_unsupported_platform() {
    let strategy = KvmHypercallStrategy::new(HypercallConfig { hypercall_number: 14 });

    let result = strategy.to_physical(5);

    assert!(matches!(result, Err(V2PError::Other(_))));
}

#[test]
fn v2p_production_hypercall_reports_unsupported_platform() {
    let strategy = hmrctl::v2p_translator::kvm_hypercall_strategy::KvmHypercallStrategy::new();

    let result = strategy.translate_to_physical(5);

    assert!(matches!(result, Err(V2PError::Other(_))));
}

#[test]
fn v2p_injected_zero_sentinel_surfaces_as_hypervisor_error() {
    let strategy = hmrctl::v2p_translator::kvm_hypercall_strategy::KvmHypercallStrategy::with_translate_fn(
        |_virt_addr| Ok(0),
    );

    let result = strategy.translate_to_physical(3);

    assert!(matches!(result, Err(V2PError::HypervisorError(_))));
}

#[test]
fn hypervisor_strategy_is_not_implemented() {
    let strategy = HypervisorStrategy::new();

    let result = strategy.translate_to_physical(42);

    assert!(matches!(result, Err(V2PError::Other(_))));
}

#[test]
fn translation_strategy_dispatches_to_its_variant() {
    let hypervisor = TranslationStrategy::Hypervisor(HypervisorStrategy::new());
    assert!(matches!(
        hypervisor.translate_to_physical(1),
        Err(V2PError::Other(_))
    ));

    let hypercall = TranslationStrategy::Hypercall(
        hmrctl::v2p_translator::kvm_hypercall_strategy::KvmHypercallStrategy::new(),
    );
    assert!(matches!(
        hypercall.translate_to_physical(1),
        Err(V2PError::Other(_))
    ));
}

#[test]
fn factory_selfmap_yields_pagemap_backed_translator() {
    let config = default_selfmap_config("/proc/self/pagemap");
    let translator =
        create_translator_from_config(PhysicalTranslationStrategy::Selfmap(config));

    match translator {
        Translator::Pagemap(strategy) => {
            assert_eq!(strategy.config().pagemap_path, "/proc/self/pagemap");
            // Behaves per the pagemap entry convention.
            let entry = 12345u64 | (1u64 << 63);
            assert_eq!(strategy.resolve_entry(0, entry).unwrap(), 12345 * 4096);
        }
        Translator::Hypercall(_) => panic!("Selfmap selection built a hypercall translator"),
    }
}

#[test]
fn factory_hypercall_yields_hypercall_backed_translator() {
    let translator = create_translator_from_config(PhysicalTranslationStrategy::Hypercall(
        HypercallConfig { hypercall_number: 14 },
    ));

    match translator {
        Translator::Hypercall(strategy) => {
            assert_eq!(strategy.config.hypercall_number, 14);
            assert!(matches!(strategy.to_physical(5), Err(V2PError::Other(_))));
        }
        Translator::Pagemap(_) => panic!("Hypercall selection built a pagemap translator"),
    }
}

#[test]
fn v2p_factory_dispatches_like_the_other() {
    let config = default_selfmap_config("/proc/self/pagemap");
    let translator = hmrctl::v2p_translator::translator::create_translator_from_config(
        PhysicalTranslationStrategy::Selfmap(config),
    );
    assert!(matches!(translator, Translator::Pagemap(_)));

    let translator = hmrctl::v2p_translator::translator::create_translator_from_config(
        PhysicalTranslationStrategy::Hypercall(HypercallConfig { hypercall_number: 1 }),
    );
    assert!(matches!(translator, Translator::Hypercall(_)));
}
