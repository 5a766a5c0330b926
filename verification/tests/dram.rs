use hmrctl::config::models::DramLayout;
use hmrctl::dram::dram_translator::{parity, DramAddr, DramTranslator};

#[test]
fn test_dram_to_phys_and_back() {
    let layout = DramLayout {
        row_mask: 0b_1111_0000_0000,
        col_mask: 0b_0000_1111_0000,
        addressing_functions: vec![0b_0000_0000_1001, 0b_0000_0000_0110],
    };
    let translator = DramTranslator::new(layout);

    let dram_address = DramAddr { bank: 2, row: 5, col: 3 };

    // Translate DRAM to Physical.
    let physical_address = translator.dram_to_phys(&dram_address);

    // Translate back from Physical to DRAM.
    let translated_dram = translator.phys_to_dram(physical_address);

    assert_eq!(dram_address, translated_dram);
}

#[test]
fn test_parity() {
    assert_eq!(parity(0b_0101), 0);
    assert_eq!(parity(0b_0111), 1);
    assert_eq!(parity(0b_1000_0000_0000_0011), 1);
    assert_eq!(parity(0), 0);
}

#[test]
fn test_get_dram_row_col() {
    let layout = DramLayout {
        row_mask: 0b_1111_0000_0000,
        col_mask: 0b_0000_1111_0000,
        addressing_functions: vec![0b_0000_0000_1001, 0b_0000_0000_0110],
    };
    let translator = DramTranslator::new(layout);

    let physical_addr = 0b_1010_1100_1011;

    assert_eq!(translator.get_dram_row(physical_addr), 0b_1010);
    assert_eq!(translator.get_dram_col(physical_addr), 0b_1100);
}

#[test]
fn phys_to_dram_extracts_row_and_col() {
    let layout = DramLayout {
        row_mask: 0b_1111_0000_0000,
        col_mask: 0b_0000_1111_0000,
        addressing_functions: vec![0b_0000_0000_1001, 0b_0000_0000_0110],
    };
    let translator = DramTranslator::new(layout);

    let dram = translator.phys_to_dram(0b_1010_1100_1011);

    assert_eq!(dram.row, 0b_1010);
    assert_eq!(dram.col, 0b_1100);
}

#[test]
fn bank_bits_follow_addressing_function_parity() {
    let functions: Vec<u64> = vec![0b_0000_0000_1001, 0b_0000_0000_0110];
    let layout = DramLayout {
        row_mask: 0b_1111_0000_0000,
        col_mask: 0b_0000_1111_0000,
        addressing_functions: functions.clone(),
    };
    let translator = DramTranslator::new(layout);

    let addresses: [u64; 6] = [0, 1, 0b_1010_1100_1011, 0xdead_beef, u64::MAX, 0x1234_5678_9abc_def0];
    for &addr in addresses.iter() {
        let dram = translator.phys_to_dram(addr);
        for (i, &mask) in functions.iter().enumerate() {
            assert_eq!((dram.bank >> i) & 1, parity(addr & mask) as u64);
        }
        // Bits beyond the configured functions stay clear.
        assert_eq!(dram.bank >> functions.len(), 0);
    }
}

#[test]
fn round_trip_over_many_dram_addresses() {
    // The addressing functions' free bits (bits 0..4) are pairwise disjoint,
    // so the greedy correction restores every bank bit.
    let layout = DramLayout {
        row_mask: 0b_1111_0000_0000,
        col_mask: 0b_0000_1111_0000,
        addressing_functions: vec![0b_0000_0000_1001, 0b_0000_0000_0110],
    };
    let translator = DramTranslator::new(layout);

    for bank in 0..4u64 {
        for row in 0..16u64 {
            for col in 0..16u64 {
                let dram_address = DramAddr { bank, row, col };
                let physical_address = translator.dram_to_phys(&dram_address);
                let translated = translator.phys_to_dram(physical_address);
                assert_eq!(dram_address, translated);
            }
        }
    }
}
