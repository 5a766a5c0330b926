use vstd::prelude::*;

use crate::config::models::DramLayout;

verus! {

/// Parity of the bit population of `n`: 0 when the number of set bits is
/// even, 1 when it is odd.
pub open spec fn parity_of(n: nat) -> nat
    decreases n,
{
    if n == 0 {
        0
    } else {
        (n % 2 + parity_of(n / 2)) % 2
    }
}

/// `parity_of` restricted to 64-bit values, for use in bit-level contracts.
pub open spec fn parity64(n: u64) -> u64 {
    parity_of(n as nat) as u64
}

proof fn lemma_parity_of_bounded(n: nat)
    ensures
        parity_of(n) <= 1,
{
}

/// Computes the parity of a number using its bit representation.
///
/// This function counts the number of set bits in `n` and returns 0 if
/// there's an even number of set bits, and 1 otherwise. Parity determines
/// bank addresses: the memory controller XORs a masked set of physical
/// address bits to select a bank, and an XOR of bits is their parity.
pub fn parity(n: u64) -> (r: u8)
    ensures
        r as u64 == parity64(n),
        r <= 1,
{
    let mut x: u64 = n;
    let mut p: u8 = 0;
    while x != 0
        invariant
            p <= 1,
            (p as nat + parity_of(x as nat)) % 2 == parity_of(n as nat),
        decreases x,
    {
        let bit = (x & 1) as u8;
        proof {
            assert(x & 1 == x % 2) by (bit_vector);
            assert(x >> 1u64 == x / 2) by (bit_vector);
            assert(x != 0 ==> x >> 1u64 < x) by (bit_vector);
            lemma_parity_of_bounded((x / 2) as nat);
            assert(p <= 1 && bit <= 1 ==> (p ^ bit) <= 1) by (bit_vector);
            assert(((p ^ bit) as nat + parity_of((x >> 1u64) as nat)) % 2
                == parity_of(n as nat)) by {
                assert(p <= 1 && bit <= 1 ==> (p ^ bit) as nat == (p as nat + bit as nat) % 2)
                    by (bit_vector);
            };
        }
        p = p ^ bit;
        x = x >> 1u64;
    }
    p
}

/// Bit `i` of a bank address.
pub open spec fn bank_bit(bank: u64, i: int) -> u64 {
    (bank >> i as u64) & 1
}

/// The bank address assembled from the first `i` addressing functions: bit
/// `j` is the parity of `addr` masked with `functions[j]`.
pub open spec fn bank_of_prefix(addr: u64, functions: Seq<u64>, i: int) -> u64
    decreases i,
{
    if i <= 0 {
        0
    } else {
        bank_of_prefix(addr, functions, i - 1) | (parity64(addr & functions[i - 1]) << (i - 1)
            as u64)
    }
}

/// The shifts and loop indices of the translator stay in range of `u64`
/// exactly when the layout's masks are nonzero and at most 64 addressing
/// functions are configured.
pub open spec fn masks_wf(layout: DramLayout) -> bool {
    &&& layout.row_mask != 0
    &&& layout.col_mask != 0
    &&& layout.addressing_functions@.len() <= 64
}

/// Every addressing function owns at least one bit outside both the row and
/// the column mask. `dram_to_phys` corrects a parity mismatch by flipping the
/// lowest such free bit, so a function without one leaves it no bit to flip.
pub open spec fn functions_have_free_bits(layout: DramLayout) -> bool {
    forall|i: int|
        0 <= i < layout.addressing_functions@.len()
            ==> #[trigger] layout.addressing_functions@[i] & !layout.row_mask & !layout.col_mask
                != 0
}

/// Provides functionality to translate between physical and DRAM addresses
/// based on a specified DRAM layout configuration.
pub struct DramTranslator {
    layout: DramLayout,
}

type PhysAddr = u64;

#[derive(Debug, PartialEq)]
pub struct DramAddr {
    pub bank: u64,
    pub row: u64,
    pub col: u64,
}

impl DramTranslator {
    /// The layout this translator was constructed with.
    pub closed spec fn layout_spec(&self) -> DramLayout {
        self.layout
    }

    /// Both mask well-formedness and the free-bit condition.
    pub open spec fn wf(&self) -> bool {
        &&& masks_wf(self.layout_spec())
        &&& functions_have_free_bits(self.layout_spec())
    }

    /// Creates a new DRAM translator based on a specific layout configuration.
    ///
    /// The `DramLayout` provides details about the memory's row, column, and
    /// bank addressing schemes, which are then used to map between physical
    /// and DRAM addresses.
    pub fn new(layout: DramLayout) -> (translator: Self)
        ensures
            translator.layout_spec() == layout,
    {
        Self { layout }
    }

    /// Computes the DRAM row corresponding to a physical address.
    ///
    /// The function uses bitwise operations to isolate the row bits
    /// from the physical address and then shifts them to obtain the row value.
    pub fn get_dram_row(&self, physical_addr: PhysAddr) -> (row: u64)
        requires
            self.layout_spec().row_mask != 0,
        ensures
            row == (physical_addr & self.layout_spec().row_mask)
                >> self.layout_spec().row_mask.trailing_zeros() as u64,
    {
        proof {
            vstd::std_specs::bits::axiom_u64_trailing_zeros(self.layout.row_mask);
        }
        (physical_addr & self.layout.row_mask) >> self.layout.row_mask.trailing_zeros()
    }

    /// Computes the DRAM column corresponding to a physical address.
    ///
    /// Similar to `get_dram_row`, it uses bitwise operations to isolate
    /// the column bits from the physical address.
    pub fn get_dram_col(&self, physical_addr: PhysAddr) -> (col: u64)
        requires
            self.layout_spec().col_mask != 0,
        ensures
            col == (physical_addr & self.layout_spec().col_mask)
                >> self.layout_spec().col_mask.trailing_zeros() as u64,
    {
        proof {
            vstd::std_specs::bits::axiom_u64_trailing_zeros(self.layout.col_mask);
        }
        (physical_addr & self.layout.col_mask) >> self.layout.col_mask.trailing_zeros()
    }

    /// Translates a physical address to a DRAM address.
    ///
    /// The function calculates the bank, row, and column in the DRAM address
    /// corresponding to the given physical address. Bit `i` of the bank
    /// address is the parity of the physical address masked with the `i`-th
    /// addressing function of the layout; bank bits beyond the configured
    /// functions are zero.
    pub fn phys_to_dram(&self, physical_addr: PhysAddr) -> (dram: DramAddr)
        requires
            masks_wf(self.layout_spec()),
        ensures
            dram == spec_phys_to_dram(physical_addr, self.layout_spec()),
            forall|i: int|
                0 <= i < self.layout_spec().addressing_functions@.len() ==> bank_bit(dram.bank, i)
                    == parity64(physical_addr & self.layout_spec().addressing_functions@[i]),
            forall|i: int|
                self.layout_spec().addressing_functions@.len() <= i < 64 ==> bank_bit(
                    dram.bank,
                    i,
                ) == 0,
            dram.row == (physical_addr & self.layout_spec().row_mask)
                >> self.layout_spec().row_mask.trailing_zeros() as u64,
            dram.col == (physical_addr & self.layout_spec().col_mask)
                >> self.layout_spec().col_mask.trailing_zeros() as u64,
    {
        let functions = &self.layout.addressing_functions;
        let mut bank: u64 = 0;
        let mut index: usize = 0;
        proof {
            assert(forall|j: u64| j < 64 ==> (0u64 >> j) & 1 == 0) by (bit_vector);
        }
        while index < functions.len()
            invariant
                index <= functions@.len() <= 64,
                functions@ == self.layout_spec().addressing_functions@,
                bank == bank_of_prefix(physical_addr, functions@, index as int),
                forall|j: int|
                    0 <= j < index ==> bank_bit(bank, j) == parity64(
                        physical_addr & self.layout_spec().addressing_functions@[j],
                    ),
                forall|j: int| index <= j < 64 ==> bank_bit(bank, j) == 0,
            decreases functions@.len() - index,
        {
            let bank_bit_value = parity(physical_addr & functions[index]) as u64;
            let updated = bank | (bank_bit_value << index as u64);
            proof {
                assert(bank_bit(bank, index as int) == 0);
                lemma_shifted_or_bits(bank, bank_bit_value, index as u64);
                assert(bank_bit(updated, index as int) == bank_bit_value);
                assert forall|j: int| 0 <= j < 64 && j != index implies bank_bit(updated, j)
                    == bank_bit(bank, j) by {
                    assert(((bank | (bank_bit_value << index as u64)) >> j as u64) & 1 == (bank
                        >> j as u64) & 1);
                }
            }
            bank = updated;
            index = index + 1;
        }
        let row = self.get_dram_row(physical_addr);
        let col = self.get_dram_col(physical_addr);

        DramAddr { bank, row, col }
    }
}

/// The mask selecting the bits of a physical address that lie outside both
/// the row and the column field: the bits `dram_to_phys` is free to adjust.
pub open spec fn free_mask(layout: DramLayout) -> u64 {
    !layout.col_mask & !layout.row_mask
}

/// The base physical address reconstructed from the row and column fields of
/// a DRAM address alone, with every other bit zero.
pub open spec fn base_physical_address(dram: DramAddr, layout: DramLayout) -> u64 {
    (dram.row << layout.row_mask.trailing_zeros() as u64) | (dram.col
        << layout.col_mask.trailing_zeros() as u64)
}

/// One greedy correction step of `dram_to_phys`: if the parity of `addr`
/// under `mask` already equals the expected bank bit, the address is left
/// unchanged; otherwise the lowest bit of `mask` inside `free` is flipped,
/// which toggles the parity.
pub open spec fn correct_parity_step(addr: u64, mask: u64, expected: u64, free: u64) -> u64 {
    if parity64(addr & mask) == expected {
        addr
    } else {
        addr ^ (1u64 << (mask & free).trailing_zeros() as u64)
    }
}

/// The correction steps for the addressing functions from index `i` on,
/// applied in order; each step sees the address left by the previous one.
pub open spec fn correct_parity_from(
    addr: u64,
    functions: Seq<u64>,
    bank: u64,
    free: u64,
    i: int,
) -> u64
    decreases functions.len() - i,
{
    if i < 0 || i >= functions.len() {
        addr
    } else {
        correct_parity_from(
            correct_parity_step(addr, functions[i], bank_bit(bank, i), free),
            functions,
            bank,
            free,
            i + 1,
        )
    }
}

/// The DRAM address that `phys_to_dram` computes for `addr` under `layout`.
pub open spec fn spec_phys_to_dram(addr: u64, layout: DramLayout) -> DramAddr {
    DramAddr {
        bank: bank_of_prefix(addr, layout.addressing_functions@, layout.addressing_functions@.len() as int),
        row: (addr & layout.row_mask) >> layout.row_mask.trailing_zeros() as u64,
        col: (addr & layout.col_mask) >> layout.col_mask.trailing_zeros() as u64,
    }
}

/// The physical address that `dram_to_phys` computes for `dram` under
/// `layout`: the row/column base with every parity correction applied.
pub open spec fn spec_dram_to_phys(dram: DramAddr, layout: DramLayout) -> u64 {
    correct_parity_from(
        base_physical_address(dram, layout),
        layout.addressing_functions@,
        dram.bank,
        free_mask(layout),
        0,
    )
}

impl DramTranslator {
    /// Translates a DRAM address back to its corresponding physical address.
    ///
    /// This function works in reverse compared to `phys_to_dram`. It starts
    /// from the row and column bits placed at their mask positions, then
    /// processes the addressing functions in order: whenever the parity of
    /// the current address under a function disagrees with the corresponding
    /// bank bit, it flips the lowest bit of that function outside both the
    /// row and column masks.
    ///
    /// This greedy single-bit correction is only guaranteed to restore every
    /// bank bit when the addressing functions' free bits are pairwise
    /// disjoint: when functions share free bits, a later correction can undo
    /// an earlier one. The policy is kept as such deliberately; layouts with
    /// overlapping free bits need layout-specific validation.
    pub fn dram_to_phys(&self, dram_address: &DramAddr) -> (phys: u64)
        requires
            self.wf(),
        ensures
            phys == spec_dram_to_phys(*dram_address, self.layout_spec()),
    {
        proof {
            vstd::std_specs::bits::axiom_u64_trailing_zeros(self.layout.row_mask);
            vstd::std_specs::bits::axiom_u64_trailing_zeros(self.layout.col_mask);
        }
        // Convert the row and col values of the DRAM address to the base part
        // of the physical address.
        let base_physical: u64 = (dram_address.row << self.layout.row_mask.trailing_zeros()) | (
        dram_address.col << self.layout.col_mask.trailing_zeros());

        let functions = &self.layout.addressing_functions;
        let ghost free: u64 = free_mask(self.layout_spec());
        let mut current_physical: u64 = base_physical;
        let mut index: usize = 0;
        while index < functions.len()
            invariant
                index <= functions@.len() <= 64,
                functions@ == self.layout_spec().addressing_functions@,
                functions_have_free_bits(self.layout_spec()),
                free == free_mask(self.layout_spec()),
                correct_parity_from(current_physical, functions@, dram_address.bank, free, index as int)
                    == correct_parity_from(base_physical, functions@, dram_address.bank, free, 0),
            decreases functions@.len() - index,
        {
            let mask = functions[index];

            // Isolate the bits of the current address that this addressing
            // function looks at.
            let relevant_bits = current_physical & mask;

            // The bank bit this function is expected to reproduce.
            let expected_parity = ((dram_address.bank >> index as u64) & 1) as u8;

            let has_correct_parity = parity(relevant_bits) == expected_parity;

            proof {
                assert(forall|b: u64, i: u64| #[trigger] ((b >> i) & 1) <= 1) by (bit_vector);
            }

            if has_correct_parity {
                proof {
                    assert(correct_parity_step(
                        current_physical,
                        mask,
                        bank_bit(dram_address.bank, index as int),
                        free,
                    ) == current_physical);
                }
                index = index + 1;
            } else {
                // The lowest bit of the function that lies outside both the
                // row and column masks: flipping it toggles the parity
                // without disturbing the already-fixed row/column fields.
                let bit_mask_excluding_row_col = !self.layout.col_mask & !self.layout.row_mask;
                let bit_needing_flip = (mask & bit_mask_excluding_row_col).trailing_zeros();
                proof {
                    assert(self.layout_spec().addressing_functions@[index as int]
                        & !self.layout_spec().row_mask & !self.layout_spec().col_mask != 0);
                    assert(forall|m: u64, r: u64, c: u64| m & (!c & !r) == #[trigger] (m & !r & !c))
                        by (bit_vector);
                    assert(mask & bit_mask_excluding_row_col != 0);
                    vstd::std_specs::bits::axiom_u64_trailing_zeros(mask & bit_mask_excluding_row_col);
                    assert(correct_parity_step(
                        current_physical,
                        mask,
                        bank_bit(dram_address.bank, index as int),
                        free,
                    ) == current_physical ^ (1u64 << (mask & bit_mask_excluding_row_col).trailing_zeros() as u64));
                }
                current_physical = current_physical ^ (1u64 << bit_needing_flip);
                index = index + 1;
            }
        }
        current_physical
    }
}

/// How each bit of `acc | (value << i)` relates to the bits of `acc`, for a
/// single-bit `value`.
pub(crate) proof fn lemma_shifted_or_bits(acc: u64, value: u64, i: u64)
    requires
        value <= 1,
        i < 64,
        (acc >> i) & 1 == 0,
    ensures
        ((acc | (value << i)) >> i) & 1 == value,
        forall|j: u64| j < 64 && j != i ==> ((acc | (value << i)) >> j) & 1 == (acc >> j) & 1,
{
    assert(((acc | (value << i)) >> i) & 1 == value) by (bit_vector)
        requires
            value <= 1,
            i < 64,
            (acc >> i) & 1 == 0,
    ;
    assert(forall|j: u64|
        j < 64 && j != i ==> ((acc | (value << i)) >> j) & 1 == (acc >> j) & 1) by (bit_vector)
        requires
            value <= 1,
            i < 64,
    ;
}

} // verus!
