//! The round-trip law for the DRAM translator.
//!
//! `dram_to_phys` restores each bank bit with a greedy single-bit correction,
//! which is sound only when no two addressing functions share a free bit: a
//! later correction could otherwise undo an earlier one. This module proves
//! that under that disjointness condition, together with disjoint row and
//! column masks and a DRAM address whose components fit their fields,
//! translating a DRAM address to a physical address and back recovers the
//! same DRAM address. Layouts with overlapping free bits stay outside the
//! law and need layout-specific validation.

use vstd::prelude::*;

use crate::config::models::DramLayout;
use crate::dram::dram_translator::{
    bank_bit, bank_of_prefix, base_physical_address, correct_parity_from, correct_parity_step,
    free_mask, functions_have_free_bits, masks_wf, parity64, spec_dram_to_phys, spec_phys_to_dram,
    DramAddr,
};

verus! {

/// No two addressing functions share a bit that lies outside both the row
/// and the column mask.
pub open spec fn functions_free_bits_disjoint(layout: DramLayout) -> bool {
    forall|i: int, j: int|
        #![trigger layout.addressing_functions@[i], layout.addressing_functions@[j]]
        0 <= i < layout.addressing_functions@.len() && 0 <= j
            < layout.addressing_functions@.len() && i != j ==> layout.addressing_functions@[i]
            & free_mask(layout) & (layout.addressing_functions@[j] & free_mask(layout)) == 0
}

/// Each component of the DRAM address fits the field its mask carves out:
/// the row and column survive being placed at their mask positions, and the
/// bank has no bits beyond the configured addressing functions.
pub open spec fn dram_addr_fits(dram: DramAddr, layout: DramLayout) -> bool {
    &&& (dram.row << layout.row_mask.trailing_zeros() as u64)
        >> layout.row_mask.trailing_zeros() as u64 == dram.row
    &&& (dram.row << layout.row_mask.trailing_zeros() as u64) & layout.row_mask == (dram.row
        << layout.row_mask.trailing_zeros() as u64)
    &&& (dram.col << layout.col_mask.trailing_zeros() as u64)
        >> layout.col_mask.trailing_zeros() as u64 == dram.col
    &&& (dram.col << layout.col_mask.trailing_zeros() as u64) & layout.col_mask == (dram.col
        << layout.col_mask.trailing_zeros() as u64)
    &&& forall|i: int|
        layout.addressing_functions@.len() <= i < 64 ==> bank_bit(dram.bank, i) == 0
}

/// `parity64` unfolded one bit: the low bit plus the parity of the rest.
proof fn lemma_parity64_unfold(x: u64)
    ensures
        parity64(x) as int == ((x & 1) as int + parity64(x >> 1u64) as int) % 2,
        parity64(x) <= 1,
{
    assert(x & 1 == x % 2) by (bit_vector);
    assert(x >> 1u64 == x / 2) by (bit_vector);
    if x == 0 {
    }
}

/// Parity distributes over exclusive or.
proof fn lemma_parity64_xor(a: u64, b: u64)
    ensures
        parity64(a ^ b) as int == (parity64(a) as int + parity64(b) as int) % 2,
    decreases a + b,
{
    lemma_parity64_unfold(a);
    lemma_parity64_unfold(b);
    lemma_parity64_unfold(a ^ b);
    if a == 0 && b == 0 {
        assert(0u64 ^ 0u64 == 0u64) by (bit_vector);
    } else {
        assert((a ^ b) >> 1u64 == (a >> 1u64) ^ (b >> 1u64)) by (bit_vector);
        assert(((a ^ b) & 1) as int == ((a & 1) as int + (b & 1) as int) % 2) by (bit_vector);
        assert(a != 0 ==> a >> 1u64 < a) by (bit_vector);
        assert(b != 0 ==> b >> 1u64 < b) by (bit_vector);
        assert(a == 0 ==> a >> 1u64 == 0) by (bit_vector);
        assert(b == 0 ==> b >> 1u64 == 0) by (bit_vector);
        lemma_parity64_xor(a >> 1u64, b >> 1u64);
        lemma_parity64_unfold(a >> 1u64);
        lemma_parity64_unfold(b >> 1u64);
    }
}

/// A single set bit has odd parity.
proof fn lemma_parity64_single_bit(k: u64)
    requires
        k < 64,
    ensures
        parity64(1u64 << k) == 1,
    decreases k,
{
    if k == 0 {
        assert(1u64 << 0u64 == 1) by (bit_vector);
        lemma_parity64_unfold(1u64);
        assert(1u64 >> 1u64 == 0) by (bit_vector);
    } else {
        let m = 1u64 << k;
        assert((1u64 << k) & 1 == 0 && (1u64 << k) >> 1u64 == 1u64 << ((k - 1) as u64))
            by (bit_vector)
            requires
                0 < k < 64,
        ;
        lemma_parity64_unfold(m);
        lemma_parity64_single_bit((k - 1) as u64);
    }
}

/// Flipping bit `k` of an address toggles the parity under every mask that
/// contains bit `k`, and leaves the parity under every other mask unchanged.
proof fn lemma_parity64_flip(addr: u64, mask: u64, k: u64)
    requires
        k < 64,
    ensures
        (1u64 << k) & mask == 0 ==> parity64((addr ^ (1u64 << k)) & mask) == parity64(
            addr & mask,
        ),
        (1u64 << k) & mask != 0 ==> parity64((addr ^ (1u64 << k)) & mask) as int == 1 - parity64(
            addr & mask,
        ) as int,
{
    assert((addr ^ (1u64 << k)) & mask == (addr & mask) ^ ((1u64 << k) & mask)) by (bit_vector);
    if (1u64 << k) & mask == 0 {
        assert((addr & mask) ^ 0u64 == addr & mask) by (bit_vector);
    } else {
        assert((1u64 << k) & mask != 0 ==> (1u64 << k) & mask == 1u64 << k) by (bit_vector);
        lemma_parity64_xor(addr & mask, 1u64 << k);
        lemma_parity64_single_bit(k);
        lemma_parity64_unfold(addr & mask);
    }
}

/// One correction step makes the parity under its own function equal to the
/// expected bank bit, and touches no bit outside the function's free bits.
proof fn lemma_step_effect(addr: u64, mask: u64, expected: u64, free: u64)
    requires
        mask & free != 0,
        expected <= 1,
    ensures
        parity64(correct_parity_step(addr, mask, expected, free) & mask) == expected,
        forall|m: u64|
            m & (mask & free) == 0 ==> #[trigger] (correct_parity_step(addr, mask, expected, free)
                & m) == addr & m,
{
    lemma_parity64_unfold(addr & mask);
    if parity64(addr & mask) == expected {
    } else {
        let k = (mask & free).trailing_zeros() as u64;
        vstd::std_specs::bits::axiom_u64_trailing_zeros(mask & free);
        let target = mask & free;
        assert(((target >> k) & 1 == 1 && k < 64) ==> (1u64 << k) & target == 1u64 << k)
            by (bit_vector);
        assert((1u64 << k) & (mask & free) == 1u64 << k ==> (1u64 << k) & mask != 0)
            by (bit_vector)
            requires
                k < 64,
        ;
        lemma_parity64_flip(addr, mask, k);
        assert forall|m: u64| m & (mask & free) == 0 implies #[trigger] (correct_parity_step(
            addr,
            mask,
            expected,
            free,
        ) & m) == addr & m by {
            assert(((1u64 << k) & target == 1u64 << k && m & target == 0) ==> ((addr ^ (1u64 << k))
                & m == addr & m)) by (bit_vector);
        }
    }
}

/// The corrections from index `i` on establish the parity of every function
/// they process, and preserve the masked view of every mask that is disjoint
/// from all the free bits they may flip.
proof fn lemma_corrections_effect(addr: u64, layout: DramLayout, bank: u64, i: int)
    requires
        masks_wf(layout),
        functions_have_free_bits(layout),
        functions_free_bits_disjoint(layout),
        0 <= i <= layout.addressing_functions@.len(),
    ensures
        forall|j: int|
            i <= j < layout.addressing_functions@.len() ==> parity64(
                #[trigger] (correct_parity_from(
                    addr,
                    layout.addressing_functions@,
                    bank,
                    free_mask(layout),
                    i,
                ) & layout.addressing_functions@[j]),
            ) == bank_bit(bank, j),
        forall|m: u64|
            (forall|j: int|
                i <= j < layout.addressing_functions@.len() ==> m & (
                #[trigger] layout.addressing_functions@[j] & free_mask(layout)) == 0)
                ==> #[trigger] (correct_parity_from(
                addr,
                layout.addressing_functions@,
                bank,
                free_mask(layout),
                i,
            ) & m) == addr & m,
    decreases layout.addressing_functions@.len() - i,
{
    let functions = layout.addressing_functions@;
    let free = free_mask(layout);
    if i == functions.len() {
    } else {
        let mask = functions[i];
        let expected = bank_bit(bank, i);
        let stepped = correct_parity_step(addr, mask, expected, free);
        let result = correct_parity_from(addr, functions, bank, free, i);

        assert(mask & !layout.row_mask & !layout.col_mask != 0);
        assert(forall|x: u64, r: u64, c: u64|
            #[trigger] (x & !r & !c) == x & (!c & !r)) by (bit_vector);
        assert(mask & free != 0);
        assert(forall|b: u64, k: u64| #[trigger] ((b >> k) & 1) <= 1) by (bit_vector);

        lemma_step_effect(addr, mask, expected, free);
        lemma_corrections_effect(stepped, layout, bank, i + 1);
        assert(result == correct_parity_from(stepped, functions, bank, free, i + 1));

        // The later corrections flip only bits disjoint from this function,
        // so the parity just established survives them.
        assert forall|j: int| i + 1 <= j < functions.len() implies mask & (
        #[trigger] functions[j] & free) == 0 by {
            assert(functions[i] & free & (functions[j] & free) == 0);
            assert(forall|a: u64, b: u64, fr: u64|
                (a & fr) & (b & fr) == 0 ==> #[trigger] (a & (b & fr)) == 0) by (bit_vector);
        }
        assert(result & mask == stepped & mask);

        assert forall|m: u64|
            (forall|j: int|
                i <= j < functions.len() ==> m & (#[trigger] functions[j] & free) == 0) implies
        #[trigger] (result & m) == addr & m by {
            assert(m & (functions[i] & free) == 0);
            assert(stepped & m == addr & m);
            assert(result & m == stepped & m);
        }
    }
}

/// Two 64-bit values with the same bits are the same value.
proof fn lemma_u64_bit_ext(a: u64, b: u64)
    requires
        forall|k: u64| k < 64 ==> #[trigger] ((a >> k) & 1) == (b >> k) & 1,
    ensures
        a == b,
{
    let x = a ^ b;
    if x != 0 {
        vstd::std_specs::bits::axiom_u64_trailing_zeros(x);
        let k = x.trailing_zeros() as u64;
        assert((a >> k) & 1 == (b >> k) & 1);
        assert(((a >> k) & 1 == (b >> k) & 1) ==> (((a ^ b) >> k) & 1 == 0)) by (bit_vector);
        assert(false);
    } else {
        assert(a ^ b == 0 ==> a == b) by (bit_vector);
    }
}

/// Bit `j` of `bank_of_prefix(addr, functions, i)` is the parity of `addr`
/// under `functions[j]` for `j < i`, and zero from `i` on.
proof fn lemma_bank_of_prefix_bits(addr: u64, functions: Seq<u64>, i: int)
    requires
        0 <= i <= functions.len(),
        functions.len() <= 64,
    ensures
        forall|j: int|
            0 <= j < i ==> #[trigger] bank_bit(bank_of_prefix(addr, functions, i), j) == parity64(
                addr & functions[j],
            ),
        forall|j: int| i <= j < 64 ==> #[trigger] bank_bit(bank_of_prefix(addr, functions, i), j)
            == 0,
    decreases i,
{
    if i == 0 {
        assert(forall|k: u64| k < 64 ==> #[trigger] ((0u64 >> k) & 1) == 0) by (bit_vector);
    } else {
        lemma_bank_of_prefix_bits(addr, functions, i - 1);
        let previous = bank_of_prefix(addr, functions, i - 1);
        let value = parity64(addr & functions[i - 1]);
        let shift = (i - 1) as u64;
        let current = bank_of_prefix(addr, functions, i);
        lemma_parity64_unfold(addr & functions[i - 1]);
        assert(bank_bit(previous, i - 1) == 0);
        crate::dram::dram_translator::lemma_shifted_or_bits(previous, value, shift);
        assert(current == previous | (value << shift));
        assert forall|j: int| 0 <= j < i implies #[trigger] bank_bit(current, j) == parity64(
            addr & functions[j],
        ) by {
            if j == i - 1 {
                assert(j as u64 == shift);
                assert(bank_bit(current, j) == ((previous | (value << shift)) >> shift) & 1);
                assert(((previous | (value << shift)) >> shift) & 1 == value);
            } else {
                assert((j as u64) < 64 && (j as u64) != shift);
                assert(bank_bit(current, j) == ((previous | (value << shift)) >> (j as u64)) & 1);
                assert(((previous | (value << shift)) >> (j as u64)) & 1 == (previous >> (
                j as u64)) & 1);
                assert(bank_bit(previous, j) == parity64(addr & functions[j]));
            }
        }
        assert forall|j: int| i <= j < 64 implies #[trigger] bank_bit(current, j) == 0 by {
            assert((j as u64) < 64 && (j as u64) != shift);
            assert(bank_bit(current, j) == ((previous | (value << shift)) >> (j as u64)) & 1);
            assert(((previous | (value << shift)) >> (j as u64)) & 1 == (previous >> (j as u64))
                & 1);
            assert(bank_bit(previous, j) == 0);
        }
    }
}

/// The round-trip law. For a layout whose row and column masks are disjoint
/// and whose addressing functions have pairwise disjoint free bits, and a
/// DRAM address whose components fit their fields, converting the DRAM
/// address to a physical address and converting that physical address back
/// yields the original DRAM address.
pub proof fn lemma_phys_dram_round_trip(layout: DramLayout, dram: DramAddr)
    requires
        masks_wf(layout),
        functions_have_free_bits(layout),
        functions_free_bits_disjoint(layout),
        layout.row_mask & layout.col_mask == 0,
        dram_addr_fits(dram, layout),
    ensures
        spec_phys_to_dram(spec_dram_to_phys(dram, layout), layout) == dram,
{
    let functions = layout.addressing_functions@;
    let free = free_mask(layout);
    let base = base_physical_address(dram, layout);
    let phys = spec_dram_to_phys(dram, layout);
    let row_shift = layout.row_mask.trailing_zeros() as u64;
    let col_shift = layout.col_mask.trailing_zeros() as u64;
    let row_part = dram.row << row_shift;
    let col_part = dram.col << col_shift;

    lemma_corrections_effect(base, layout, dram.bank, 0);

    // The corrections only touch bits outside both masks, so the row and
    // column fields of the base address survive them.
    assert(forall|x: u64, r: u64, c: u64| #[trigger] (r & (x & (!c & !r))) == 0) by (bit_vector);
    assert forall|j: int| 0 <= j < functions.len() implies layout.row_mask & (
    #[trigger] functions[j] & free) == 0 by {
        assert(layout.row_mask & (functions[j] & (!layout.col_mask & !layout.row_mask)) == 0);
    }
    assert forall|j: int| 0 <= j < functions.len() implies layout.col_mask & (
    #[trigger] functions[j] & free) == 0 by {
        assert(forall|x: u64, r: u64, c: u64| #[trigger] (c & (x & (!c & !r))) == 0)
            by (bit_vector);
    }
    assert(phys & layout.row_mask == base & layout.row_mask);
    assert(phys & layout.col_mask == base & layout.col_mask);

    // The base address's row field is exactly the placed row, because the
    // column part lies inside the disjoint column mask; same for the column.
    let row_mask = layout.row_mask;
    let col_mask = layout.col_mask;
    assert((row_part & row_mask == row_part && col_part & col_mask == col_part && row_mask
        & col_mask == 0) ==> ((row_part | col_part) & row_mask == row_part && (row_part | col_part)
        & col_mask == col_part)) by (bit_vector);
    assert(phys & layout.row_mask == row_part);
    assert(phys & layout.col_mask == col_part);

    // Each bank bit is restored: the parity of the final address under
    // function `j` equals bit `j` of the original bank.
    lemma_bank_of_prefix_bits(phys, functions, functions.len() as int);
    let recovered_bank = bank_of_prefix(phys, functions, functions.len() as int);
    assert forall|k: u64| k < 64 implies #[trigger] ((recovered_bank >> k) & 1) == (dram.bank
        >> k) & 1 by {
        if (k as int) < functions.len() {
            assert(bank_bit(recovered_bank, k as int) == parity64(phys & functions[k as int]));
            assert(parity64(phys & functions[k as int]) == bank_bit(dram.bank, k as int));
        } else {
            assert(bank_bit(recovered_bank, k as int) == 0);
            assert(bank_bit(dram.bank, k as int) == 0);
        }
    }
    lemma_u64_bit_ext(recovered_bank, dram.bank);
}

} // verus!
