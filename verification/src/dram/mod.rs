//! Bidirectional mapping between physical addresses and DRAM geometry.

pub mod dram_translator;
pub mod round_trip;
