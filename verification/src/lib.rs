//! Address-translation core for DRAM fault-injection research.
//!
//! The library resolves process virtual addresses to the physical addresses
//! the memory controller sees, and maps physical addresses to the DRAM
//! controller's internal bank/row/column geometry and back again, so a
//! caller can synthesize addresses that target a specific row or bank.

pub mod config;
pub mod dram;
pub mod physical_translation;
pub mod v2p_translator;
