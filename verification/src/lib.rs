//! One-time, per-core setup of the AArch64 memory management unit at
//! exception level 2.
//!
//! The setup maps all of physical memory onto itself through two translation
//! tables, programs the registers that govern translation, and switches
//! translation and the data cache on; a second sequence switches them off.
//!
//! - `descriptor`: the entries of the translation tables.
//! - `tables`: the table region and the routine that fills it.
//! - `registers`: the system registers and the field values written to them.
//! - `mmu`: the two sequences, `initialize_mmu` and `disable_mmu`, as
//!   operations handed out in order.
//! - `model`: a model of the machine, and what the sequences do to it.
//!
//! The library touches no hardware. Its caller holds the table region at an
//! address aligned to 4096 bytes and performs each operation it is handed.

pub mod descriptor;
pub mod mmu;
pub mod model;
pub mod registers;
pub mod tables;
