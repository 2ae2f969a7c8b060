//! Host-side support library for running embedded ARM Cortex-M firmware:
//! firmware image analysis, symbol-range tables, stack-canary policy, and the
//! decision logic of a DWARF-based stack unwinder.
//!
//! The library holds the logic that can be stated and proved over plain
//! values. Probe transport, flashing and console output live in the
//! surrounding application, which drives the functions here.

pub mod canary;
pub mod elf;
pub mod firmware;
pub mod frames;
pub mod image;
pub mod registers;
pub mod run;
pub mod stacked;
pub mod symbols;
pub mod unwind;
