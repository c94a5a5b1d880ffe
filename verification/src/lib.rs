//! A 64-bit RISC-V instruction-set simulator core.
//!
//! The crate models the decode/execute engine of an RV64 processor: a pure
//! decoder from 32-bit instruction words to typed instruction records, an
//! execution engine over the processor state (general registers, NaN-boxed
//! floating-point register file, control/status registers, program counter),
//! and a little-endian byte-addressable memory.
//!
//! Floating-point registers hold raw 64-bit bit patterns; every operation
//! whose result needs IEEE-754 arithmetic is delegated to the caller, while
//! all bit-level floating-point work (NaN boxing, sign injection, compares,
//! moves, loads and stores) is performed and verified here.
#![allow(non_snake_case)]
#![allow(non_camel_case_types)]

pub mod bus;
pub mod cpu;
pub mod dram;
pub mod encode;
pub mod exec;
pub mod regs;
