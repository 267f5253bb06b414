//! A cycle-counting MOS 6502 processor core over a flat 64 KB bus.
//!
//! `model` states what the processor does as spec functions over a `CpuView`;
//! `cpu`, `addressing` and `instructions` hold the executable core, each
//! function proved against that model; `theorems` proves timing, arithmetic
//! and stack laws of it.

pub mod addressing;
pub mod bus;
pub mod cpu;
pub mod flags;
pub mod instructions;
pub mod model;
pub mod opcode_compression;
pub mod opcode_table;
pub mod registers;
pub mod theorems;
pub mod utils;
