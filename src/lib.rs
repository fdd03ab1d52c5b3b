//! Execution core of a 65816-class CPU: the register and flag model, the
//! addressing-mode resolver and the instruction dispatch loop, each stated
//! with contracts over a mathematical model of the machine state.

pub mod status;
pub mod memory;
pub mod word;
pub mod arith;
pub mod registers;
pub mod address_mode;
pub mod cpu;
pub mod ops;
pub mod op_codes;
pub mod laws;
