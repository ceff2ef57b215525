//! Verified core of an 8-bit game console: the CPU register file, the memory
//! bus with its mirrored RAM, the fixed-bank cartridge mapper, the thirteen
//! addressing modes and the instruction engine.

pub mod registers;
pub mod cartridge;
pub mod mapper;
pub mod bus;
pub mod arith;
pub mod cpu;
pub mod addr_mode;
pub mod instruction;
pub mod opcode_table;
pub mod emulator;
