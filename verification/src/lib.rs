//! Instruction-execution core of a Game Boy (Sharp LR35902) emulator:
//! a register file, a flag register, a byte-addressable bus, and a
//! cycle-counting instruction interpreter, each with a proved contract.

pub mod bus;
pub mod cpu;
pub mod machine;
pub mod mbc;
pub mod memory;
