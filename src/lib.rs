//! An interpreter for the classic 8-bit virtual machine with a 64x32
//! monochrome display: memory, registers, call stack, framebuffer and the
//! instruction set, each with its behaviour stated as a contract.

pub mod mem;
pub mod gfx;
pub mod instr;
pub mod cpu;
pub mod laws;
