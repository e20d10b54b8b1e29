//! An interpreting emulator for the MOS 6502 microprocessor.
//!
//! The executable processor is [`cpu::CPU`], with its memory in [`memory`],
//! its instruction handlers in [`instructions`] and its fetch, decode and
//! execute cycle in [`run`]. Every operation on it is stated against the
//! processor as a mathematical value, [`state::State`]: [`semantics`] says
//! what each instruction does to it, over the byte arithmetic of [`alu`],
//! and [`machine`] what a cycle and a whole run do, over the table in
//! [`opcode`]. General facts about the machine are proved in [`laws`].
pub mod alu;
pub mod cpu;
pub mod instructions;
pub mod laws;
pub mod machine;
pub mod memory;
pub mod opcode;
pub mod run;
pub mod semantics;
pub mod state;
