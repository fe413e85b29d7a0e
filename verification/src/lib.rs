//! A software emulator for a 32-bit RISC instruction set in the ARM style.
//!
//! The crate decodes 32-bit instruction words into a structured instruction
//! model and executes decoded instructions against a machine state made of
//! sixteen general-purpose registers, four condition flags and a flat
//! little-endian memory.  Decoding, condition evaluation, the ALU with its
//! flag semantics, addressing-mode resolution for loads and stores, branch
//! handling and the system-call dispatch are all verified; the surrounding
//! program loader and run loop live outside the crate and drive it through
//! the public interface.

pub mod context;
pub mod decoding;
pub mod exec;
pub mod file;
pub mod instructions;
pub mod syscall;
