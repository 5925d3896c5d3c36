//! Core of a 16-bit real-mode x86 emulator.
//!
//! - `memory`: the 1 MiB address space and segment:offset translation.
//! - `flags`: the FLAGS word and the flag arithmetic of each operation class.
//! - `instruction`: registers, operands and the decoded instruction record.
//! - `decoder`: bytes to instructions, with prefixes, ModR/M, displacement and immediates.
//! - `encoder`: instructions back to bytes, for the forms it knows.
//! - `cpu`: the architectural state, register views, operand access and the stack.
//! - `execute`: the effect of each instruction, and what the host has to do after it.
//! - `machine`: fetch, decode and execute at CS:IP; program loading for .COM images.
//! - `exe`: MZ executables: header, code range and relocations.
//! - `gpu`: the VGA DAC palette, the scanline counter and the framebuffer image.
use vstd::prelude::*;

pub mod cpu;
pub mod decoder;
pub mod encoder;
pub mod exe;
pub mod execute;
pub mod flags;
pub mod gpu;
pub mod instruction;
pub mod machine;
pub mod memory;

verus! {

} // verus!
