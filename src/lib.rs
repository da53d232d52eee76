//! Register-machine bytecode core of a WebAssembly interpreter.
//!
//! - [`translate`] turns the operators of a Wasm function body into IR, with
//!   [`control_frame`]s for structured control flow and the [`inst_builder`]
//!   for instructions, labels and copy coalescing.
//! - [`compile`] turns IR into executable bytecode ([`bytecode`]), interning
//!   constants in the [`const_pool`] and operand lists in the [`provider`] arena.
//! - [`stack`] holds the registers and frames of an execution; [`execute`]
//!   runs the control and copy instructions on them.

pub mod error;
pub mod const_pool;
pub mod registers;
pub mod provider;
pub mod labels;
pub mod bytecode;
pub mod inst_builder;
pub mod compile;
pub mod control_frame;
pub mod stack;
pub mod translate;
pub mod execute;
