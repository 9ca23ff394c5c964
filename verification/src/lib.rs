//! A virtual machine for Cairo programs.
//!
//! The machine runs a program of 64-bit instructions over the integers
//! modulo a prime and over the addresses of a segmented memory whose cells
//! are written once. This crate holds
//!
//! - the decoder of instructions ([`vm::decoding::decoder`]),
//! - the memory and its segments ([`vm::vm_memory`]),
//! - the step of the machine: operands, assertions and registers
//!   ([`vm::vm_core`]),
//! - the hints, and how a hint finds the cells that it names ([`vm::hints`]),
//! - the set-up of a machine for a program ([`vm::runners`]), and
//! - the relocation of trace and memory into one address space
//!   ([`vm::trace`], [`vm::vm_memory::memory`], [`vm::output`]).
//!
//! Every function states what it returns and what it changes, over the
//! mathematical values of its arguments, and Verus proves these statements.
//! The few functions whose statements are taken on trust say so in their
//! documentation: they call `num_bigint` for the arithmetic on integers of
//! any size ([`types::field_int`]), and the standard library for the quoting
//! of a string ([`vm::errors::runner_errors`]).

pub mod math_utils;
pub mod types;
pub mod vm;
