//! A program, as the machine needs it.

use crate::types::field_int::FieldInt;
use crate::types::relocatable::MaybeRelocatable;
use crate::vm::hints::execute_hint::{HintData, HintReference};
use std::collections::HashMap;
use vstd::prelude::*;

verus! {

/// A program: its words, and what the machine needs beside them.
pub struct Program {
    /// The names of the built-ins that the program uses.
    pub builtins: Vec<String>,
    /// The modulus of the field.
    pub prime: FieldInt,
    /// The words of the program: instructions and their immediates.
    pub data: Vec<MaybeRelocatable>,
    /// The offset of the first instruction of `main`, where the program has
    /// one.
    pub main: Option<usize>,
    /// The hints, each list under the offset of the instruction that it is
    /// run before.
    pub hints: HashMap<usize, Vec<HintData>>,
    /// The references that the hints name, each under its id.
    pub references: HashMap<usize, HintReference>,
}

} // verus!
