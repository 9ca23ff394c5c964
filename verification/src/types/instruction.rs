//! The decoded form of an instruction.

use crate::types::field_int::FieldInt;
use vstd::prelude::*;

verus! {

/// A register that an operand is addressed from.
#[derive(Debug, PartialEq, Eq, Structural, Clone, Copy)]
pub enum Register {
    AP,
    FP,
}

/// Where the second operand is addressed from: the cell after the
/// instruction, a register, or the address that the first operand holds.
#[derive(Debug, PartialEq, Eq, Structural, Clone, Copy)]
pub enum Op1Addr {
    Imm,
    AP,
    FP,
    Op0,
}

/// How the result is computed from the operands.
#[derive(Debug, PartialEq, Eq, Structural, Clone, Copy)]
pub enum Res {
    Op1,
    Add,
    Mul,
    Unconstrained,
}

/// How `pc` moves on: to the next instruction, to the result, by the
/// result, or by the second operand where the destination is not zero.
#[derive(Debug, PartialEq, Eq, Structural, Clone, Copy)]
pub enum PcUpdate {
    Regular,
    Jump,
    JumpRel,
    Jnz,
}

/// How `ap` moves on: not at all, by the result, by one or by two.
#[derive(Debug, PartialEq, Eq, Structural, Clone, Copy)]
pub enum ApUpdate {
    Regular,
    Add,
    Add1,
    Add2,
}

/// How `fp` moves on: not at all, to two cells after `ap`, or to the
/// destination.
#[derive(Debug, PartialEq, Eq, Structural, Clone, Copy)]
pub enum FpUpdate {
    Regular,
    APPlus2,
    Dst,
}

/// What the instruction asserts of its operands.
#[derive(Debug, PartialEq, Eq, Structural, Clone, Copy)]
pub enum Opcode {
    NOp,
    AssertEq,
    Call,
    Ret,
}

/// An instruction, decoded.
#[derive(Debug, PartialEq)]
pub struct Instruction {
    pub off0: FieldInt,
    pub off1: FieldInt,
    pub off2: FieldInt,
    pub imm: Option<FieldInt>,
    pub dst_register: Register,
    pub op0_register: Register,
    pub op1_addr: Op1Addr,
    pub res: Res,
    pub pc_update: PcUpdate,
    pub ap_update: ApUpdate,
    pub fp_update: FpUpdate,
    pub opcode: Opcode,
}

/// The mathematical value of an [`Instruction`].
pub struct InstructionView {
    pub off0: int,
    pub off1: int,
    pub off2: int,
    pub imm: Option<int>,
    pub dst_register: Register,
    pub op0_register: Register,
    pub op1_addr: Op1Addr,
    pub res: Res,
    pub pc_update: PcUpdate,
    pub ap_update: ApUpdate,
    pub fp_update: FpUpdate,
    pub opcode: Opcode,
}

/// The value of an optional integer.
pub open spec fn option_int(value: Option<FieldInt>) -> Option<int> {
    match value {
        Some(v) => Some(v@),
        None => None,
    }
}

impl View for Instruction {
    type V = InstructionView;

    open spec fn view(&self) -> InstructionView {
        InstructionView {
            off0: self.off0@,
            off1: self.off1@,
            off2: self.off2@,
            imm: option_int(self.imm),
            dst_register: self.dst_register,
            op0_register: self.op0_register,
            op1_addr: self.op1_addr,
            res: self.res,
            pc_update: self.pc_update,
            ap_update: self.ap_update,
            fp_update: self.fp_update,
            opcode: self.opcode,
        }
    }
}

impl Instruction {
    /// The number of memory cells the instruction takes: two with an
    /// immediate, else one.
    pub fn size(&self) -> (r: usize)
        ensures
            r == (if self@.imm is Some { 2usize } else { 1usize }),
    {
        match self.imm {
            Some(_) => 2,
            None => 1,
        }
    }
}

} // verus!
