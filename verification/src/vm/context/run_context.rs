//! The registers of the machine.

use crate::types::field_int::FieldInt;
use crate::types::instruction::{Instruction, InstructionView, Op1Addr, Register};
use crate::types::relocatable::{
    add_int_mod_spec, option_ref_word, word_result_view, MaybeRelocatable, Word,
};
use crate::vm::errors::vm_errors::{VirtualMachineError, VmErrorView};
use vstd::prelude::*;

verus! {

/// The three registers: the program counter, the allocation pointer and the
/// frame pointer.
#[derive(Debug)]
pub struct RunContext {
    pub pc: MaybeRelocatable,
    pub ap: MaybeRelocatable,
    pub fp: MaybeRelocatable,
}

/// The mathematical value of a [`RunContext`].
pub struct RunContextView {
    pub pc: Word,
    pub ap: Word,
    pub fp: Word,
}

impl View for RunContext {
    type V = RunContextView;

    open spec fn view(&self) -> RunContextView {
        RunContextView { pc: self.pc@, ap: self.ap@, fp: self.fp@ }
    }
}

impl RunContextView {
    /// What `register` holds.
    pub open spec fn register(self, register: Register) -> Word {
        match register {
            Register::AP => self.ap,
            Register::FP => self.fp,
        }
    }

    /// The address of the destination of `instruction`: its register plus
    /// `off0`.
    pub open spec fn dst_addr(self, instruction: InstructionView, prime: int) -> Result<
        Word,
        VmErrorView,
    > {
        add_int_mod_spec(self.register(instruction.dst_register), instruction.off0, prime)
    }

    /// The address of the first operand of `instruction`: its register plus
    /// `off1`.
    pub open spec fn op0_addr(self, instruction: InstructionView, prime: int) -> Result<
        Word,
        VmErrorView,
    > {
        add_int_mod_spec(self.register(instruction.op0_register), instruction.off1, prime)
    }

    /// The address of the second operand of `instruction`: the cell after
    /// `pc` for an immediate, and else `off2` added to `ap`, to `fp`, or to
    /// the address that the first operand `op0` holds.
    pub open spec fn op1_addr(
        self,
        instruction: InstructionView,
        op0: Option<Word>,
        prime: int,
    ) -> Result<Word, VmErrorView> {
        match instruction.op1_addr {
            Op1Addr::Imm => add_int_mod_spec(self.pc, 1, prime),
            Op1Addr::AP => add_int_mod_spec(self.ap, instruction.off2, prime),
            Op1Addr::FP => add_int_mod_spec(self.fp, instruction.off2, prime),
            Op1Addr::Op0 => match op0 {
                Some(Word::Addr(address)) => add_int_mod_spec(
                    Word::Addr(address),
                    instruction.off2,
                    prime,
                ),
                Some(Word::Int(value)) => Err(VmErrorView::ExpectedRelocatable(Word::Int(value))),
                None => Err(VmErrorView::UnknownOp0),
            },
        }
    }
}

impl RunContext {
    /// The address of the destination of `instruction`.
    pub fn compute_dst_addr(&self, instruction: &Instruction, prime: &FieldInt) -> (r: Result<
        MaybeRelocatable,
        VirtualMachineError,
    >)
        requires
            prime@ != 0,
        ensures
            word_result_view(r) == self@.dst_addr(instruction@, prime@),
    {
        match instruction.dst_register {
            Register::AP => self.ap.add_int_mod(&instruction.off0, prime),
            Register::FP => self.fp.add_int_mod(&instruction.off0, prime),
        }
    }

    /// The address of the first operand of `instruction`.
    pub fn compute_op0_addr(&self, instruction: &Instruction, prime: &FieldInt) -> (r: Result<
        MaybeRelocatable,
        VirtualMachineError,
    >)
        requires
            prime@ != 0,
        ensures
            word_result_view(r) == self@.op0_addr(instruction@, prime@),
    {
        match instruction.op0_register {
            Register::AP => self.ap.add_int_mod(&instruction.off1, prime),
            Register::FP => self.fp.add_int_mod(&instruction.off1, prime),
        }
    }

    /// The address of the second operand of `instruction`, given what the
    /// first one holds, if that is known.
    pub fn compute_op1_addr(
        &self,
        instruction: &Instruction,
        op0: Option<&MaybeRelocatable>,
        prime: &FieldInt,
    ) -> (r: Result<MaybeRelocatable, VirtualMachineError>)
        requires
            prime@ != 0,
        ensures
            word_result_view(r) == self@.op1_addr(instruction@, option_ref_word(op0), prime@),
    {
        match instruction.op1_addr {
            Op1Addr::Imm => self.pc.add_int_mod(&FieldInt::one(), prime),
            Op1Addr::AP => self.ap.add_int_mod(&instruction.off2, prime),
            Op1Addr::FP => self.fp.add_int_mod(&instruction.off2, prime),
            Op1Addr::Op0 => match op0 {
                Some(MaybeRelocatable::RelocatableValue(address)) => {
                    MaybeRelocatable::RelocatableValue(*address).add_int_mod(
                        &instruction.off2,
                        prime,
                    )
                },
                Some(value) => Err(VirtualMachineError::ExpectedRelocatable(value.clone())),
                None => Err(VirtualMachineError::UnknownOp0),
            },
        }
    }
}

} // verus!
