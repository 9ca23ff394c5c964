//! The machine: its state, and how one instruction changes it.

use crate::math_utils::{div_mod, div_mod_spec};
use crate::types::field_int::FieldInt;
use crate::types::instruction::{
    ApUpdate, FpUpdate, Instruction, InstructionView, Opcode, PcUpdate, Res,
};
use crate::types::relocatable::{
    add_int_mod_spec, add_mod_spec, mul_mod_spec, option_ref_word, option_word, sub_spec,
    word_result_view, MaybeRelocatable, Relocatable, Word,
};
use crate::vm::decoding::decoder::{
    decode_instruction, decode_instruction_spec, needs_immediate, op1_src_bits,
};
use crate::vm::errors::vm_errors::{VirtualMachineError, VmErrorView};
use crate::vm::hints::hint_utils::{execute_hint, execute_hint_spec};
use crate::vm::trace::trace_entry::TraceEntry;
use crate::vm::context::run_context::{RunContext, RunContextView};
use crate::vm::hints::execute_hint::{hint_list_view, HintData, HintDataView, HintReference};
use crate::vm::runners::builtin_runner::{builtins_view, BuiltinRunner, BuiltinRunnerView};
use crate::vm::vm_memory::memory::{Memory, MemoryView};
use crate::vm::vm_memory::memory_segments::MemorySegmentManager;
use std::collections::HashMap;
use vstd::prelude::*;

verus! {

/// The state of a machine.
pub struct VirtualMachine {
    pub run_context: RunContext,
    pub prime: FieldInt,
    pub builtin_runners: Vec<(String, BuiltinRunner)>,
    pub segments: MemorySegmentManager,
    pub memory: Memory,
    pub references: HashMap<usize, HintReference>,
    pub trace: Vec<TraceEntry>,
    /// The start of the program in memory, once it is loaded.
    pub program_base: Option<Relocatable>,
    /// The hints of the program, each list under the offset from the start
    /// of the program of the instruction that it is run before.
    pub hints: HashMap<usize, Vec<HintData>>,
}

/// The mathematical value of a [`VirtualMachine`].
pub struct VirtualMachineView {
    pub run_context: RunContextView,
    pub prime: int,
    pub builtin_runners: Seq<(Seq<char>, BuiltinRunnerView)>,
    pub num_segments: usize,
    pub segment_used_sizes: Option<Seq<usize>>,
    pub memory: MemoryView,
    pub references: Map<usize, HintReference>,
    pub trace: Seq<TraceEntry>,
    pub program_base: Option<Relocatable>,
    pub hints: Map<usize, Seq<HintDataView>>,
}

/// The values of the hints of a program.
pub open spec fn hints_view(hints: Map<usize, Vec<HintData>>) -> Map<usize, Seq<HintDataView>> {
    Map::new(|offset: usize| hints.contains_key(offset), |offset: usize| hint_list_view(hints[offset]))
}

impl View for VirtualMachine {
    type V = VirtualMachineView;

    open spec fn view(&self) -> VirtualMachineView {
        VirtualMachineView {
            run_context: self.run_context@,
            prime: self.prime@,
            builtin_runners: builtins_view(self.builtin_runners),
            num_segments: self.segments.num_segments,
            segment_used_sizes: match self.segments.segment_used_sizes {
                Some(sizes) => Some(sizes@),
                None => None,
            },
            memory: self.memory@,
            references: self.references@,
            trace: self.trace@,
            program_base: self.program_base,
            hints: hints_view(self.hints@),
        }
    }
}

impl VirtualMachine {
    /// Whether the machine can compute: its modulus is greater than one, and
    /// the bounds of its range checks are greater than zero.
    pub open spec fn wf(&self) -> bool {
        &&& self.prime@ > 1
        &&& forall|i: int|
            0 <= i < self.builtin_runners@.len() ==> (
            #[trigger] self.builtin_runners@[i].1 matches BuiltinRunner::RangeCheck(runner)
                ==> runner.bound@ > 0)
    }

    /// A machine over the modulus `prime` with the given built-ins and
    /// registers, an empty memory and no references.
    pub fn new(
        prime: FieldInt,
        builtin_runners: Vec<(String, BuiltinRunner)>,
        run_context: RunContext,
    ) -> (r: VirtualMachine)
        ensures
            r.prime@ == prime@,
            r.builtin_runners == builtin_runners,
            r.run_context == run_context,
            r.segments.num_segments == 0,
            r.segments.segment_used_sizes is None,
            r.memory@.data.len() == 0,
            r.memory@.rules.len() == 0,
            r.references@ == Map::<usize, HintReference>::empty(),
            r.trace@ == Seq::<TraceEntry>::empty(),
            r.program_base is None,
            r.hints@ == Map::<usize, Vec<HintData>>::empty(),
    {
        VirtualMachine {
            run_context,
            prime,
            builtin_runners,
            segments: MemorySegmentManager::new(),
            memory: Memory::new(),
            references: HashMap::new(),
            trace: Vec::new(),
            program_base: None,
            hints: HashMap::new(),
        }
    }
}

/// The operands of an instruction, once all are known.
#[derive(Debug, PartialEq)]
pub struct Operands {
    pub dst: MaybeRelocatable,
    pub res: Option<MaybeRelocatable>,
    pub op0: MaybeRelocatable,
    pub op1: MaybeRelocatable,
}

/// The mathematical value of [`Operands`].
pub struct OperandsView {
    pub dst: Word,
    pub res: Option<Word>,
    pub op0: Word,
    pub op1: Word,
}

impl View for Operands {
    type V = OperandsView;

    open spec fn view(&self) -> OperandsView {
        OperandsView { dst: self.dst@, res: option_word(self.res), op0: self.op0@, op1: self.op1@ }
    }
}

/// The value of a deduction: the operand and the result, as far as each was
/// deduced.
pub open spec fn deduction_view(
    r: Result<(Option<MaybeRelocatable>, Option<MaybeRelocatable>), VirtualMachineError>,
) -> Result<(Option<Word>, Option<Word>), VmErrorView> {
    match r {
        Ok(pair) => Ok((option_word(pair.0), option_word(pair.1))),
        Err(e) => Err(e@),
    }
}

/// What is deduced of an operand that `known` is the other one of, where the
/// instruction asserts that the result is `dst`: for a sum, `dst` less
/// `known`; for a product, `dst` divided by `known` in the field, where both
/// are integers and `known` has an inverse. The result is then `dst`.
pub open spec fn deduce_operand_spec(
    res: Res,
    dst: Option<Word>,
    known: Option<Word>,
    prime: int,
) -> Result<(Option<Word>, Option<Word>), VmErrorView> {
    match (res, dst, known) {
        (Res::Add, Some(dst), Some(known)) => match sub_spec(dst, known, prime) {
            Ok(operand) => Ok((Some(operand), Some(dst))),
            Err(e) => Err(e),
        },
        (Res::Mul, Some(Word::Int(dst)), Some(Word::Int(known))) => if known != 0 {
            match div_mod_spec(dst, known, prime) {
                Some(operand) => Ok((Some(Word::Int(operand)), Some(Word::Int(dst)))),
                None => Ok((None, None)),
            }
        } else {
            Ok((None, None))
        },
        _ => Ok((None, None)),
    }
}

/// What the instruction tells of its first operand, and with it of its
/// result: for a call, the operand is the `pc` to return to; for an
/// `assert_eq`, see [`deduce_operand_spec`].
pub open spec fn deduce_op0_spec(
    vm: VirtualMachineView,
    instruction: InstructionView,
    dst: Option<Word>,
    op1: Option<Word>,
) -> Result<(Option<Word>, Option<Word>), VmErrorView> {
    match instruction.opcode {
        Opcode::Call => match return_pc_spec(vm, instruction) {
            Ok(return_pc) => Ok((Some(return_pc), None)),
            Err(e) => Err(e),
        },
        Opcode::AssertEq => deduce_operand_spec(instruction.res, dst, op1, vm.prime),
        _ => Ok((None, None)),
    }
}

/// What the instruction tells of its second operand, and with it of its
/// result: for an `assert_eq` whose result is the second operand, both are
/// `dst`; for other results of an `assert_eq`, see [`deduce_operand_spec`].
pub open spec fn deduce_op1_spec(
    vm: VirtualMachineView,
    instruction: InstructionView,
    dst: Option<Word>,
    op0: Option<Word>,
) -> Result<(Option<Word>, Option<Word>), VmErrorView> {
    match instruction.opcode {
        Opcode::AssertEq => match (instruction.res, dst) {
            (Res::Op1, Some(dst)) => Ok((Some(dst), Some(dst))),
            _ => deduce_operand_spec(instruction.res, dst, op0, vm.prime),
        },
        _ => Ok((None, None)),
    }
}

/// The number of cells that `instruction` takes.
pub open spec fn size_spec(instruction: InstructionView) -> int {
    if instruction.imm is Some {
        2
    } else {
        1
    }
}

/// The `pc` after `instruction`, where it does not jump.
pub open spec fn return_pc_spec(vm: VirtualMachineView, instruction: InstructionView) -> Result<
    Word,
    VmErrorView,
> {
    add_int_mod_spec(vm.run_context.pc, size_spec(instruction), vm.prime)
}

/// The result of `instruction` on its operands: the second operand, the sum
/// or the product of the two in the field, or nothing where the instruction
/// leaves it open.
pub open spec fn compute_res_spec(
    instruction: InstructionView,
    op0: Word,
    op1: Word,
    prime: int,
) -> Result<Option<Word>, VmErrorView> {
    match instruction.res {
        Res::Op1 => Ok(Some(op1)),
        Res::Add => match add_mod_spec(op0, op1, prime) {
            Ok(sum) => Ok(Some(sum)),
            Err(e) => Err(e),
        },
        Res::Mul => match mul_mod_spec(op0, op1, prime) {
            Ok(product) => Ok(Some(product)),
            Err(e) => Err(e),
        },
        Res::Unconstrained => Ok(None),
    }
}

/// What the instruction tells of its destination: for an `assert_eq` it is
/// the result, for a call it is `fp`.
pub open spec fn deduce_dst_spec(
    vm: VirtualMachineView,
    instruction: InstructionView,
    res: Option<Word>,
) -> Option<Word> {
    match instruction.opcode {
        Opcode::AssertEq => res,
        Opcode::Call => Some(vm.run_context.fp),
        _ => None,
    }
}

impl VirtualMachine {
    /// The `pc` after `instruction`, where it does not jump.
    fn return_pc(&self, instruction: &Instruction) -> (r: Result<
        MaybeRelocatable,
        VirtualMachineError,
    >)
        requires
            self.wf(),
        ensures
            word_result_view(r) == return_pc_spec(self@, instruction@),
    {
        self.run_context.pc.add_int_mod(&FieldInt::from_usize(instruction.size()), &self.prime)
    }

    /// What is deduced of the operand that `known` is the other one of.
    fn deduce_operand(
        &self,
        res: Res,
        dst: Option<&MaybeRelocatable>,
        known: Option<&MaybeRelocatable>,
    ) -> (r: Result<(Option<MaybeRelocatable>, Option<MaybeRelocatable>), VirtualMachineError>)
        requires
            self.wf(),
        ensures
            deduction_view(r) == deduce_operand_spec(
                res,
                option_ref_word(dst),
                option_ref_word(known),
                self@.prime,
            ),
    {
        match (res, dst, known) {
            (Res::Add, Some(dst), Some(known)) => {
                match dst.sub(known, &self.prime) {
                    Ok(operand) => Ok((Some(operand), Some(dst.clone()))),
                    Err(e) => Err(e),
                }
            },
            (Res::Mul, Some(MaybeRelocatable::Int(dst)), Some(MaybeRelocatable::Int(known))) => {
                if !known.is_zero() {
                    match div_mod(dst, known, &self.prime) {
                        Some(operand) => Ok(
                            (
                                Some(MaybeRelocatable::Int(operand)),
                                Some(MaybeRelocatable::Int(dst.clone())),
                            ),
                        ),
                        None => Ok((None, None)),
                    }
                } else {
                    Ok((None, None))
                }
            },
            _ => Ok((None, None)),
        }
    }

    /// What the instruction tells of its first operand, and with it of its
    /// result.
    pub fn deduce_op0(
        &self,
        instruction: &Instruction,
        dst: Option<&MaybeRelocatable>,
        op1: Option<&MaybeRelocatable>,
    ) -> (r: Result<(Option<MaybeRelocatable>, Option<MaybeRelocatable>), VirtualMachineError>)
        requires
            self.wf(),
        ensures
            deduction_view(r) == deduce_op0_spec(
                self@,
                instruction@,
                option_ref_word(dst),
                option_ref_word(op1),
            ),
    {
        match instruction.opcode {
            Opcode::Call => match self.return_pc(instruction) {
                Ok(return_pc) => Ok((Some(return_pc), None)),
                Err(e) => Err(e),
            },
            Opcode::AssertEq => self.deduce_operand(instruction.res, dst, op1),
            _ => Ok((None, None)),
        }
    }

    /// What the instruction tells of its second operand, and with it of its
    /// result.
    pub fn deduce_op1(
        &self,
        instruction: &Instruction,
        dst: Option<&MaybeRelocatable>,
        op0: Option<&MaybeRelocatable>,
    ) -> (r: Result<(Option<MaybeRelocatable>, Option<MaybeRelocatable>), VirtualMachineError>)
        requires
            self.wf(),
        ensures
            deduction_view(r) == deduce_op1_spec(
                self@,
                instruction@,
                option_ref_word(dst),
                option_ref_word(op0),
            ),
    {
        match instruction.opcode {
            Opcode::AssertEq => match (instruction.res, dst) {
                (Res::Op1, Some(dst)) => Ok((Some(dst.clone()), Some(dst.clone()))),
                _ => self.deduce_operand(instruction.res, dst, op0),
            },
            _ => Ok((None, None)),
        }
    }

    /// The result of `instruction` on its operands.
    pub fn compute_res(
        &self,
        instruction: &Instruction,
        op0: &MaybeRelocatable,
        op1: &MaybeRelocatable,
    ) -> (r: Result<Option<MaybeRelocatable>, VirtualMachineError>)
        requires
            self.wf(),
        ensures
            match r {
                Ok(res) => compute_res_spec(instruction@, op0@, op1@, self@.prime) == Ok::<
                    Option<Word>,
                    VmErrorView,
                >(option_word(res)),
                Err(e) => compute_res_spec(instruction@, op0@, op1@, self@.prime) == Err::<
                    Option<Word>,
                    VmErrorView,
                >(e@),
            },
    {
        match instruction.res {
            Res::Op1 => Ok(Some(op1.clone())),
            Res::Add => match op0.add_mod(op1, &self.prime) {
                Ok(sum) => Ok(Some(sum)),
                Err(e) => Err(e),
            },
            Res::Mul => match op0.mul_mod(op1, &self.prime) {
                Ok(product) => Ok(Some(product)),
                Err(e) => Err(e),
            },
            Res::Unconstrained => Ok(None),
        }
    }

    /// What the instruction tells of its destination.
    pub fn deduce_dst(&self, instruction: &Instruction, res: Option<&MaybeRelocatable>) -> (r:
        Option<MaybeRelocatable>)
        ensures
            option_word(r) == deduce_dst_spec(self@, instruction@, option_ref_word(res)),
    {
        match instruction.opcode {
            Opcode::AssertEq => match res {
                Some(res) => Some(res.clone()),
                None => None,
            },
            Opcode::Call => Some(self.run_context.fp.clone()),
            _ => None,
        }
    }
}

/// The cells that an instruction names, and what each holds before the
/// instruction runs.
pub struct OperandCells {
    pub dst_addr: MaybeRelocatable,
    pub dst: Option<MaybeRelocatable>,
    pub op0_addr: MaybeRelocatable,
    pub op0: Option<MaybeRelocatable>,
    pub op1_addr: MaybeRelocatable,
    pub op1: Option<MaybeRelocatable>,
}

/// The mathematical value of [`OperandCells`].
pub struct OperandCellsView {
    pub dst_addr: Word,
    pub dst: Option<Word>,
    pub op0_addr: Word,
    pub op0: Option<Word>,
    pub op1_addr: Word,
    pub op1: Option<Word>,
}

impl View for OperandCells {
    type V = OperandCellsView;

    open spec fn view(&self) -> OperandCellsView {
        OperandCellsView {
            dst_addr: self.dst_addr@,
            dst: option_word(self.dst),
            op0_addr: self.op0_addr@,
            op0: option_word(self.op0),
            op1_addr: self.op1_addr@,
            op1: option_word(self.op1),
        }
    }
}

/// What a read by the machine returns.
pub open spec fn read_spec(memory: MemoryView, key: Word) -> Result<Option<Word>, VmErrorView> {
    match memory.get_word(key) {
        Ok(value) => Ok(value),
        Err(e) => Err(VmErrorView::MemoryError(e)),
    }
}

/// The cells that `instruction` names, and what they hold.
pub open spec fn operand_cells_spec(vm: VirtualMachineView, instruction: InstructionView)
    -> Result<OperandCellsView, VmErrorView> {
    match vm.run_context.dst_addr(instruction, vm.prime) {
        Err(e) => Err(e),
        Ok(dst_addr) => match read_spec(vm.memory, dst_addr) {
            Err(e) => Err(e),
            Ok(dst) => match vm.run_context.op0_addr(instruction, vm.prime) {
                Err(e) => Err(e),
                Ok(op0_addr) => match read_spec(vm.memory, op0_addr) {
                    Err(e) => Err(e),
                    Ok(op0) => match vm.run_context.op1_addr(instruction, op0, vm.prime) {
                        Err(e) => Err(e),
                        Ok(op1_addr) => match read_spec(vm.memory, op1_addr) {
                            Err(e) => Err(e),
                            Ok(op1) => Ok(
                                OperandCellsView { dst_addr, dst, op0_addr, op0, op1_addr, op1 },
                            ),
                        },
                    },
                },
            },
        },
    }
}

/// The operands of `instruction`: what its cells hold, and for an empty cell
/// what the instruction tells of it. An operand of which nothing is known is
/// reported with its address.
pub open spec fn resolve_operands_spec(
    vm: VirtualMachineView,
    instruction: InstructionView,
    cells: OperandCellsView,
) -> Result<OperandsView, VmErrorView> {
    let op0_deduced = match cells.op0 {
        Some(op0) => Ok((Some(op0), None)),
        None => deduce_op0_spec(vm, instruction, cells.dst, cells.op1),
    };
    match op0_deduced {
        Err(e) => Err(e),
        Ok((op0, res_of_op0)) => {
            let op1_deduced = match cells.op1 {
                Some(op1) => Ok((Some(op1), None)),
                None => deduce_op1_spec(vm, instruction, cells.dst, op0),
            };
            match op1_deduced {
                Err(e) => Err(e),
                Ok((op1, res_of_op1)) => match (op0, op1) {
                    (None, _) => Err(VmErrorView::MemoryGet(cells.op0_addr)),
                    (Some(_), None) => Err(VmErrorView::MemoryGet(cells.op1_addr)),
                    (Some(op0), Some(op1)) => {
                        let res_known = if res_of_op0 is Some {
                            Ok(res_of_op0)
                        } else if res_of_op1 is Some {
                            Ok(res_of_op1)
                        } else {
                            compute_res_spec(instruction, op0, op1, vm.prime)
                        };
                        match res_known {
                            Err(e) => Err(e),
                            Ok(res) => {
                                let dst = match cells.dst {
                                    Some(dst) => Some(dst),
                                    None => deduce_dst_spec(vm, instruction, res),
                                };
                                match dst {
                                    None => Err(VmErrorView::MemoryGet(cells.dst_addr)),
                                    Some(dst) => Ok(OperandsView { dst, res, op0, op1 }),
                                }
                            },
                        }
                    },
                },
            }
        },
    }
}

/// What a write by the machine returns, and the memory that it leaves.
pub open spec fn write_spec(memory: MemoryView, key: Word, value: Word) -> (
    Result<(), VmErrorView>,
    MemoryView,
) {
    let written = memory.insert(key, value);
    match written.0 {
        Ok(()) => (Ok(()), written.1),
        Err(e) => (Err(VmErrorView::MemoryError(e)), written.1),
    }
}

/// What the write of an operand returns, and the memory that it leaves: the
/// operand is written where its cell was `empty`.
pub open spec fn write_operand_spec(memory: MemoryView, empty: bool, key: Word, value: Word) -> (
    Result<(), VmErrorView>,
    MemoryView,
) {
    if empty {
        write_spec(memory, key, value)
    } else {
        (Ok(()), memory)
    }
}

/// What the writes of the operands that were deduced return, and the memory
/// that they leave: destination, first and second operand in turn, up to the
/// first write that fails.
pub open spec fn write_operands_spec(
    memory: MemoryView,
    cells: OperandCellsView,
    operands: OperandsView,
) -> (Result<(), VmErrorView>, MemoryView) {
    let dst = write_operand_spec(memory, cells.dst is None, cells.dst_addr, operands.dst);
    if dst.0 is Err {
        dst
    } else {
        let op0 = write_operand_spec(dst.1, cells.op0 is None, cells.op0_addr, operands.op0);
        if op0.0 is Err {
            op0
        } else {
            write_operand_spec(op0.1, cells.op1 is None, cells.op1_addr, operands.op1)
        }
    }
}

/// What [`VirtualMachine::compute_operands`] returns, and the memory that it
/// leaves.
pub open spec fn compute_operands_spec(vm: VirtualMachineView, instruction: InstructionView) -> (
    Result<OperandsView, VmErrorView>,
    MemoryView,
) {
    match operand_cells_spec(vm, instruction) {
        Err(e) => (Err(e), vm.memory),
        Ok(cells) => match resolve_operands_spec(vm, instruction, cells) {
            Err(e) => (Err(e), vm.memory),
            Ok(operands) => {
                let written = write_operands_spec(vm.memory, cells, operands);
                match written.0 {
                    Ok(()) => (Ok(operands), written.1),
                    Err(e) => (Err(e), written.1),
                }
            },
        },
    }
}

/// The value of the operands that a computation returned.
pub open spec fn operands_result_view(r: Result<Operands, VirtualMachineError>) -> Result<
    OperandsView,
    VmErrorView,
> {
    match r {
        Ok(operands) => Ok(operands@),
        Err(e) => Err(e@),
    }
}

/// The value of the result of a step of the machine.
pub open spec fn vm_result_view(r: Result<(), VirtualMachineError>) -> Result<(), VmErrorView> {
    match r {
        Ok(()) => Ok(()),
        Err(e) => Err(e@),
    }
}

impl VirtualMachine {
    /// Whether `other` differs from the machine in nothing but the memory.
    pub open spec fn same_but_memory(&self, other: &VirtualMachine) -> bool {
        &&& other.run_context == self.run_context
        &&& other.prime == self.prime
        &&& other.builtin_runners == self.builtin_runners
        &&& other.segments == self.segments
        &&& other.references == self.references
        &&& other.trace == self.trace
        &&& other.program_base == self.program_base
        &&& other.hints == self.hints
    }

    /// What the cell at `key` holds.
    fn read(&self, key: &MaybeRelocatable) -> (r: Result<
        Option<MaybeRelocatable>,
        VirtualMachineError,
    >)
        ensures
            match r {
                Ok(value) => read_spec(self@.memory, key@) == Ok::<Option<Word>, VmErrorView>(
                    option_word(value),
                ),
                Err(e) => read_spec(self@.memory, key@) == Err::<Option<Word>, VmErrorView>(e@),
            },
    {
        match self.memory.get(key) {
            Ok(Some(value)) => Ok(Some(value.clone())),
            Ok(None) => Ok(None),
            Err(e) => Err(VirtualMachineError::MemoryError(e)),
        }
    }

    /// The cells that `instruction` names, and what they hold.
    fn operand_cells(&self, instruction: &Instruction) -> (r: Result<
        OperandCells,
        VirtualMachineError,
    >)
        requires
            self.wf(),
        ensures
            match r {
                Ok(cells) => operand_cells_spec(self@, instruction@) == Ok::<
                    OperandCellsView,
                    VmErrorView,
                >(cells@),
                Err(e) => operand_cells_spec(self@, instruction@) == Err::<
                    OperandCellsView,
                    VmErrorView,
                >(e@),
            },
    {
        let dst_addr = match self.run_context.compute_dst_addr(instruction, &self.prime) {
            Ok(address) => address,
            Err(e) => {
                return Err(e);
            },
        };
        let dst = match self.read(&dst_addr) {
            Ok(value) => value,
            Err(e) => {
                return Err(e);
            },
        };
        let op0_addr = match self.run_context.compute_op0_addr(instruction, &self.prime) {
            Ok(address) => address,
            Err(e) => {
                return Err(e);
            },
        };
        let op0 = match self.read(&op0_addr) {
            Ok(value) => value,
            Err(e) => {
                return Err(e);
            },
        };
        let op1_addr = match self.run_context.compute_op1_addr(
            instruction,
            op0.as_ref(),
            &self.prime,
        ) {
            Ok(address) => address,
            Err(e) => {
                return Err(e);
            },
        };
        let op1 = match self.read(&op1_addr) {
            Ok(value) => value,
            Err(e) => {
                return Err(e);
            },
        };
        Ok(OperandCells { dst_addr, dst, op0_addr, op0, op1_addr, op1 })
    }

    /// What the built-in of the segment of `address` can tell of the cell
    /// there, which was not written. None of the built-ins of this machine
    /// tells anything.
    fn deduce_memory_cell(&self, address: &MaybeRelocatable) -> (r: Option<MaybeRelocatable>)
        ensures
            r is None,
    {
        if let MaybeRelocatable::RelocatableValue(cell) = address {
            let mut i: usize = 0;
            while i < self.builtin_runners.len()
                invariant
                    i <= self.builtin_runners.len(),
                decreases self.builtin_runners.len() - i,
            {
                if let Some(base) = self.builtin_runners[i].1.base() {
                    if base.segment_index == cell.segment_index {
                        let deduced = self.builtin_runners[i].1.deduce_memory_cell(
                            cell,
                            &self.memory,
                        );
                        if deduced.is_some() {
                            return deduced;
                        }
                    }
                }
                i += 1;
            }
        }
        None
    }

    /// The operands of `instruction`, given its cells.
    fn resolve_operands(&self, instruction: &Instruction, cells: &OperandCells) -> (r: Result<
        Operands,
        VirtualMachineError,
    >)
        requires
            self.wf(),
        ensures
            operands_result_view(r) == resolve_operands_spec(self@, instruction@, cells@),
    {
        let mut res: Option<MaybeRelocatable> = None;
        let mut op0: Option<MaybeRelocatable> = match &cells.op0 {
            Some(value) => Some(value.clone()),
            None => self.deduce_memory_cell(&cells.op0_addr),
        };
        if op0.is_none() {
            match self.deduce_op0(instruction, cells.dst.as_ref(), cells.op1.as_ref()) {
                Ok((deduced, deduced_res)) => {
                    op0 = deduced;
                    res = deduced_res;
                },
                Err(e) => {
                    return Err(e);
                },
            }
        }
        let ghost res_of_op0 = option_word(res);
        let mut op1: Option<MaybeRelocatable> = match &cells.op1 {
            Some(value) => Some(value.clone()),
            None => self.deduce_memory_cell(&cells.op1_addr),
        };
        if op1.is_none() {
            match self.deduce_op1(instruction, cells.dst.as_ref(), op0.as_ref()) {
                Ok((deduced, deduced_res)) => {
                    op1 = deduced;
                    if res.is_none() {
                        res = deduced_res;
                    }
                },
                Err(e) => {
                    return Err(e);
                },
            }
        }
        let op0 = match op0 {
            Some(value) => value,
            None => {
                return Err(VirtualMachineError::MemoryGet(cells.op0_addr.clone()));
            },
        };
        let op1 = match op1 {
            Some(value) => value,
            None => {
                return Err(VirtualMachineError::MemoryGet(cells.op1_addr.clone()));
            },
        };
        if res.is_none() {
            match self.compute_res(instruction, &op0, &op1) {
                Ok(computed) => {
                    res = computed;
                },
                Err(e) => {
                    return Err(e);
                },
            }
        }
        let dst = match &cells.dst {
            Some(value) => Some(value.clone()),
            None => self.deduce_dst(instruction, res.as_ref()),
        };
        match dst {
            Some(dst) => Ok(Operands { dst, res, op0, op1 }),
            None => Err(VirtualMachineError::MemoryGet(cells.dst_addr.clone())),
        }
    }

    /// Writes `value` to the cell at `key` where that cell was `empty`.
    fn write_operand(&mut self, empty: bool, key: &MaybeRelocatable, value: &MaybeRelocatable) -> (r:
        Result<(), VirtualMachineError>)
        ensures
            (vm_result_view(r), final(self).memory@) == write_operand_spec(
                old(self).memory@,
                empty,
                key@,
                value@,
            ),
            old(self).same_but_memory(final(self)),
    {
        if empty {
            match self.memory.insert(key, value) {
                Ok(()) => Ok(()),
                Err(e) => Err(VirtualMachineError::MemoryError(e)),
            }
        } else {
            Ok(())
        }
    }

    /// Writes the operands that were deduced to their cells.
    fn write_operands(&mut self, cells: &OperandCells, operands: &Operands) -> (r: Result<
        (),
        VirtualMachineError,
    >)
        ensures
            (vm_result_view(r), final(self).memory@) == write_operands_spec(
                old(self).memory@,
                cells@,
                operands@,
            ),
            old(self).same_but_memory(final(self)),
    {
        match self.write_operand(cells.dst.is_none(), &cells.dst_addr, &operands.dst) {
            Ok(()) => {},
            Err(e) => {
                return Err(e);
            },
        }
        match self.write_operand(cells.op0.is_none(), &cells.op0_addr, &operands.op0) {
            Ok(()) => {},
            Err(e) => {
                return Err(e);
            },
        }
        self.write_operand(cells.op1.is_none(), &cells.op1_addr, &operands.op1)
    }

    /// Finds the operands of `instruction`: reads those that memory holds,
    /// deduces the others from what the instruction asserts, and writes the
    /// deduced ones to their cells.
    pub fn compute_operands(&mut self, instruction: &Instruction) -> (r: Result<
        Operands,
        VirtualMachineError,
    >)
        requires
            old(self).wf(),
        ensures
            (operands_result_view(r), final(self).memory@) == compute_operands_spec(
                old(self)@,
                instruction@,
            ),
            old(self).same_but_memory(final(self)),
    {
        let cells = match self.operand_cells(instruction) {
            Ok(cells) => cells,
            Err(e) => {
                return Err(e);
            },
        };
        let operands = match self.resolve_operands(instruction, &cells) {
            Ok(operands) => operands,
            Err(e) => {
                return Err(e);
            },
        };
        match self.write_operands(&cells, &operands) {
            Ok(()) => Ok(operands),
            Err(e) => Err(e),
        }
    }
}

/// What the opcode of `instruction` asserts of its operands: an
/// `assert_eq`, that the result is the destination; a call, that the first
/// operand is the `pc` to return to and the destination is `fp`.
pub open spec fn opcode_assertions_spec(
    vm: VirtualMachineView,
    instruction: InstructionView,
    operands: OperandsView,
) -> Result<(), VmErrorView> {
    match instruction.opcode {
        Opcode::AssertEq => match operands.res {
            None => Err(VmErrorView::UnconstrainedResAssertEq),
            Some(res) => if res != operands.dst {
                Err(VmErrorView::DiffAssertValues(res, operands.dst))
            } else {
                Ok(())
            },
        },
        Opcode::Call => match return_pc_spec(vm, instruction) {
            Err(e) => Err(e),
            Ok(return_pc) => if operands.op0 != return_pc {
                Err(VmErrorView::CantWriteReturnPc(operands.op0, return_pc))
            } else if operands.dst != vm.run_context.fp {
                Err(VmErrorView::CantWriteReturnFp(operands.dst, vm.run_context.fp))
            } else {
                Ok(())
            },
        },
        _ => Ok(()),
    }
}

/// The `pc` after `instruction`, which is an address.
pub open spec fn next_pc_spec(
    vm: VirtualMachineView,
    instruction: InstructionView,
    operands: OperandsView,
) -> Result<Word, VmErrorView> {
    match instruction.pc_update {
        PcUpdate::Regular => return_pc_spec(vm, instruction),
        PcUpdate::Jump => match operands.res {
            None => Err(VmErrorView::UnconstrainedResJump),
            Some(Word::Addr(target)) => Ok(Word::Addr(target)),
            Some(Word::Int(value)) => Err(VmErrorView::ExpectedRelocatable(Word::Int(value))),
        },
        PcUpdate::JumpRel => match operands.res {
            None => Err(VmErrorView::UnconstrainedResJumpRel),
            Some(Word::Int(distance)) => add_int_mod_spec(vm.run_context.pc, distance, vm.prime),
            Some(Word::Addr(_)) => Err(VmErrorView::PureValue),
        },
        PcUpdate::Jnz => if operands.dst == Word::Int(0) {
            return_pc_spec(vm, instruction)
        } else {
            match operands.op1 {
                Word::Int(distance) => add_int_mod_spec(vm.run_context.pc, distance, vm.prime),
                Word::Addr(_) => Err(VmErrorView::PureValue),
            }
        },
    }
}

/// The `ap` after `instruction`.
pub open spec fn next_ap_spec(
    vm: VirtualMachineView,
    instruction: InstructionView,
    operands: OperandsView,
) -> Result<Word, VmErrorView> {
    match instruction.ap_update {
        ApUpdate::Regular => Ok(vm.run_context.ap),
        ApUpdate::Add => match operands.res {
            None => Err(VmErrorView::UnconstrainedResAdd),
            Some(Word::Int(distance)) => add_int_mod_spec(vm.run_context.ap, distance, vm.prime),
            Some(Word::Addr(_)) => Err(VmErrorView::PureValue),
        },
        ApUpdate::Add1 => add_int_mod_spec(vm.run_context.ap, 1, vm.prime),
        ApUpdate::Add2 => add_int_mod_spec(vm.run_context.ap, 2, vm.prime),
    }
}

/// The `fp` after `instruction`.
pub open spec fn next_fp_spec(
    vm: VirtualMachineView,
    instruction: InstructionView,
    operands: OperandsView,
) -> Result<Word, VmErrorView> {
    match instruction.fp_update {
        FpUpdate::Regular => Ok(vm.run_context.fp),
        FpUpdate::APPlus2 => add_int_mod_spec(vm.run_context.ap, 2, vm.prime),
        FpUpdate::Dst => match operands.dst {
            Word::Addr(frame) => Ok(Word::Addr(frame)),
            Word::Int(value) => Err(VmErrorView::ExpectedRelocatable(Word::Int(value))),
        },
    }
}

/// The registers after `instruction`: `pc`, `ap` and `fp` are computed in
/// this order from the registers before it, and the first that cannot be
/// computed is the failure.
pub open spec fn next_registers_spec(
    vm: VirtualMachineView,
    instruction: InstructionView,
    operands: OperandsView,
) -> Result<RunContextView, VmErrorView> {
    match next_pc_spec(vm, instruction, operands) {
        Err(e) => Err(e),
        Ok(pc) => match next_ap_spec(vm, instruction, operands) {
            Err(e) => Err(e),
            Ok(ap) => match next_fp_spec(vm, instruction, operands) {
                Err(e) => Err(e),
                Ok(fp) => Ok(RunContextView { pc, ap, fp }),
            },
        },
    }
}

impl VirtualMachine {
    /// Holds the operands against what the opcode of `instruction` asserts.
    pub fn opcode_assertions(&self, instruction: &Instruction, operands: &Operands) -> (r: Result<
        (),
        VirtualMachineError,
    >)
        requires
            self.wf(),
        ensures
            vm_result_view(r) == opcode_assertions_spec(self@, instruction@, operands@),
    {
        match instruction.opcode {
            Opcode::AssertEq => match &operands.res {
                None => Err(VirtualMachineError::UnconstrainedResAssertEq),
                Some(res) => {
                    if !res.equals(&operands.dst) {
                        Err(
                            VirtualMachineError::DiffAssertValues(
                                res.clone(),
                                operands.dst.clone(),
                            ),
                        )
                    } else {
                        Ok(())
                    }
                },
            },
            Opcode::Call => {
                let return_pc = match self.return_pc(instruction) {
                    Ok(return_pc) => return_pc,
                    Err(e) => {
                        return Err(e);
                    },
                };
                if !operands.op0.equals(&return_pc) {
                    Err(VirtualMachineError::CantWriteReturnPc(operands.op0.clone(), return_pc))
                } else if !operands.dst.equals(&self.run_context.fp) {
                    Err(
                        VirtualMachineError::CantWriteReturnFp(
                            operands.dst.clone(),
                            self.run_context.fp.clone(),
                        ),
                    )
                } else {
                    Ok(())
                }
            },
            _ => Ok(()),
        }
    }

    /// The `pc` after `instruction`.
    fn next_pc(&self, instruction: &Instruction, operands: &Operands) -> (r: Result<
        MaybeRelocatable,
        VirtualMachineError,
    >)
        requires
            self.wf(),
        ensures
            word_result_view(r) == next_pc_spec(self@, instruction@, operands@),
    {
        match instruction.pc_update {
            PcUpdate::Regular => self.return_pc(instruction),
            PcUpdate::Jump => match &operands.res {
                None => Err(VirtualMachineError::UnconstrainedResJump),
                Some(MaybeRelocatable::RelocatableValue(target)) => Ok(
                    MaybeRelocatable::RelocatableValue(*target),
                ),
                Some(value) => Err(VirtualMachineError::ExpectedRelocatable(value.clone())),
            },
            PcUpdate::JumpRel => match &operands.res {
                None => Err(VirtualMachineError::UnconstrainedResJumpRel),
                Some(MaybeRelocatable::Int(distance)) => self.run_context.pc.add_int_mod(
                    distance,
                    &self.prime,
                ),
                Some(_) => Err(VirtualMachineError::PureValue),
            },
            PcUpdate::Jnz => {
                let dst_is_zero = match &operands.dst {
                    MaybeRelocatable::Int(value) => value.is_zero(),
                    MaybeRelocatable::RelocatableValue(_) => false,
                };
                if dst_is_zero {
                    self.return_pc(instruction)
                } else {
                    match &operands.op1 {
                        MaybeRelocatable::Int(distance) => self.run_context.pc.add_int_mod(
                            distance,
                            &self.prime,
                        ),
                        MaybeRelocatable::RelocatableValue(_) => Err(
                            VirtualMachineError::PureValue,
                        ),
                    }
                }
            },
        }
    }

    /// The `ap` after `instruction`.
    fn next_ap(&self, instruction: &Instruction, operands: &Operands) -> (r: Result<
        MaybeRelocatable,
        VirtualMachineError,
    >)
        requires
            self.wf(),
        ensures
            word_result_view(r) == next_ap_spec(self@, instruction@, operands@),
    {
        match instruction.ap_update {
            ApUpdate::Regular => Ok(self.run_context.ap.clone()),
            ApUpdate::Add => match &operands.res {
                None => Err(VirtualMachineError::UnconstrainedResAdd),
                Some(MaybeRelocatable::Int(distance)) => self.run_context.ap.add_int_mod(
                    distance,
                    &self.prime,
                ),
                Some(_) => Err(VirtualMachineError::PureValue),
            },
            ApUpdate::Add1 => self.run_context.ap.add_int_mod(&FieldInt::from_i64(1), &self.prime),
            ApUpdate::Add2 => self.run_context.ap.add_int_mod(&FieldInt::from_i64(2), &self.prime),
        }
    }

    /// The `fp` after `instruction`.
    fn next_fp(&self, instruction: &Instruction, operands: &Operands) -> (r: Result<
        MaybeRelocatable,
        VirtualMachineError,
    >)
        requires
            self.wf(),
        ensures
            word_result_view(r) == next_fp_spec(self@, instruction@, operands@),
    {
        match instruction.fp_update {
            FpUpdate::Regular => Ok(self.run_context.fp.clone()),
            FpUpdate::APPlus2 => self.run_context.ap.add_int_mod(
                &FieldInt::from_i64(2),
                &self.prime,
            ),
            FpUpdate::Dst => match &operands.dst {
                MaybeRelocatable::RelocatableValue(frame) => Ok(
                    MaybeRelocatable::RelocatableValue(*frame),
                ),
                value => Err(VirtualMachineError::ExpectedRelocatable(value.clone())),
            },
        }
    }

    /// Moves the registers on by `instruction`. Where one of them cannot be
    /// computed, none is changed.
    pub fn update_registers(&mut self, instruction: &Instruction, operands: &Operands) -> (r:
        Result<(), VirtualMachineError>)
        requires
            old(self).wf(),
        ensures
            match next_registers_spec(old(self)@, instruction@, operands@) {
                Ok(registers) => r is Ok && final(self).run_context@ == registers,
                Err(e) => r matches Err(x) && x@ == e && final(self).run_context@ == old(
                    self,
                ).run_context@,
            },
            final(self).prime == old(self).prime,
            final(self).builtin_runners == old(self).builtin_runners,
            final(self).segments == old(self).segments,
            final(self).memory == old(self).memory,
            final(self).references == old(self).references,
            final(self).trace == old(self).trace,
            final(self).program_base == old(self).program_base,
            final(self).hints == old(self).hints,
    {
        let pc = match self.next_pc(instruction, operands) {
            Ok(pc) => pc,
            Err(e) => {
                return Err(e);
            },
        };
        let ap = match self.next_ap(instruction, operands) {
            Ok(ap) => ap,
            Err(e) => {
                return Err(e);
            },
        };
        let fp = match self.next_fp(instruction, operands) {
            Ok(fp) => fp,
            Err(e) => {
                return Err(e);
            },
        };
        self.run_context = RunContext { pc, ap, fp };
        Ok(())
    }
}

/// The offset of `pc` from the start of the program, where `pc` lies in
/// the program.
pub open spec fn program_offset_spec(vm: VirtualMachineView) -> Option<usize> {
    match (vm.run_context.pc, vm.program_base) {
        (Word::Addr(pc), Some(base)) => if pc.segment_index == base.segment_index && pc.offset
            >= base.offset {
            Some((pc.offset - base.offset) as usize)
        } else {
            None
        },
        _ => None,
    }
}

/// The hints that are run before the instruction at `pc`.
pub open spec fn hints_at_pc(vm: VirtualMachineView) -> Seq<HintDataView> {
    match program_offset_spec(vm) {
        Some(offset) => if vm.hints.contains_key(offset) {
            vm.hints[offset]
        } else {
            Seq::empty()
        },
        None => Seq::empty(),
    }
}

/// What running the hints `hints[from..]` in their order returns, and the
/// machine that it leaves: the first hint that fails ends the run.
pub open spec fn run_hints_spec(vm: VirtualMachineView, hints: Seq<HintDataView>, from: int) -> (
    Result<(), VmErrorView>,
    VirtualMachineView,
)
    decreases hints.len() - from,
{
    if from < 0 || from >= hints.len() {
        (Ok(()), vm)
    } else {
        let done = execute_hint_spec(vm, hints[from]);
        if done.0 is Err {
            done
        } else {
            run_hints_spec(done.1, hints, from + 1)
        }
    }
}

/// The instruction at `pc`: the cell there holds its word, an integer of 64
/// bits, and the cell after it the immediate, where that is an integer. An
/// instruction that needs an immediate and finds none cannot be decoded.
pub open spec fn decode_current_instruction_spec(vm: VirtualMachineView) -> Result<
    InstructionView,
    VmErrorView,
> {
    match vm.run_context.pc {
        Word::Addr(pc) => match vm.memory.get(pc) {
            Some(Word::Int(word)) => if i64::MIN <= word <= i64::MAX {
                let imm = if pc.offset < usize::MAX {
                    match vm.memory.get(
                        Relocatable {
                            segment_index: pc.segment_index,
                            offset: (pc.offset + 1) as usize,
                        },
                    ) {
                        Some(Word::Int(imm)) => Some(imm),
                        _ => None,
                    }
                } else {
                    None
                };
                if op1_src_bits(word as i64) == 1 && imm is None {
                    Err(VmErrorView::InvalidInstructionEncoding)
                } else {
                    decode_instruction_spec(word as i64, imm)
                }
            } else {
                Err(VmErrorView::InvalidInstructionEncoding)
            },
            _ => Err(VmErrorView::InvalidInstructionEncoding),
        },
        Word::Int(_) => Err(VmErrorView::InvalidInstructionEncoding),
    }
}

/// The registers as a trace entry, where all three hold addresses.
pub open spec fn trace_entry_spec(registers: RunContextView) -> Result<TraceEntry, VmErrorView> {
    match (registers.pc, registers.ap, registers.fp) {
        (Word::Addr(pc), Word::Addr(ap), Word::Addr(fp)) => Ok(TraceEntry { pc, ap, fp }),
        (Word::Int(_), _, _) => Err(VmErrorView::ExpectedRelocatable(registers.pc)),
        (_, Word::Int(_), _) => Err(VmErrorView::ExpectedRelocatable(registers.ap)),
        (_, _, Word::Int(_)) => Err(VmErrorView::ExpectedRelocatable(registers.fp)),
    }
}

/// What running `instruction` returns, and the machine that it leaves.
///
/// The registers must hold addresses. The operands are found and the deduced
/// ones written; they are held against what the opcode asserts; the registers
/// are recorded in the trace; and then the registers move on. A failure ends
/// the instruction where it occurs, and what was written and recorded before
/// stays.
pub open spec fn run_instruction_spec(vm: VirtualMachineView, instruction: InstructionView) -> (
    Result<(), VmErrorView>,
    VirtualMachineView,
) {
    match trace_entry_spec(vm.run_context) {
        Err(e) => (Err(e), vm),
        Ok(entry) => {
            let computed = compute_operands_spec(vm, instruction);
            let with_operands = VirtualMachineView { memory: computed.1, ..vm };
            match computed.0 {
                Err(e) => (Err(e), with_operands),
                Ok(operands) => match opcode_assertions_spec(vm, instruction, operands) {
                    Err(e) => (Err(e), with_operands),
                    Ok(()) => {
                        let traced = VirtualMachineView {
                            trace: vm.trace.push(entry),
                            ..with_operands
                        };
                        match next_registers_spec(vm, instruction, operands) {
                            Err(e) => (Err(e), traced),
                            Ok(registers) => (
                                Ok(()),
                                VirtualMachineView { run_context: registers, ..traced },
                            ),
                        }
                    },
                },
            }
        },
    }
}

/// What a step of the machine returns, and the machine that it leaves: the
/// hints of the instruction at `pc` are run, then the instruction is decoded
/// and run. The first failure ends the step.
pub open spec fn step_spec(vm: VirtualMachineView) -> (Result<(), VmErrorView>, VirtualMachineView) {
    let hinted = run_hints_spec(vm, hints_at_pc(vm), 0);
    if hinted.0 is Err {
        hinted
    } else {
        match decode_current_instruction_spec(hinted.1) {
            Err(e) => (Err(e), hinted.1),
            Ok(instruction) => run_instruction_spec(hinted.1, instruction),
        }
    }
}

/// The value of a decoding result.
pub open spec fn instruction_result_view(r: Result<Instruction, VirtualMachineError>) -> Result<
    InstructionView,
    VmErrorView,
> {
    match r {
        Ok(instruction) => Ok(instruction@),
        Err(e) => Err(e@),
    }
}

impl VirtualMachine {
    /// The offset of `pc` from the start of the program.
    fn program_offset(&self) -> (r: Option<usize>)
        ensures
            r == program_offset_spec(self@),
    {
        match (&self.run_context.pc, self.program_base) {
            (MaybeRelocatable::RelocatableValue(pc), Some(base)) => {
                if pc.segment_index == base.segment_index && pc.offset >= base.offset {
                    Some(pc.offset - base.offset)
                } else {
                    None
                }
            },
            _ => None,
        }
    }

    /// The hint at place `index` of those under `offset`.
    fn hint_at(&self, offset: usize, index: usize) -> (r: Option<HintData>)
        ensures
            match r {
                Some(hint) => self@.hints.contains_key(offset) && index
                    < self@.hints[offset].len() && hint@ == self@.hints[offset][index as int]
                    && index < usize::MAX,
                None => !self@.hints.contains_key(offset) || index >= self@.hints[offset].len(),
            },
    {
        broadcast use vstd::std_specs::hash::group_hash_axioms;

        match self.hints.get(&offset) {
            Some(list) => {
                if index < list.len() {
                    Some(list[index].clone())
                } else {
                    None
                }
            },
            None => None,
        }
    }

    /// Runs the hints of the instruction at `pc`.
    fn run_hints(&mut self) -> (r: Result<(), VirtualMachineError>)
        requires
            old(self).wf(),
        ensures
            (vm_result_view(r), final(self)@) == run_hints_spec(
                old(self)@,
                hints_at_pc(old(self)@),
                0,
            ),
            final(self).wf(),
            final(self).run_context == old(self).run_context,
            final(self).trace == old(self).trace,
            final(self).program_base == old(self).program_base,
            final(self).hints == old(self).hints,
            final(self).builtin_runners == old(self).builtin_runners,
            final(self).prime == old(self).prime,
            final(self).references == old(self).references,
    {
        let offset = match self.program_offset() {
            Some(offset) => offset,
            None => {
                return Ok(());
            },
        };
        let ghost hints = hints_at_pc(old(self)@);
        let mut index: usize = 0;
        loop
            invariant
                self.wf(),
                self.run_context == old(self).run_context,
                self.trace == old(self).trace,
                self.program_base == old(self).program_base,
                self.hints == old(self).hints,
                self.builtin_runners == old(self).builtin_runners,
                self.prime == old(self).prime,
                self.references == old(self).references,
                program_offset_spec(old(self)@) == Some(offset),
                hints == hints_at_pc(old(self)@),
                index <= hints.len(),
                run_hints_spec(old(self)@, hints, 0) == run_hints_spec(self@, hints, index as int),
            decreases hints.len() - index,
        {
            let hint = match self.hint_at(offset, index) {
                Some(hint) => hint,
                None => {
                    return Ok(());
                },
            };
            match execute_hint(self, &hint) {
                Ok(()) => {},
                Err(e) => {
                    return Err(e);
                },
            }
            index += 1;
        }
    }

    /// Decodes the instruction at `pc`.
    pub fn decode_current_instruction(&self) -> (r: Result<Instruction, VirtualMachineError>)
        ensures
            instruction_result_view(r) == decode_current_instruction_spec(self@),
    {
        let pc = match &self.run_context.pc {
            MaybeRelocatable::RelocatableValue(pc) => *pc,
            MaybeRelocatable::Int(_) => {
                return Err(VirtualMachineError::InvalidInstructionEncoding);
            },
        };
        let word: i64 = match self.memory.get(&self.run_context.pc) {
            Ok(Some(MaybeRelocatable::Int(encoding))) => match encoding.to_i64() {
                Some(word) => word,
                None => {
                    return Err(VirtualMachineError::InvalidInstructionEncoding);
                },
            },
            _ => {
                return Err(VirtualMachineError::InvalidInstructionEncoding);
            },
        };
        let imm: Option<FieldInt> = if pc.offset < usize::MAX {
            let imm_addr = MaybeRelocatable::RelocatableValue(
                Relocatable { segment_index: pc.segment_index, offset: pc.offset + 1 },
            );
            match self.memory.get(&imm_addr) {
                Ok(Some(MaybeRelocatable::Int(imm))) => Some(imm.clone()),
                _ => None,
            }
        } else {
            None
        };
        if needs_immediate(word) && imm.is_none() {
            return Err(VirtualMachineError::InvalidInstructionEncoding);
        }
        decode_instruction(word, imm)
    }

    /// The registers as a trace entry.
    fn trace_entry(&self) -> (r: Result<TraceEntry, VirtualMachineError>)
        ensures
            match r {
                Ok(entry) => trace_entry_spec(self@.run_context) == Ok::<TraceEntry, VmErrorView>(
                    entry,
                ),
                Err(e) => trace_entry_spec(self@.run_context) == Err::<TraceEntry, VmErrorView>(
                    e@,
                ),
            },
    {
        match (&self.run_context.pc, &self.run_context.ap, &self.run_context.fp) {
            (
                MaybeRelocatable::RelocatableValue(pc),
                MaybeRelocatable::RelocatableValue(ap),
                MaybeRelocatable::RelocatableValue(fp),
            ) => Ok(TraceEntry { pc: *pc, ap: *ap, fp: *fp }),
            (MaybeRelocatable::Int(_), _, _) => Err(
                VirtualMachineError::ExpectedRelocatable(self.run_context.pc.clone()),
            ),
            (_, MaybeRelocatable::Int(_), _) => Err(
                VirtualMachineError::ExpectedRelocatable(self.run_context.ap.clone()),
            ),
            (_, _, MaybeRelocatable::Int(_)) => Err(
                VirtualMachineError::ExpectedRelocatable(self.run_context.fp.clone()),
            ),
        }
    }

    /// Runs `instruction` on the machine.
    pub fn run_instruction(&mut self, instruction: &Instruction) -> (r: Result<
        (),
        VirtualMachineError,
    >)
        requires
            old(self).wf(),
        ensures
            (vm_result_view(r), final(self)@) == run_instruction_spec(old(self)@, instruction@),
            final(self).wf(),
            final(self).program_base == old(self).program_base,
            final(self).hints == old(self).hints,
            final(self).builtin_runners == old(self).builtin_runners,
            final(self).prime == old(self).prime,
            final(self).references == old(self).references,
    {
        let entry = match self.trace_entry() {
            Ok(entry) => entry,
            Err(e) => {
                return Err(e);
            },
        };
        let operands = match self.compute_operands(instruction) {
            Ok(operands) => operands,
            Err(e) => {
                return Err(e);
            },
        };
        match self.opcode_assertions(instruction, &operands) {
            Ok(()) => {},
            Err(e) => {
                return Err(e);
            },
        }
        self.trace.push(entry);
        self.update_registers(instruction, &operands)
    }

    /// Runs the hints of the instruction at `pc`, and then the instruction.
    pub fn step(&mut self) -> (r: Result<(), VirtualMachineError>)
        requires
            old(self).wf(),
        ensures
            (vm_result_view(r), final(self)@) == step_spec(old(self)@),
            final(self).wf(),
            final(self).program_base == old(self).program_base,
            final(self).hints == old(self).hints,
            final(self).builtin_runners == old(self).builtin_runners,
            final(self).prime == old(self).prime,
            final(self).references == old(self).references,
    {
        match self.run_hints() {
            Ok(()) => {},
            Err(e) => {
                return Err(e);
            },
        }
        let instruction = match self.decode_current_instruction() {
            Ok(instruction) => instruction,
            Err(e) => {
                return Err(e);
            },
        };
        self.run_instruction(&instruction)
    }
}

/// What [`VirtualMachine::run_until_pc`] returns, and the machine that it
/// leaves: steps are made until `pc` is `address`, a step fails, or
/// `max_steps` steps were made. It returns whether `pc` reached `address`.
pub open spec fn run_until_pc_spec(vm: VirtualMachineView, address: Word, max_steps: nat) -> (
    Result<bool, VmErrorView>,
    VirtualMachineView,
)
    decreases max_steps,
{
    if vm.run_context.pc == address {
        (Ok(true), vm)
    } else if max_steps == 0 {
        (Ok(false), vm)
    } else {
        let stepped = step_spec(vm);
        match stepped.0 {
            Err(e) => (Err(e), stepped.1),
            Ok(()) => run_until_pc_spec(stepped.1, address, (max_steps - 1) as nat),
        }
    }
}

/// The machine after `steps` steps, as far as they all go well; the first
/// step that fails is the last one made.
pub open spec fn after_steps(vm: VirtualMachineView, steps: nat) -> VirtualMachineView
    decreases steps,
{
    if steps == 0 {
        vm
    } else {
        let before = after_steps(vm, (steps - 1) as nat);
        if steps_go_well(vm, (steps - 1) as nat) {
            step_spec(before).1
        } else {
            before
        }
    }
}

/// Whether the first `steps` steps of the machine all go well.
pub open spec fn steps_go_well(vm: VirtualMachineView, steps: nat) -> bool
    decreases steps,
{
    if steps == 0 {
        true
    } else {
        steps_go_well(vm, (steps - 1) as nat) && step_spec(
            after_steps(vm, (steps - 1) as nat),
        ).0 is Ok
    }
}

impl VirtualMachine {
    /// Makes steps until `pc` is `address`, but `max_steps` at most, and
    /// returns whether `pc` reached `address`.
    pub fn run_until_pc(&mut self, address: &MaybeRelocatable, max_steps: usize) -> (r: Result<
        bool,
        VirtualMachineError,
    >)
        requires
            old(self).wf(),
        ensures
            match r {
                Ok(reached) => run_until_pc_spec(old(self)@, address@, max_steps as nat) == (
                    Ok::<bool, VmErrorView>(reached),
                    final(self)@,
                ),
                Err(e) => run_until_pc_spec(old(self)@, address@, max_steps as nat) == (
                    Err::<bool, VmErrorView>(e@),
                    final(self)@,
                ),
            },
            final(self).wf(),
            final(self).program_base == old(self).program_base,
            final(self).hints == old(self).hints,
            final(self).builtin_runners == old(self).builtin_runners,
            final(self).prime == old(self).prime,
            final(self).references == old(self).references,
    {
        let mut remaining: usize = max_steps;
        loop
            invariant
                self.wf(),
                self.program_base == old(self).program_base,
                self.hints == old(self).hints,
                self.builtin_runners == old(self).builtin_runners,
                self.prime == old(self).prime,
                self.references == old(self).references,
                run_until_pc_spec(old(self)@, address@, max_steps as nat) == run_until_pc_spec(
                    self@,
                    address@,
                    remaining as nat,
                ),
            decreases remaining,
        {
            if self.run_context.pc.equals(address) {
                return Ok(true);
            }
            if remaining == 0 {
                return Ok(false);
            }
            match self.step() {
                Ok(()) => {},
                Err(e) => {
                    return Err(e);
                },
            }
            remaining -= 1;
        }
    }
}

/// A hint leaves the registers and the trace as they are.
pub proof fn lemma_hint_keeps_registers_and_trace(vm: VirtualMachineView, hint: HintDataView)
    ensures
        execute_hint_spec(vm, hint).1.run_context == vm.run_context,
        execute_hint_spec(vm, hint).1.trace == vm.trace,
{
}

/// The hints of an instruction leave the registers and the trace as they
/// are.
pub proof fn lemma_hints_keep_registers_and_trace(
    vm: VirtualMachineView,
    hints: Seq<HintDataView>,
    from: int,
)
    ensures
        run_hints_spec(vm, hints, from).1.run_context == vm.run_context,
        run_hints_spec(vm, hints, from).1.trace == vm.trace,
    decreases hints.len() - from,
{
    if 0 <= from < hints.len() {
        lemma_hint_keeps_registers_and_trace(vm, hints[from]);
        let done = execute_hint_spec(vm, hints[from]);
        if done.0 is Ok {
            lemma_hints_keep_registers_and_trace(done.1, hints, from + 1);
        }
    }
}

/// A step that goes well adds one entry to the trace: the registers as they
/// were before the step, so that its `pc` is the address at which the step
/// decoded its instruction.
pub proof fn lemma_step_records_registers(vm: VirtualMachineView)
    requires
        step_spec(vm).0 is Ok,
    ensures
        trace_entry_spec(vm.run_context) is Ok,
        step_spec(vm).1.trace == vm.trace.push(trace_entry_spec(vm.run_context)->Ok_0),
        vm.run_context.pc == Word::Addr(trace_entry_spec(vm.run_context)->Ok_0.pc),
{
    lemma_hints_keep_registers_and_trace(vm, hints_at_pc(vm), 0);
}

/// The trace of a run holds one entry for each step made: after `steps`
/// steps that went well it is longer by `steps`, and the entry of step `i`
/// holds the `pc` at which that step decoded its instruction.
pub proof fn lemma_trace_follows_steps(vm: VirtualMachineView, steps: nat)
    requires
        steps_go_well(vm, steps),
    ensures
        after_steps(vm, steps).trace.len() == vm.trace.len() + steps,
        after_steps(vm, steps).trace.take(vm.trace.len() as int) == vm.trace,
        forall|i: int|
            0 <= i < steps ==> Word::Addr(
                (#[trigger] after_steps(vm, steps).trace[vm.trace.len() + i]).pc,
            ) == after_steps(vm, i as nat).run_context.pc,
    decreases steps,
{
    if steps > 0 {
        let before = after_steps(vm, (steps - 1) as nat);
        lemma_trace_follows_steps(vm, (steps - 1) as nat);
        lemma_step_records_registers(before);
        let after = after_steps(vm, steps);
        assert(after.trace == before.trace.push(trace_entry_spec(before.run_context)->Ok_0));
        assert(after.trace.take(vm.trace.len() as int) =~= before.trace.take(
            vm.trace.len() as int,
        ));
        assert forall|i: int| 0 <= i < steps implies Word::Addr(
            (#[trigger] after.trace[vm.trace.len() + i]).pc,
        ) == after_steps(vm, i as nat).run_context.pc by {
            if i < steps - 1 {
                assert(after.trace[vm.trace.len() + i] == before.trace[vm.trace.len() + i]);
            }
        }
    } else {
        assert(vm.trace.take(vm.trace.len() as int) =~= vm.trace);
    }
}

/// What a step does is a function of the value of the machine: two machines
/// of one value are left with one value, and return the same.
pub proof fn lemma_step_is_deterministic(a: &VirtualMachine, b: &VirtualMachine)
    requires
        a@ == b@,
    ensures
        step_spec(a@) == step_spec(b@),
        forall|address: Word, max_steps: nat|
            run_until_pc_spec(a@, address, max_steps) == run_until_pc_spec(b@, address, max_steps),
{
}

} // verus!
