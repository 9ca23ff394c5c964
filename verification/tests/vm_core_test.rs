use cleopatra_cairo::math_utils::div_mod;
use cleopatra_cairo::types::field_int::FieldInt;
use cleopatra_cairo::types::instruction::{
    ApUpdate, FpUpdate, Instruction, Op1Addr, Opcode, PcUpdate, Register, Res,
};
use cleopatra_cairo::types::relocatable::{MaybeRelocatable, Relocatable};
use cleopatra_cairo::vm::context::run_context::RunContext;
use cleopatra_cairo::vm::errors::memory_errors::MemoryError;
use cleopatra_cairo::vm::errors::vm_errors::VirtualMachineError;
use cleopatra_cairo::vm::hints::execute_hint::{ApTracking, HintData, HintIds, HintReference};
use cleopatra_cairo::vm::hints::hint_utils::execute_hint;
use cleopatra_cairo::vm::runners::builtin_runner::{BuiltinRunner, RangeCheckBuiltinRunner};
use cleopatra_cairo::vm::trace::trace_entry::TraceEntry;
use cleopatra_cairo::vm::vm_core::{Operands, VirtualMachine};

fn big(v: i64) -> FieldInt {
    FieldInt::from_i64(v)
}

fn num(v: i64) -> MaybeRelocatable {
    MaybeRelocatable::Int(big(v))
}

fn addr(segment_index: usize, offset: usize) -> MaybeRelocatable {
    MaybeRelocatable::from((segment_index, offset))
}

/// 2^251 + 17 * 2^192 + 1
fn cairo_prime() -> FieldInt {
    big(1).shl(251).plus(&big(17).shl(192)).plus(&big(1))
}

fn field(v: i64) -> MaybeRelocatable {
    MaybeRelocatable::Int(big(v).mod_floor(&cairo_prime()))
}

/// A machine with `segments` segments, `pc` at (0, 0), and `ap` and `fp` in segment 1.
fn machine(segments: usize, ap: usize, fp: usize) -> VirtualMachine {
    let run_context = RunContext {
        pc: addr(0, 0),
        ap: addr(1, ap),
        fp: addr(1, fp),
    };
    let mut vm = VirtualMachine::new(cairo_prime(), Vec::new(), run_context);
    for _ in 0..segments {
        vm.segments.add(&mut vm.memory, None);
    }
    vm
}

fn instruction(
    offsets: (i64, i64, i64),
    imm: Option<i64>,
    registers: (Register, Register),
    op1_addr: Op1Addr,
    res: Res,
    updates: (PcUpdate, ApUpdate, FpUpdate),
    opcode: Opcode,
) -> Instruction {
    Instruction {
        off0: big(offsets.0),
        off1: big(offsets.1),
        off2: big(offsets.2),
        imm: imm.map(big),
        dst_register: registers.0,
        op0_register: registers.1,
        op1_addr,
        res,
        pc_update: updates.0,
        ap_update: updates.1,
        fp_update: updates.2,
        opcode,
    }
}

const REGULAR: (PcUpdate, ApUpdate, FpUpdate) =
    (PcUpdate::Regular, ApUpdate::Regular, FpUpdate::Regular);

fn load(vm: &mut VirtualMachine, segment: usize, values: Vec<MaybeRelocatable>) {
    vm.segments
        .load_data(&mut vm.memory, &addr(segment, 0), values)
        .unwrap();
}

// operand addresses

#[test]
fn operand_addresses_from_registers() {
    let vm = machine(2, 5, 3);
    let i = instruction(
        (-1, 2, -3),
        None,
        (Register::AP, Register::FP),
        Op1Addr::AP,
        Res::Add,
        REGULAR,
        Opcode::NOp,
    );
    assert_eq!(vm.run_context.compute_dst_addr(&i, &vm.prime), Ok(addr(1, 4)));
    assert_eq!(vm.run_context.compute_op0_addr(&i, &vm.prime), Ok(addr(1, 5)));
    assert_eq!(
        vm.run_context.compute_op1_addr(&i, None, &vm.prime),
        Ok(addr(1, 2))
    );
}

#[test]
fn operand_address_before_the_segment() {
    let vm = machine(2, 0, 0);
    let i = instruction(
        (-1, 0, 0),
        None,
        (Register::AP, Register::FP),
        Op1Addr::AP,
        Res::Add,
        REGULAR,
        Opcode::NOp,
    );
    assert_eq!(
        vm.run_context.compute_dst_addr(&i, &vm.prime),
        Err(VirtualMachineError::OffsetExceeded(cairo_prime().minus(&big(1))))
    );
}

#[test]
fn second_operand_address_by_kind() {
    let vm = machine(2, 5, 3);
    let mut i = instruction(
        (0, 0, 1),
        Some(7),
        (Register::AP, Register::FP),
        Op1Addr::Imm,
        Res::Op1,
        REGULAR,
        Opcode::NOp,
    );
    assert_eq!(
        vm.run_context.compute_op1_addr(&i, None, &vm.prime),
        Ok(addr(0, 1))
    );
    i.op1_addr = Op1Addr::FP;
    assert_eq!(
        vm.run_context.compute_op1_addr(&i, None, &vm.prime),
        Ok(addr(1, 4))
    );
    i.op1_addr = Op1Addr::Op0;
    assert_eq!(
        vm.run_context.compute_op1_addr(&i, Some(&addr(0, 8)), &vm.prime),
        Ok(addr(0, 9))
    );
    assert_eq!(
        vm.run_context.compute_op1_addr(&i, None, &vm.prime),
        Err(VirtualMachineError::UnknownOp0)
    );
    assert_eq!(
        vm.run_context.compute_op1_addr(&i, Some(&num(8)), &vm.prime),
        Err(VirtualMachineError::ExpectedRelocatable(num(8)))
    );
}

// arithmetic of memory values

#[test]
fn sums_of_memory_values() {
    let p = cairo_prime();
    assert_eq!(num(3).add_mod(&num(4), &p), Ok(num(7)));
    assert_eq!(field(-1).add_mod(&num(2), &p), Ok(num(1)));
    assert_eq!(addr(1, 3).add_mod(&num(4), &p), Ok(addr(1, 7)));
    assert_eq!(num(4).add_mod(&addr(1, 3), &p), Ok(addr(1, 7)));
    assert_eq!(addr(1, 3).add_mod(&field(-1), &p), Ok(addr(1, 2)));
    assert_eq!(
        addr(1, 3).add_mod(&addr(1, 3), &p),
        Err(VirtualMachineError::RelocatableAdd)
    );
    assert_eq!(
        addr(1, 3).add_mod(&field(-4), &p),
        Err(VirtualMachineError::OffsetExceeded(p.minus(&big(1))))
    );
    assert_eq!(addr(1, 3).add_int_mod(&big(-3), &p), Ok(addr(1, 0)));
    assert_eq!(num(3).add_int_mod(&big(-4), &p), Ok(field(-1)));
}

#[test]
fn differences_of_memory_values() {
    let p = cairo_prime();
    assert_eq!(num(3).sub(&num(4), &p), Ok(field(-1)));
    assert_eq!(addr(1, 7).sub(&addr(1, 3), &p), Ok(num(4)));
    assert_eq!(addr(1, 3).sub(&addr(1, 7), &p), Ok(field(-4)));
    assert_eq!(
        addr(1, 7).sub(&addr(2, 3), &p),
        Err(VirtualMachineError::DiffIndexSub)
    );
    assert_eq!(
        addr(1, 7).sub(&num(3), &p),
        Err(VirtualMachineError::NotImplemented)
    );
    assert_eq!(
        num(7).sub(&addr(1, 3), &p),
        Err(VirtualMachineError::NotImplemented)
    );
}

#[test]
fn products_of_memory_values() {
    let p = cairo_prime();
    assert_eq!(num(3).mul_mod(&num(4), &p), Ok(num(12)));
    assert_eq!(field(-1).mul_mod(&field(-1), &p), Ok(num(1)));
    assert_eq!(
        addr(1, 7).mul_mod(&num(3), &p),
        Err(VirtualMachineError::PureValue)
    );
    assert_eq!(
        num(3).mul_mod(&addr(1, 7), &p),
        Err(VirtualMachineError::PureValue)
    );
}

#[test]
fn inverses_and_quotients_in_a_field() {
    let m = big(383);
    assert_eq!(big(0).mod_inverse(&m), None);
    assert_eq!(big(1).mod_inverse(&m), Some(big(1)));
    assert_eq!(big(271).mod_inverse(&m), Some(big(106)));
    assert_eq!(big(-271).mod_inverse(&m), Some(big(277)));
    assert_eq!(big(4).mod_inverse(&big(8)), None);
    assert_eq!(div_mod(&big(12), &big(4), &big(383)), Some(big(3)));
    assert_eq!(div_mod(&big(1), &big(271), &big(383)), Some(big(106)));
    assert_eq!(div_mod(&big(1), &big(0), &big(383)), None);
    let p = cairo_prime();
    let q = div_mod(&big(7), &big(3), &p).unwrap();
    assert_eq!(q.times(&big(3)).mod_floor(&p), big(7));
}

// deductions

#[test]
fn deduce_op0_of_a_call() {
    let mut vm = machine(2, 5, 3);
    vm.run_context.pc = addr(0, 4);
    let i = instruction(
        (0, 1, 1),
        Some(5),
        (Register::AP, Register::AP),
        Op1Addr::Imm,
        Res::Op1,
        (PcUpdate::JumpRel, ApUpdate::Add2, FpUpdate::APPlus2),
        Opcode::Call,
    );
    assert_eq!(vm.deduce_op0(&i, None, None), Ok((Some(addr(0, 6)), None)));
}

#[test]
fn deduce_op0_of_an_assert_eq() {
    let vm = machine(2, 5, 3);
    let mut i = instruction(
        (0, 1, 1),
        None,
        (Register::AP, Register::AP),
        Op1Addr::AP,
        Res::Add,
        REGULAR,
        Opcode::AssertEq,
    );
    assert_eq!(
        vm.deduce_op0(&i, Some(&num(3)), Some(&num(2))),
        Ok((Some(num(1)), Some(num(3))))
    );
    assert_eq!(vm.deduce_op0(&i, None, Some(&num(2))), Ok((None, None)));
    assert_eq!(vm.deduce_op0(&i, Some(&num(3)), None), Ok((None, None)));
    assert_eq!(
        vm.deduce_op0(&i, Some(&addr(1, 3)), Some(&num(2))),
        Err(VirtualMachineError::NotImplemented)
    );
    i.res = Res::Mul;
    assert_eq!(
        vm.deduce_op0(&i, Some(&num(12)), Some(&num(4))),
        Ok((Some(num(3)), Some(num(12))))
    );
    assert_eq!(vm.deduce_op0(&i, Some(&num(12)), Some(&num(0))), Ok((None, None)));
    assert_eq!(
        vm.deduce_op0(&i, Some(&addr(1, 3)), Some(&num(4))),
        Ok((None, None))
    );
    i.res = Res::Op1;
    assert_eq!(vm.deduce_op0(&i, Some(&num(12)), Some(&num(4))), Ok((None, None)));
    i.opcode = Opcode::Ret;
    i.res = Res::Add;
    assert_eq!(vm.deduce_op0(&i, Some(&num(12)), Some(&num(4))), Ok((None, None)));
}

#[test]
fn deduce_op1_of_an_assert_eq() {
    let vm = machine(2, 5, 3);
    let mut i = instruction(
        (0, 1, 1),
        None,
        (Register::AP, Register::AP),
        Op1Addr::AP,
        Res::Op1,
        REGULAR,
        Opcode::AssertEq,
    );
    assert_eq!(
        vm.deduce_op1(&i, Some(&num(7)), None),
        Ok((Some(num(7)), Some(num(7))))
    );
    assert_eq!(vm.deduce_op1(&i, None, Some(&num(7))), Ok((None, None)));
    i.res = Res::Add;
    assert_eq!(
        vm.deduce_op1(&i, Some(&num(7)), Some(&num(9))),
        Ok((Some(field(-2)), Some(num(7))))
    );
    i.res = Res::Mul;
    assert_eq!(
        vm.deduce_op1(&i, Some(&num(12)), Some(&num(3))),
        Ok((Some(num(4)), Some(num(12))))
    );
    i.opcode = Opcode::Call;
    assert_eq!(vm.deduce_op1(&i, Some(&num(12)), Some(&num(3))), Ok((None, None)));
}

#[test]
fn compute_res_by_kind() {
    let vm = machine(2, 5, 3);
    let mut i = instruction(
        (0, 1, 1),
        None,
        (Register::AP, Register::AP),
        Op1Addr::AP,
        Res::Op1,
        REGULAR,
        Opcode::NOp,
    );
    assert_eq!(vm.compute_res(&i, &num(3), &num(4)), Ok(Some(num(4))));
    i.res = Res::Add;
    assert_eq!(vm.compute_res(&i, &num(3), &num(4)), Ok(Some(num(7))));
    assert_eq!(vm.compute_res(&i, &addr(1, 3), &num(4)), Ok(Some(addr(1, 7))));
    assert_eq!(
        vm.compute_res(&i, &addr(1, 3), &addr(1, 4)),
        Err(VirtualMachineError::RelocatableAdd)
    );
    i.res = Res::Mul;
    assert_eq!(vm.compute_res(&i, &num(3), &num(4)), Ok(Some(num(12))));
    assert_eq!(
        vm.compute_res(&i, &addr(1, 3), &num(4)),
        Err(VirtualMachineError::PureValue)
    );
    i.res = Res::Unconstrained;
    assert_eq!(vm.compute_res(&i, &num(3), &num(4)), Ok(None));
}

#[test]
fn deduce_dst_by_opcode() {
    let vm = machine(2, 5, 3);
    let mut i = instruction(
        (0, 1, 1),
        None,
        (Register::AP, Register::AP),
        Op1Addr::AP,
        Res::Op1,
        REGULAR,
        Opcode::AssertEq,
    );
    assert_eq!(vm.deduce_dst(&i, Some(&num(3))), Some(num(3)));
    assert_eq!(vm.deduce_dst(&i, None), None);
    i.opcode = Opcode::Call;
    assert_eq!(vm.deduce_dst(&i, None), Some(addr(1, 3)));
    i.opcode = Opcode::Ret;
    assert_eq!(vm.deduce_dst(&i, Some(&num(3))), None);
}

// compute_operands

#[test]
fn operands_that_memory_holds() {
    let mut vm = machine(2, 3, 0);
    load(&mut vm, 1, vec![num(5), num(2), num(3)]);
    let i = instruction(
        (0, 1, 2),
        None,
        (Register::FP, Register::FP),
        Op1Addr::FP,
        Res::Add,
        REGULAR,
        Opcode::AssertEq,
    );
    assert_eq!(
        vm.compute_operands(&i),
        Ok(Operands {
            dst: num(5),
            res: Some(num(5)),
            op0: num(2),
            op1: num(3),
        })
    );
}

#[test]
fn operands_with_a_deduced_destination() {
    let mut vm = machine(2, 3, 0);
    load(&mut vm, 1, vec![num(2), num(3)]);
    let i = instruction(
        (0, 0, 1),
        None,
        (Register::AP, Register::FP),
        Op1Addr::FP,
        Res::Mul,
        REGULAR,
        Opcode::AssertEq,
    );
    assert_eq!(
        vm.compute_operands(&i),
        Ok(Operands {
            dst: num(6),
            res: Some(num(6)),
            op0: num(2),
            op1: num(3),
        })
    );
    assert_eq!(vm.memory.get(&addr(1, 3)), Ok(Some(&num(6))));
}

#[test]
fn operands_with_a_deduced_operand() {
    let mut vm = machine(2, 3, 0);
    load(&mut vm, 1, vec![num(10), num(3)]);
    // [fp] = [ap] + [fp + 1]
    let i = instruction(
        (0, 0, 1),
        None,
        (Register::FP, Register::AP),
        Op1Addr::FP,
        Res::Add,
        REGULAR,
        Opcode::AssertEq,
    );
    assert_eq!(
        vm.compute_operands(&i),
        Ok(Operands {
            dst: num(10),
            res: Some(num(10)),
            op0: num(7),
            op1: num(3),
        })
    );
    assert_eq!(vm.memory.get(&addr(1, 3)), Ok(Some(&num(7))));
}

#[test]
fn operands_that_cannot_be_known() {
    let mut vm = machine(2, 3, 0);
    load(&mut vm, 1, vec![num(10)]);
    let i = instruction(
        (0, 0, 1),
        None,
        (Register::FP, Register::AP),
        Op1Addr::AP,
        Res::Add,
        REGULAR,
        Opcode::AssertEq,
    );
    assert_eq!(
        vm.compute_operands(&i),
        Err(VirtualMachineError::MemoryGet(addr(1, 3)))
    );
    let nop = instruction(
        (1, 0, 0),
        None,
        (Register::AP, Register::FP),
        Op1Addr::FP,
        Res::Add,
        REGULAR,
        Opcode::NOp,
    );
    assert_eq!(
        vm.compute_operands(&nop),
        Err(VirtualMachineError::MemoryGet(addr(1, 4)))
    );
    assert_eq!(vm.memory.data[1].len(), 1);
}

// opcode assertions

#[test]
fn assert_eq_of_differing_values() {
    let vm = machine(2, 3, 0);
    let i = instruction(
        (0, 0, 1),
        None,
        (Register::FP, Register::AP),
        Op1Addr::AP,
        Res::Add,
        REGULAR,
        Opcode::AssertEq,
    );
    let mut operands = Operands {
        dst: num(8),
        res: Some(num(7)),
        op0: num(3),
        op1: num(4),
    };
    assert_eq!(
        vm.opcode_assertions(&i, &operands),
        Err(VirtualMachineError::DiffAssertValues(num(7), num(8)))
    );
    operands.res = None;
    assert_eq!(
        vm.opcode_assertions(&i, &operands),
        Err(VirtualMachineError::UnconstrainedResAssertEq)
    );
    operands.res = Some(num(8));
    assert_eq!(vm.opcode_assertions(&i, &operands), Ok(()));
}

#[test]
fn call_with_wrong_return_values() {
    let mut vm = machine(2, 3, 1);
    vm.run_context.pc = addr(0, 4);
    let i = instruction(
        (0, 1, 1),
        Some(5),
        (Register::AP, Register::AP),
        Op1Addr::Imm,
        Res::Op1,
        (PcUpdate::JumpRel, ApUpdate::Add2, FpUpdate::APPlus2),
        Opcode::Call,
    );
    let mut operands = Operands {
        dst: addr(1, 1),
        res: Some(num(5)),
        op0: addr(0, 5),
        op1: num(5),
    };
    assert_eq!(
        vm.opcode_assertions(&i, &operands),
        Err(VirtualMachineError::CantWriteReturnPc(addr(0, 5), addr(0, 6)))
    );
    operands.op0 = addr(0, 6);
    operands.dst = addr(1, 2);
    assert_eq!(
        vm.opcode_assertions(&i, &operands),
        Err(VirtualMachineError::CantWriteReturnFp(addr(1, 2), addr(1, 1)))
    );
    operands.dst = addr(1, 1);
    assert_eq!(vm.opcode_assertions(&i, &operands), Ok(()));
}

// register updates

fn operands(dst: MaybeRelocatable, res: Option<MaybeRelocatable>, op1: MaybeRelocatable) -> Operands {
    Operands {
        dst,
        res,
        op0: num(0),
        op1,
    }
}

#[test]
fn update_pc_by_kind() {
    let mut i = instruction(
        (0, 0, 1),
        Some(3),
        (Register::FP, Register::AP),
        Op1Addr::Imm,
        Res::Op1,
        REGULAR,
        Opcode::NOp,
    );
    let mut vm = machine(2, 3, 1);
    vm.update_registers(&i, &operands(num(1), Some(num(3)), num(3))).unwrap();
    assert_eq!(vm.run_context.pc, addr(0, 2));
    i.imm = None;
    vm.update_registers(&i, &operands(num(1), Some(num(3)), num(3))).unwrap();
    assert_eq!(vm.run_context.pc, addr(0, 3));
    i.pc_update = PcUpdate::Jump;
    vm.update_registers(&i, &operands(num(1), Some(addr(0, 9)), num(3))).unwrap();
    assert_eq!(vm.run_context.pc, addr(0, 9));
    assert_eq!(
        vm.update_registers(&i, &operands(num(1), Some(num(9)), num(3))),
        Err(VirtualMachineError::ExpectedRelocatable(num(9)))
    );
    assert_eq!(
        vm.update_registers(&i, &operands(num(1), None, num(3))),
        Err(VirtualMachineError::UnconstrainedResJump)
    );
    i.pc_update = PcUpdate::JumpRel;
    vm.update_registers(&i, &operands(num(1), Some(field(-4)), num(3))).unwrap();
    assert_eq!(vm.run_context.pc, addr(0, 5));
    assert_eq!(
        vm.update_registers(&i, &operands(num(1), Some(addr(0, 1)), num(3))),
        Err(VirtualMachineError::PureValue)
    );
    assert_eq!(
        vm.update_registers(&i, &operands(num(1), None, num(3))),
        Err(VirtualMachineError::UnconstrainedResJumpRel)
    );
    i.pc_update = PcUpdate::Jnz;
    vm.update_registers(&i, &operands(num(0), None, num(3))).unwrap();
    assert_eq!(vm.run_context.pc, addr(0, 6));
    vm.update_registers(&i, &operands(num(1), None, num(3))).unwrap();
    assert_eq!(vm.run_context.pc, addr(0, 9));
    vm.update_registers(&i, &operands(addr(1, 0), None, num(3))).unwrap();
    assert_eq!(vm.run_context.pc, addr(0, 12));
    assert_eq!(
        vm.update_registers(&i, &operands(num(1), None, addr(0, 0))),
        Err(VirtualMachineError::PureValue)
    );
    assert_eq!(vm.run_context.pc, addr(0, 12));
}

#[test]
fn update_ap_by_kind() {
    let mut i = instruction(
        (0, 0, 1),
        None,
        (Register::FP, Register::AP),
        Op1Addr::AP,
        Res::Op1,
        REGULAR,
        Opcode::NOp,
    );
    let mut vm = machine(2, 3, 1);
    vm.update_registers(&i, &operands(num(1), Some(num(3)), num(3))).unwrap();
    assert_eq!(vm.run_context.ap, addr(1, 3));
    i.ap_update = ApUpdate::Add;
    vm.update_registers(&i, &operands(num(1), Some(num(3)), num(3))).unwrap();
    assert_eq!(vm.run_context.ap, addr(1, 6));
    assert_eq!(
        vm.update_registers(&i, &operands(num(1), None, num(3))),
        Err(VirtualMachineError::UnconstrainedResAdd)
    );
    assert_eq!(
        vm.update_registers(&i, &operands(num(1), Some(addr(1, 1)), num(3))),
        Err(VirtualMachineError::PureValue)
    );
    i.ap_update = ApUpdate::Add1;
    vm.update_registers(&i, &operands(num(1), None, num(3))).unwrap();
    assert_eq!(vm.run_context.ap, addr(1, 7));
    i.ap_update = ApUpdate::Add2;
    vm.update_registers(&i, &operands(num(1), None, num(3))).unwrap();
    assert_eq!(vm.run_context.ap, addr(1, 9));
}

#[test]
fn update_fp_by_kind() {
    let mut i = instruction(
        (0, 0, 1),
        None,
        (Register::FP, Register::AP),
        Op1Addr::AP,
        Res::Op1,
        REGULAR,
        Opcode::NOp,
    );
    let mut vm = machine(2, 3, 1);
    vm.update_registers(&i, &operands(num(1), Some(num(3)), num(3))).unwrap();
    assert_eq!(vm.run_context.fp, addr(1, 1));
    i.fp_update = FpUpdate::APPlus2;
    vm.update_registers(&i, &operands(num(1), Some(num(3)), num(3))).unwrap();
    assert_eq!(vm.run_context.fp, addr(1, 5));
    i.fp_update = FpUpdate::Dst;
    vm.update_registers(&i, &operands(addr(1, 9), Some(num(3)), num(3))).unwrap();
    assert_eq!(vm.run_context.fp, addr(1, 9));
    assert_eq!(
        vm.update_registers(&i, &operands(num(9), Some(num(3)), num(3))),
        Err(VirtualMachineError::ExpectedRelocatable(num(9)))
    );
    assert_eq!(vm.run_context.fp, addr(1, 9));
    assert_eq!(vm.run_context.pc, addr(0, 3));
}

// decoding at pc

#[test]
fn decode_at_pc() {
    let mut vm = machine(2, 0, 0);
    load(
        &mut vm,
        0,
        vec![num(0x480680017fff8000), num(7), num(0x208b7fff7fff7ffe)],
    );
    let first = vm.decode_current_instruction().unwrap();
    assert_eq!(first.imm, Some(big(7)));
    assert_eq!(first.opcode, Opcode::AssertEq);
    vm.run_context.pc = addr(0, 2);
    let second = vm.decode_current_instruction().unwrap();
    assert_eq!(second.imm, None);
    assert_eq!(second.opcode, Opcode::Ret);
}

#[test]
fn decode_at_a_pc_without_instruction() {
    let mut vm = machine(2, 0, 0);
    load(
        &mut vm,
        0,
        vec![
            addr(1, 0),
            MaybeRelocatable::Int(big(1).shl(64)),
            num(0x480680017fff8000),
        ],
    );
    for pc in [addr(0, 0), addr(0, 1), addr(0, 2), addr(0, 3), addr(5, 0), num(0)] {
        vm.run_context.pc = pc;
        assert_eq!(
            vm.decode_current_instruction(),
            Err(VirtualMachineError::InvalidInstructionEncoding)
        );
    }
}

#[test]
fn decode_at_pc_reports_invalid_flags() {
    let mut vm = machine(2, 0, 0);
    load(&mut vm, 0, vec![num(0x294F800080008000)]);
    assert_eq!(
        vm.decode_current_instruction(),
        Err(VirtualMachineError::InvalidOp1Reg(3))
    );
}

// steps

#[test]
fn step_writes_and_records_and_moves_on() {
    let mut vm = machine(2, 1, 1);
    // [ap] = 7; ap++
    load(&mut vm, 0, vec![num(0x480680017fff8000), num(7)]);
    load(&mut vm, 1, vec![num(0)]);
    assert_eq!(vm.step(), Ok(()));
    assert_eq!(vm.memory.get(&addr(1, 1)), Ok(Some(&num(7))));
    assert_eq!(
        vm.trace,
        vec![TraceEntry {
            pc: Relocatable::from((0, 0)),
            ap: Relocatable::from((1, 1)),
            fp: Relocatable::from((1, 1)),
        }]
    );
    assert_eq!(vm.run_context.pc, addr(0, 2));
    assert_eq!(vm.run_context.ap, addr(1, 2));
    assert_eq!(vm.run_context.fp, addr(1, 1));
}

#[test]
fn step_with_an_operand_before_its_segment() {
    let mut vm = machine(2, 0, 0);
    // [ap] = 7; ap++ reads its first operand at fp - 1
    load(&mut vm, 0, vec![num(0x480680017fff8000), num(7)]);
    assert_eq!(
        vm.step(),
        Err(VirtualMachineError::OffsetExceeded(cairo_prime().minus(&big(1))))
    );
    assert_eq!(vm.trace.len(), 0);
}

#[test]
fn step_that_fails_an_assertion_records_nothing() {
    let mut vm = machine(2, 1, 1);
    // [ap - 1] = 144
    load(&mut vm, 0, vec![num(0x400680017fff7fff), num(144)]);
    load(&mut vm, 1, vec![num(143)]);
    assert_eq!(
        vm.step(),
        Err(VirtualMachineError::DiffAssertValues(num(144), num(143)))
    );
    assert_eq!(vm.trace, vec![]);
    assert_eq!(vm.run_context.pc, addr(0, 0));
}

#[test]
fn step_that_fails_to_move_on_keeps_its_record() {
    let mut vm = machine(2, 2, 2);
    // ret, with an integer where the frame to return to should be
    load(&mut vm, 0, vec![num(0x208b7fff7fff7ffe)]);
    load(&mut vm, 1, vec![num(5), addr(0, 7)]);
    assert_eq!(
        vm.step(),
        Err(VirtualMachineError::ExpectedRelocatable(num(5)))
    );
    assert_eq!(vm.trace.len(), 1);
    assert_eq!(vm.run_context.pc, addr(0, 0));
    assert_eq!(vm.run_context.fp, addr(1, 2));
}

#[test]
fn step_with_a_register_that_is_no_address() {
    let mut vm = machine(2, 0, 0);
    load(&mut vm, 0, vec![num(0x480680017fff8000), num(7)]);
    vm.run_context.fp = num(0);
    assert_eq!(
        vm.step(),
        Err(VirtualMachineError::ExpectedRelocatable(num(0)))
    );
    assert_eq!(vm.memory.get(&addr(1, 0)), Ok(None));
}

#[test]
fn step_into_a_taken_cell() {
    let mut vm = machine(2, 1, 1);
    load(&mut vm, 0, vec![num(0x480680017fff8000), num(7)]);
    load(&mut vm, 1, vec![num(0), num(8)]);
    assert_eq!(
        vm.step(),
        Err(VirtualMachineError::DiffAssertValues(num(7), num(8)))
    );
}

// hints in steps

fn hint(code: &str, names: &[&str]) -> HintData {
    let mut ids = HintIds::new();
    for (i, name) in names.iter().enumerate() {
        ids.insert(String::from(*name), big(i as i64));
    }
    HintData {
        hint_code: String::from(code),
        ids,
        ap_tracking_data: ApTracking { group: 0, offset: 0 },
    }
}

fn reference_by_fp(offset: i32) -> HintReference {
    HintReference {
        register: Register::FP,
        offset1: offset,
        offset2: 0,
        inner_dereference: false,
        ap_tracking_data: None,
    }
}

#[test]
fn step_runs_the_hints_of_its_pc_first() {
    let mut vm = machine(2, 1, 1);
    vm.builtin_runners.push((
        String::from("range_check"),
        BuiltinRunner::RangeCheck(RangeCheckBuiltinRunner::new(big(1).shl(128))),
    ));
    vm.program_base = Some(Relocatable::from((0, 0)));
    // [ap] = 0; ap++   -- the hint has written that 0 already
    load(&mut vm, 0, vec![num(0x480680017fff8000), num(0)]);
    load(&mut vm, 1, vec![num(5)]);
    vm.references.insert(0, reference_by_fp(-1));
    vm.hints.insert(0, vec![hint("is_nn", &["a"])]);
    assert_eq!(vm.step(), Ok(()));
    assert_eq!(vm.memory.get(&addr(1, 1)), Ok(Some(&num(0))));
    assert_eq!(vm.trace.len(), 1);
}

#[test]
fn step_stops_at_a_hint_that_fails() {
    let mut vm = machine(2, 1, 0);
    vm.program_base = Some(Relocatable::from((0, 0)));
    load(&mut vm, 0, vec![num(0x480680017fff8000), num(0)]);
    load(&mut vm, 1, vec![num(0)]);
    vm.references.insert(0, reference_by_fp(0));
    vm.hints.insert(
        0,
        vec![hint("assert_not_zero", &["value"]), hint("add_segment", &[])],
    );
    assert_eq!(
        vm.step(),
        Err(VirtualMachineError::AssertNotZero(big(0), cairo_prime()))
    );
    assert_eq!(vm.segments.num_segments, 2);
    assert_eq!(vm.trace.len(), 0);
}

#[test]
fn hints_are_found_by_the_offset_from_the_program_base() {
    let mut vm = machine(2, 1, 1);
    load(&mut vm, 1, vec![num(0)]);
    vm.program_base = Some(Relocatable::from((0, 2)));
    load(
        &mut vm,
        0,
        vec![num(0), num(0), num(0x480680017fff8000), num(0)],
    );
    vm.run_context.pc = addr(0, 2);
    vm.hints.insert(0, vec![hint("add_segment", &[])]);
    assert_eq!(
        vm.step(),
        Err(VirtualMachineError::DiffAssertValues(num(0), addr(2, 0)))
    );
    assert_eq!(vm.segments.num_segments, 3);
}

#[test]
fn execute_hint_by_name() {
    let mut vm = machine(2, 1, 0);
    assert_eq!(execute_hint(&mut vm, &hint("add_segment", &[])), Ok(()));
    assert_eq!(vm.memory.get(&addr(1, 1)), Ok(Some(&addr(2, 0))));
    assert_eq!(
        execute_hint(&mut vm, &hint("segments.add()", &[])),
        Err(VirtualMachineError::UnknownHint(String::from("segments.add()")))
    );
}

#[test]
fn execute_hint_split_int_with_base_zero() {
    let mut vm = machine(2, 6, 0);
    for i in 0..4 {
        vm.references.insert(i, reference_by_fp(i as i32));
    }
    load(&mut vm, 1, vec![addr(0, 0), num(0x1234), num(0), num(0xFF)]);
    assert_eq!(
        execute_hint(&mut vm, &hint("split_int", &["output", "value", "base", "bound"])),
        Err(VirtualMachineError::DividedByZero)
    );
}

#[test]
fn execute_hint_add_segment_at_the_limit() {
    let mut vm = machine(2, 1, 0);
    vm.segments.num_segments = usize::MAX;
    assert_eq!(
        execute_hint(&mut vm, &hint("add_segment", &[])),
        Err(VirtualMachineError::TooManySegments)
    );
}

#[test]
fn execute_hint_reaches_every_hint() {
    let names = [
        "is_nn",
        "is_nn_out_of_range",
        "assert_le_felt",
        "is_le_felt",
        "assert_not_equal",
        "assert_nn",
        "assert_not_zero",
        "split_int_assert_range",
        "split_int",
        "is_positive",
        "split_felt",
        "sqrt",
        "unsigned_div_rem",
        "signed_div_rem",
        "assert_250_bit",
        "assert_lt_felt",
    ];
    for name in names {
        let mut vm = machine(2, 1, 0);
        match execute_hint(&mut vm, &hint(name, &[])) {
            Err(VirtualMachineError::IncorrectIds(_, given)) => assert!(given.is_empty()),
            other => panic!("{}: {:?}", name, other),
        }
    }
}

// a whole program

/// fib(first, second, n): the program calls it with 1, 0 and 10, and asserts that it returns 55.
fn fibonacci() -> Vec<MaybeRelocatable> {
    let p = cairo_prime();
    vec![
        num(0x480680017fff8000),
        num(1),
        num(0x480680017fff8000),
        num(0),
        num(0x480680017fff8000),
        num(10),
        num(0x1104800180018000),
        num(5),
        num(0x400680017fff7fff),
        num(55),
        num(0x208b7fff7fff7ffe),
        num(0x20780017fff7ffd),
        num(5),
        num(0x480a7ffc7fff8000),
        num(0x480a7ffc7fff8000),
        num(0x208b7fff7fff7ffe),
        num(0x482a7ffc7ffb8000),
        num(0x480a7ffc7fff8000),
        num(0x48127ffe7fff8000),
        num(0x482680017ffd8000),
        MaybeRelocatable::Int(p.minus(&big(1))),
        num(0x1104800180018000),
        MaybeRelocatable::Int(p.minus(&big(10))),
        num(0x208b7fff7fff7ffe),
    ]
}

/// The program in segment 0, the stack in segment 1 with the frame and the `pc` to return to,
/// which are the starts of segments 2 and 3.
fn fibonacci_machine() -> VirtualMachine {
    let mut vm = machine(4, 2, 2);
    load(&mut vm, 0, fibonacci());
    load(&mut vm, 1, vec![addr(2, 0), addr(3, 0)]);
    vm
}

#[test]
fn fibonacci_runs_to_its_end() {
    let mut vm = fibonacci_machine();
    assert_eq!(vm.run_until_pc(&addr(3, 0), 1000), Ok(true));
    // the value that main left on the stack before it returned
    let ap = match &vm.run_context.ap {
        MaybeRelocatable::RelocatableValue(ap) => *ap,
        other => panic!("{:?}", other),
    };
    assert_eq!(vm.memory.get(&addr(1, ap.offset - 1)), Ok(Some(&num(55))));
    assert_eq!(vm.run_context.fp, addr(2, 0));
    // 3 stores and a call; 10 rounds of 7 steps; the last round of 4; the assertion and the return
    assert_eq!(vm.trace.len(), 4 + 10 * 7 + 4 + 2);
    assert_eq!(vm.trace[0].pc, Relocatable::from((0, 0)));
    assert_eq!(vm.trace[3].pc, Relocatable::from((0, 6)));
    assert_eq!(vm.trace[4].pc, Relocatable::from((0, 11)));
    assert_eq!(vm.trace[vm.trace.len() - 1].pc, Relocatable::from((0, 10)));
}

#[test]
fn fibonacci_with_a_budget_that_is_too_small() {
    let mut vm = fibonacci_machine();
    assert_eq!(vm.run_until_pc(&addr(3, 0), 10), Ok(false));
    assert_eq!(vm.trace.len(), 10);
    assert_eq!(vm.run_until_pc(&addr(3, 0), 1000), Ok(true));
    assert_eq!(vm.trace.len(), 80);
}

#[test]
fn fibonacci_with_a_wrong_expectation() {
    let mut vm = machine(4, 2, 2);
    let mut program = fibonacci();
    program[9] = num(56);
    load(&mut vm, 0, program);
    load(&mut vm, 1, vec![addr(2, 0), addr(3, 0)]);
    assert_eq!(
        vm.run_until_pc(&addr(3, 0), 1000),
        Err(VirtualMachineError::DiffAssertValues(num(56), num(55)))
    );
}

#[test]
fn trace_holds_the_pc_of_each_step() {
    let mut vm = fibonacci_machine();
    let mut steps = 0;
    while vm.run_context.pc != addr(3, 0) {
        let pc = vm.run_context.pc.clone();
        let ap = vm.run_context.ap.clone();
        let fp = vm.run_context.fp.clone();
        vm.step().unwrap();
        steps += 1;
        assert_eq!(vm.trace.len(), steps);
        let entry = vm.trace[steps - 1];
        assert_eq!(MaybeRelocatable::from(entry.pc), pc);
        assert_eq!(MaybeRelocatable::from(entry.ap), ap);
        assert_eq!(MaybeRelocatable::from(entry.fp), fp);
    }
    assert_eq!(steps, 80);
}

#[test]
fn two_runs_of_a_program_agree() {
    let mut one = fibonacci_machine();
    let mut other = fibonacci_machine();
    assert_eq!(
        one.run_until_pc(&addr(3, 0), 1000),
        other.run_until_pc(&addr(3, 0), 1000)
    );
    assert_eq!(one.trace, other.trace);
    assert_eq!(one.memory.data, other.memory.data);
    assert_eq!(one.run_context.pc, other.run_context.pc);
}

#[test]
fn run_until_a_pc_that_is_reached_at_once() {
    let mut vm = fibonacci_machine();
    assert_eq!(vm.run_until_pc(&addr(0, 0), 0), Ok(true));
    assert_eq!(vm.trace.len(), 0);
}

#[test]
fn run_into_a_memory_error() {
    let mut vm = machine(2, 1, 1);
    // [ap] = 7; ap++ with ap in a segment that is not there
    load(&mut vm, 0, vec![num(0x480680017fff8000), num(7)]);
    load(&mut vm, 1, vec![num(0)]);
    vm.run_context.ap = addr(4, 0);
    assert_eq!(
        vm.run_until_pc(&addr(0, 2), 10),
        Err(VirtualMachineError::MemoryError(
            MemoryError::UnallocatedSegment(4, 2)
        ))
    );
}
