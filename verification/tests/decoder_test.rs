use cleopatra_cairo::types::field_int::FieldInt;
use cleopatra_cairo::types::instruction;
use cleopatra_cairo::vm::decoding::decoder::{decode_instruction, decode_offset};
use cleopatra_cairo::vm::errors::vm_errors::VirtualMachineError;

#[test]
fn invalid_op1_reg() {
    let error = decode_instruction(0x294F800080008000, None);
    assert_eq!(error, Err(VirtualMachineError::InvalidOp1Reg(3)));
    assert_eq!(
        error.unwrap_err().to_string(),
        "Invalid op1_register value: 3"
    )
}

#[test]
fn invalid_pc_update() {
    let error = decode_instruction(0x29A8800080008000, None);
    assert_eq!(error, Err(VirtualMachineError::InvalidPcUpdate(3)));
    assert_eq!(error.unwrap_err().to_string(), "Invalid pc_update value: 3")
}

#[test]
fn invalid_res_logic() {
    let error = decode_instruction(0x2968800080008000, None);
    assert_eq!(error, Err(VirtualMachineError::InvalidRes(3)));
    assert_eq!(error.unwrap_err().to_string(), "Invalid res value: 3")
}

#[test]
fn invalid_opcode() {
    let error = decode_instruction(0x3948800080008000, None);
    assert_eq!(error, Err(VirtualMachineError::InvalidOpcode(3)));
    assert_eq!(error.unwrap_err().to_string(), "Invalid opcode value: 3")
}

#[test]
fn invalid_ap_update() {
    let error = decode_instruction(0x2D48800080008000, None);
    assert_eq!(error, Err(VirtualMachineError::InvalidApUpdate(3)));
    assert_eq!(error.unwrap_err().to_string(), "Invalid ap_update value: 3")
}

#[test]
fn decode_flags_call_add_jmp_add_imm_fp_fp() {
    //  0|  opcode|ap_update|pc_update|res_logic|op1_src|op0_reg|dst_reg
    // 15|14 13 12|    11 10|  9  8  7|     6  5|4  3  2|      1|      0
    //   |    CALL|      ADD|     JUMP|      ADD|    IMM|     FP|     FP
    //  0  0  0  1      0  1   0  0  1      0  1 0  0  1       1       1
    //  0001 0100 1010 0111 = 0x14A7; offx = 0
    let inst = decode_instruction(0x14A7800080008000, Some(FieldInt::from_i64(7))).unwrap();
    assert_eq!(matches!(inst.dst_register, instruction::Register::FP), true);
    assert_eq!(matches!(inst.op0_register, instruction::Register::FP), true);
    assert_eq!(matches!(inst.op1_addr, instruction::Op1Addr::Imm), true);
    assert_eq!(matches!(inst.res, instruction::Res::Add), true);
    assert_eq!(matches!(inst.pc_update, instruction::PcUpdate::Jump), true);
    assert_eq!(matches!(inst.ap_update, instruction::ApUpdate::Add), true);
    assert_eq!(matches!(inst.opcode, instruction::Opcode::Call), true);
    assert_eq!(
        matches!(inst.fp_update, instruction::FpUpdate::APPlus2),
        true
    );
}

#[test]
fn decode_flags_ret_add1_jmp_rel_mul_fp_ap_ap() {
    //  0|  opcode|ap_update|pc_update|res_logic|op1_src|op0_reg|dst_reg
    // 15|14 13 12|    11 10|  9  8  7|     6  5|4  3  2|      1|      0
    //   |     RET|     ADD1| JUMP_REL|      MUL|     FP|     AP|     AP
    //  0  0  1  0      1  0   0  1  0      1  0 0  1  0       0       0
    //  0010 1001 0100 1000 = 0x2948; offx = 0
    let inst = decode_instruction(0x2948800080008000, None).unwrap();
    assert_eq!(matches!(inst.dst_register, instruction::Register::AP), true);
    assert_eq!(matches!(inst.op0_register, instruction::Register::AP), true);
    assert_eq!(matches!(inst.op1_addr, instruction::Op1Addr::FP), true);
    assert_eq!(matches!(inst.res, instruction::Res::Mul), true);
    assert_eq!(
        matches!(inst.pc_update, instruction::PcUpdate::JumpRel),
        true
    );
    assert_eq!(matches!(inst.ap_update, instruction::ApUpdate::Add1), true);
    assert_eq!(matches!(inst.opcode, instruction::Opcode::Ret), true);
    assert_eq!(matches!(inst.fp_update, instruction::FpUpdate::Dst), true);
}

#[test]
fn decode_flags_assrt_add_jnz_mul_ap_ap_ap() {
    //  0|  opcode|ap_update|pc_update|res_logic|op1_src|op0_reg|dst_reg
    // 15|14 13 12|    11 10|  9  8  7|     6  5|4  3  2|      1|      0
    //   |ASSRT_EQ|      ADD|      JNZ|      MUL|     AP|     AP|     AP
    //  0  1  0  0      1  0   1  0  0      1  0 1  0  0       0       0
    //  0100 1010 0101 0000 = 0x4A50; offx = 0
    let inst = decode_instruction(0x4A50800080008000, None).unwrap();
    assert_eq!(matches!(inst.dst_register, instruction::Register::AP), true);
    assert_eq!(matches!(inst.op0_register, instruction::Register::AP), true);
    assert_eq!(matches!(inst.op1_addr, instruction::Op1Addr::AP), true);
    assert_eq!(matches!(inst.res, instruction::Res::Mul), true);
    assert_eq!(matches!(inst.pc_update, instruction::PcUpdate::Jnz), true);
    assert_eq!(matches!(inst.ap_update, instruction::ApUpdate::Add1), true);
    assert_eq!(matches!(inst.opcode, instruction::Opcode::AssertEq), true);
    assert_eq!(
        matches!(inst.fp_update, instruction::FpUpdate::Regular),
        true
    );
}

#[test]
fn decode_flags_assrt_add2_jnz_uncon_op0_ap_ap() {
    //  0|  opcode|ap_update|pc_update|res_logic|op1_src|op0_reg|dst_reg
    // 15|14 13 12|    11 10|  9  8  7|     6  5|4  3  2|      1|      0
    //   |ASSRT_EQ|     ADD2|      JNZ|UNCONSTRD|    OP0|     AP|     AP
    //  0  1  0  0      0  0   1  0  0      0  0 0  0  0       0       0
    //  0100 0010 0000 0000 = 0x4200; offx = 0
    let inst = decode_instruction(0x4200800080008000, None).unwrap();
    assert_eq!(matches!(inst.dst_register, instruction::Register::AP), true);
    assert_eq!(matches!(inst.op0_register, instruction::Register::AP), true);
    assert_eq!(matches!(inst.op1_addr, instruction::Op1Addr::Op0), true);
    assert_eq!(matches!(inst.res, instruction::Res::Unconstrained), true);
    assert_eq!(matches!(inst.pc_update, instruction::PcUpdate::Jnz), true);
    assert_eq!(
        matches!(inst.ap_update, instruction::ApUpdate::Regular),
        true
    );
    assert_eq!(matches!(inst.opcode, instruction::Opcode::AssertEq), true);
    assert_eq!(
        matches!(inst.fp_update, instruction::FpUpdate::Regular),
        true
    );
}

#[test]
fn decode_flags_nop_regu_regu_op1_op0_ap_ap() {
    //  0|  opcode|ap_update|pc_update|res_logic|op1_src|op0_reg|dst_reg
    // 15|14 13 12|    11 10|  9  8  7|     6  5|4  3  2|      1|      0
    //   |     NOP|  REGULAR|  REGULAR|      OP1|    OP0|     AP|     AP
    //  0  0  0  0      0  0   0  0  0      0  0 0  0  0       0       0
    //  0000 0000 0000 0000 = 0x0000; offx = 0
    let inst = decode_instruction(0x0000800080008000, None).unwrap();
    assert_eq!(matches!(inst.dst_register, instruction::Register::AP), true);
    assert_eq!(matches!(inst.op0_register, instruction::Register::AP), true);
    assert_eq!(matches!(inst.op1_addr, instruction::Op1Addr::Op0), true);
    assert_eq!(matches!(inst.res, instruction::Res::Op1), true);
    assert_eq!(
        matches!(inst.pc_update, instruction::PcUpdate::Regular),
        true
    );
    assert_eq!(
        matches!(inst.ap_update, instruction::ApUpdate::Regular),
        true
    );
    assert_eq!(matches!(inst.opcode, instruction::Opcode::NOp), true);
    assert_eq!(
        matches!(inst.fp_update, instruction::FpUpdate::Regular),
        true
    );
}

#[test]
fn decode_offset_negative() {
    //  0|  opcode|ap_update|pc_update|res_logic|op1_src|op0_reg|dst_reg
    // 15|14 13 12|    11 10|  9  8  7|     6  5|4  3  2|      1|      0
    //   |     NOP|  REGULAR|  REGULAR|      OP1|    OP0|     AP|     AP
    //  0  0  0  0      0  0   0  0  0      0  0 0  0  0       0       0
    //  0000 0000 0000 0000 = 0x0000; offx = 0
    let inst = decode_instruction(0x0000800180007FFF, None).unwrap();
    assert_eq!(inst.off0, FieldInt::from_i64(-1));
    assert_eq!(inst.off1, FieldInt::from_i64(0));
    assert_eq!(inst.off2, FieldInt::from_i64(1));
}

#[test]
fn decode_offset_of_every_biased_value() {
    let mut x: i64 = -0x8000;
    while x < 0x8000 {
        assert_eq!(decode_offset((x + 0x8000) % 0x1_0000), x);
        x += 1;
    }
}

#[test]
fn decode_offset_reads_the_lowest_bits_only() {
    assert_eq!(decode_offset(0x7FFF), -1);
    assert_eq!(decode_offset(0x1_8000), 0);
    assert_eq!(decode_offset(-1), 0x7FFF);
    assert_eq!(decode_offset(0), -0x8000);
}

#[test]
fn immediate_is_kept_only_where_op1_is_imm() {
    let with = decode_instruction(0x14A7800080008000, Some(FieldInt::from_i64(7))).unwrap();
    assert_eq!(with.imm, Some(FieldInt::from_i64(7)));
    assert_eq!(with.size(), 2);
    let without = decode_instruction(0x2948800080008000, Some(FieldInt::from_i64(7))).unwrap();
    assert_eq!(without.imm, None);
    assert_eq!(without.size(), 1);
}

#[test]
fn call_without_ap_update_adds_two() {
    // opcode CALL, ap_update 0, pc_update JUMP, res ADD, op1 IMM, FP, FP: 0x10A7
    let inst = decode_instruction(0x10A7800080008000, Some(FieldInt::from_i64(1))).unwrap();
    assert_eq!(inst.ap_update, instruction::ApUpdate::Add2);
    assert_eq!(inst.fp_update, instruction::FpUpdate::APPlus2);
}

#[test]
fn highest_bit_of_the_word_is_not_read() {
    let plain = decode_instruction(0x2948800080008000, None).unwrap();
    let with_sign = decode_instruction(0x2948800080008000 | i64::MIN, None).unwrap();
    assert_eq!(plain, with_sign);
}

#[test]
fn first_invalid_field_is_reported() {
    // op1_src 3 (0x000C) and pc_update 3 (0x0180) at once
    let error = decode_instruction(0x018C800080008000, None);
    assert_eq!(error, Err(VirtualMachineError::InvalidOp1Reg(3)));
}
