//! From a 64-bit word to an [`Instruction`].
//!
//! ```text
//!  0|  opcode|ap_update|pc_update|res_logic|op1_src|op0_reg|dst_reg
//! 15|14 13 12|    11 10|  9  8  7|     6  5|4  3  2|      1|      0
//! ```
//!
//! The flags are the highest 16 bits of the word. Below them lie three
//! offsets of 16 bits each, `off2`, `off1` and `off0`, each stored with
//! 2^15 added to it.

use crate::types::field_int::FieldInt;
use crate::types::instruction::{
    option_int, ApUpdate, FpUpdate, Instruction, InstructionView, Op1Addr, Opcode, PcUpdate,
    Register, Res,
};
use crate::vm::errors::vm_errors::{VirtualMachineError, VmErrorView};
use vstd::arithmetic::div_mod::lemma_fundamental_div_mod_converse;
use vstd::prelude::*;

verus! {

/// The word read as a number without sign.
pub open spec fn word_bits(encoded_instr: i64) -> int {
    if encoded_instr < 0 {
        encoded_instr + 0x1_0000_0000_0000_0000
    } else {
        encoded_instr as int
    }
}

/// The `size` values that start at the bit whose weight is `low`.
pub open spec fn bit_field(encoded_instr: i64, low: int, size: int) -> int {
    (word_bits(encoded_instr) / low) % size
}

/// The 16 bits of flags.
pub open spec fn flag_bits(encoded_instr: i64) -> int {
    word_bits(encoded_instr) / 0x1_0000_0000_0000
}

/// The bit that names the register of the destination.
pub open spec fn dst_reg_bits(encoded_instr: i64) -> int {
    flag_bits(encoded_instr) % 2
}

/// The bit that names the register of the first operand.
pub open spec fn op0_reg_bits(encoded_instr: i64) -> int {
    (flag_bits(encoded_instr) / 2) % 2
}

/// The three bits that say where the second operand is addressed from.
pub open spec fn op1_src_bits(encoded_instr: i64) -> int {
    (flag_bits(encoded_instr) / 4) % 8
}

/// The two bits that say how the result is computed.
pub open spec fn res_logic_bits(encoded_instr: i64) -> int {
    (flag_bits(encoded_instr) / 32) % 4
}

/// The three bits that say how `pc` moves on.
pub open spec fn pc_update_bits(encoded_instr: i64) -> int {
    (flag_bits(encoded_instr) / 128) % 8
}

/// The two bits that say how `ap` moves on.
pub open spec fn ap_update_bits(encoded_instr: i64) -> int {
    (flag_bits(encoded_instr) / 1024) % 4
}

/// The three bits of the opcode.
pub open spec fn opcode_bits(encoded_instr: i64) -> int {
    (flag_bits(encoded_instr) / 4096) % 8
}

/// The offset that the lowest 16 bits of `offset` stand for.
pub open spec fn decode_offset_spec(offset: i64) -> int {
    (offset as int) % 0x1_0000 - 0x8000
}

/// The numbers that a word holds in its fields.
pub struct EncodedFields {
    pub off0: int,
    pub off1: int,
    pub off2: int,
    pub dst_reg: int,
    pub op0_reg: int,
    pub op1_src: int,
    pub res_logic: int,
    pub pc_update: int,
    pub ap_update: int,
    pub opcode: int,
}

/// The fields of `encoded_instr`, the offsets as they are stored.
pub open spec fn fields_of(encoded_instr: i64) -> EncodedFields {
    EncodedFields {
        off0: bit_field(encoded_instr, 1, 0x1_0000),
        off1: bit_field(encoded_instr, 0x1_0000, 0x1_0000),
        off2: bit_field(encoded_instr, 0x1_0000_0000, 0x1_0000),
        dst_reg: dst_reg_bits(encoded_instr),
        op0_reg: op0_reg_bits(encoded_instr),
        op1_src: op1_src_bits(encoded_instr),
        res_logic: res_logic_bits(encoded_instr),
        pc_update: pc_update_bits(encoded_instr),
        ap_update: ap_update_bits(encoded_instr),
        opcode: opcode_bits(encoded_instr),
    }
}

/// The instruction that the numbers `fields` stand for, or the first of them
/// that stands for nothing.
pub open spec fn decode_fields_spec(fields: EncodedFields, imm: Option<int>) -> Result<
    InstructionView,
    VmErrorView,
> {
    let op1_src = fields.op1_src;
    let res_logic = fields.res_logic;
    let pc_update = fields.pc_update;
    let ap_update = fields.ap_update;
    let opcode = fields.opcode;
    if op1_src != 0 && op1_src != 1 && op1_src != 2 && op1_src != 4 {
        Err(VmErrorView::InvalidOp1Reg(op1_src as i64))
    } else if pc_update != 0 && pc_update != 1 && pc_update != 2 && pc_update != 4 {
        Err(VmErrorView::InvalidPcUpdate(pc_update as i64))
    } else if res_logic != 0 && res_logic != 1 && res_logic != 2 {
        Err(VmErrorView::InvalidRes(res_logic as i64))
    } else if opcode != 0 && opcode != 1 && opcode != 2 && opcode != 4 {
        Err(VmErrorView::InvalidOpcode(opcode as i64))
    } else if ap_update != 0 && ap_update != 1 && ap_update != 2 {
        Err(VmErrorView::InvalidApUpdate(ap_update as i64))
    } else {
        Ok(
            InstructionView {
                off0: fields.off0 - 0x8000,
                off1: fields.off1 - 0x8000,
                off2: fields.off2 - 0x8000,
                imm: if op1_src == 1 {
                    imm
                } else {
                    None
                },
                dst_register: if fields.dst_reg == 1 {
                    Register::FP
                } else {
                    Register::AP
                },
                op0_register: if fields.op0_reg == 1 {
                    Register::FP
                } else {
                    Register::AP
                },
                op1_addr: if op1_src == 0 {
                    Op1Addr::Op0
                } else if op1_src == 1 {
                    Op1Addr::Imm
                } else if op1_src == 2 {
                    Op1Addr::FP
                } else {
                    Op1Addr::AP
                },
                res: if res_logic == 0 {
                    if pc_update == 4 {
                        Res::Unconstrained
                    } else {
                        Res::Op1
                    }
                } else if res_logic == 1 {
                    Res::Add
                } else {
                    Res::Mul
                },
                pc_update: if pc_update == 0 {
                    PcUpdate::Regular
                } else if pc_update == 1 {
                    PcUpdate::Jump
                } else if pc_update == 2 {
                    PcUpdate::JumpRel
                } else {
                    PcUpdate::Jnz
                },
                ap_update: if ap_update == 0 {
                    if opcode == 1 {
                        ApUpdate::Add2
                    } else {
                        ApUpdate::Regular
                    }
                } else if ap_update == 1 {
                    ApUpdate::Add
                } else {
                    ApUpdate::Add1
                },
                fp_update: if opcode == 1 {
                    FpUpdate::APPlus2
                } else if opcode == 2 {
                    FpUpdate::Dst
                } else {
                    FpUpdate::Regular
                },
                opcode: if opcode == 0 {
                    Opcode::NOp
                } else if opcode == 1 {
                    Opcode::Call
                } else if opcode == 2 {
                    Opcode::Ret
                } else {
                    Opcode::AssertEq
                },
            },
        )
    }
}

/// What [`decode_instruction`] returns.
pub open spec fn decode_instruction_spec(encoded_instr: i64, imm: Option<int>) -> Result<
    InstructionView,
    VmErrorView,
> {
    decode_fields_spec(fields_of(encoded_instr), imm)
}

/// The value of a decoding result.
pub open spec fn decoded_view(r: Result<Instruction, VirtualMachineError>) -> Result<
    InstructionView,
    VmErrorView,
> {
    match r {
        Ok(instruction) => Ok(instruction@),
        Err(e) => Err(e@),
    }
}

/// Decodes an instruction. An immediate is kept only where `op1_src` asks
/// for one, and then it has to be there.
pub fn decode_instruction(encoded_instr: i64, imm: Option<FieldInt>) -> (r: Result<
    Instruction,
    VirtualMachineError,
>)
    requires
        op1_src_bits(encoded_instr) == 1 ==> imm is Some,
    ensures
        decoded_view(r) == decode_instruction_spec(encoded_instr, option_int(imm)),
{
    let word: u64 = #[verifier::truncate] (encoded_instr as u64);
    assert(word as int == word_bits(encoded_instr)) by (bit_vector)
        requires
            word == encoded_instr as u64,
    ;

    let off0: i64 = decode_offset((word & 0xFFFF) as i64);
    let off1: i64 = decode_offset(((word >> 16) & 0xFFFF) as i64);
    let off2: i64 = decode_offset(((word >> 32) & 0xFFFF) as i64);

    let flags: u64 = word >> 48;
    let dst_reg_num: u64 = flags & 0x0001;
    let op0_reg_num: u64 = (flags & 0x0002) >> 1;
    let op1_src_num: u64 = (flags & 0x001C) >> 2;
    let res_logic_num: u64 = (flags & 0x0060) >> 5;
    let pc_update_num: u64 = (flags & 0x0380) >> 7;
    let ap_update_num: u64 = (flags & 0x0C00) >> 10;
    let opcode_num: u64 = (flags & 0x7000) >> 12;

    assert(word & 0xFFFF == word % 0x1_0000) by (bit_vector);
    assert((word >> 16) & 0xFFFF == (word / 0x1_0000) % 0x1_0000) by (bit_vector);
    assert((word >> 32) & 0xFFFF == (word / 0x1_0000_0000) % 0x1_0000) by (bit_vector);
    assert(word >> 48 == word / 0x1_0000_0000_0000) by (bit_vector);
    assert(flags & 0x0001 == flags % 2) by (bit_vector);
    assert((flags & 0x0002) >> 1 == (flags / 2) % 2) by (bit_vector);
    assert((flags & 0x001C) >> 2 == (flags / 4) % 8) by (bit_vector);
    assert((flags & 0x0060) >> 5 == (flags / 32) % 4) by (bit_vector);
    assert((flags & 0x0380) >> 7 == (flags / 128) % 8) by (bit_vector);
    assert((flags & 0x0C00) >> 10 == (flags / 1024) % 4) by (bit_vector);
    assert((flags & 0x7000) >> 12 == (flags / 4096) % 8) by (bit_vector);

    let dst_register = if dst_reg_num == 1 {
        Register::FP
    } else {
        Register::AP
    };

    let op0_register = if op0_reg_num == 1 {
        Register::FP
    } else {
        Register::AP
    };

    let op1_addr = match op1_src_num {
        0 => Op1Addr::Op0,
        1 => Op1Addr::Imm,
        2 => Op1Addr::FP,
        4 => Op1Addr::AP,
        _ => return Err(VirtualMachineError::InvalidOp1Reg(op1_src_num as i64)),
    };

    let imm = match op1_addr {
        Op1Addr::Imm => imm,
        _ => None,
    };

    let pc_update = match pc_update_num {
        0 => PcUpdate::Regular,
        1 => PcUpdate::Jump,
        2 => PcUpdate::JumpRel,
        4 => PcUpdate::Jnz,
        _ => return Err(VirtualMachineError::InvalidPcUpdate(pc_update_num as i64)),
    };

    let res = match res_logic_num {
        0 => match pc_update {
            PcUpdate::Jnz => Res::Unconstrained,
            _ => Res::Op1,
        },
        1 => Res::Add,
        2 => Res::Mul,
        _ => return Err(VirtualMachineError::InvalidRes(res_logic_num as i64)),
    };

    let opcode = match opcode_num {
        0 => Opcode::NOp,
        1 => Opcode::Call,
        2 => Opcode::Ret,
        4 => Opcode::AssertEq,
        _ => return Err(VirtualMachineError::InvalidOpcode(opcode_num as i64)),
    };

    let ap_update = match ap_update_num {
        0 => match opcode {
            Opcode::Call => ApUpdate::Add2,
            _ => ApUpdate::Regular,
        },
        1 => ApUpdate::Add,
        2 => ApUpdate::Add1,
        _ => return Err(VirtualMachineError::InvalidApUpdate(ap_update_num as i64)),
    };

    let fp_update = match opcode {
        Opcode::Call => FpUpdate::APPlus2,
        Opcode::Ret => FpUpdate::Dst,
        _ => FpUpdate::Regular,
    };

    Ok(
        Instruction {
            off0: FieldInt::from_i64(off0),
            off1: FieldInt::from_i64(off1),
            off2: FieldInt::from_i64(off2),
            imm,
            dst_register,
            op0_register,
            op1_addr,
            res,
            pc_update,
            ap_update,
            fp_update,
            opcode,
        },
    )
}

/// Whether the instruction that `encoded_instr` stands for has an immediate.
pub fn needs_immediate(encoded_instr: i64) -> (r: bool)
    ensures
        r == (op1_src_bits(encoded_instr) == 1),
{
    let word: u64 = #[verifier::truncate] (encoded_instr as u64);
    assert(word as int == word_bits(encoded_instr)) by (bit_vector)
        requires
            word == encoded_instr as u64,
    ;
    assert(((word >> 48) & 0x001C) >> 2 == ((word / 0x1_0000_0000_0000) / 4) % 8) by (bit_vector);
    ((word >> 48) & 0x001C) >> 2 == 1
}

/// Takes the lowest 16 bits of `offset` for an offset stored with 2^15 added
/// to it, and returns the offset.
pub fn decode_offset(offset: i64) -> (r: i64)
    ensures
        r == decode_offset_spec(offset),
        -0x8000 <= r < 0x8000,
{
    let low: i64 = offset & 0xFFFF;
    assert(offset & 0xFFFF == offset % 0x1_0000) by (bit_vector);
    low - 0x8000
}

/// The number that stands for `res` in the flags.
pub open spec fn res_logic_code(res: Res) -> int {
    match res {
        Res::Op1 => 0,
        Res::Add => 1,
        Res::Mul => 2,
        Res::Unconstrained => 0,
    }
}

/// The number that stands for `pc_update` in the flags.
pub open spec fn pc_update_code(pc_update: PcUpdate) -> int {
    match pc_update {
        PcUpdate::Regular => 0,
        PcUpdate::Jump => 1,
        PcUpdate::JumpRel => 2,
        PcUpdate::Jnz => 4,
    }
}

/// The number that stands for `ap_update` in the flags.
pub open spec fn ap_update_code(ap_update: ApUpdate) -> int {
    match ap_update {
        ApUpdate::Regular => 0,
        ApUpdate::Add => 1,
        ApUpdate::Add1 => 2,
        ApUpdate::Add2 => 0,
    }
}

/// The number that stands for `opcode` in the flags.
pub open spec fn opcode_code(opcode: Opcode) -> int {
    match opcode {
        Opcode::NOp => 0,
        Opcode::Call => 1,
        Opcode::Ret => 2,
        Opcode::AssertEq => 4,
    }
}

/// The number that stands for `op1_addr` in the flags.
pub open spec fn op1_src_code(op1_addr: Op1Addr) -> int {
    match op1_addr {
        Op1Addr::Op0 => 0,
        Op1Addr::Imm => 1,
        Op1Addr::FP => 2,
        Op1Addr::AP => 4,
    }
}

/// The number that stands for a register in the flags.
pub open spec fn register_code(register: Register) -> int {
    match register {
        Register::AP => 0,
        Register::FP => 1,
    }
}

/// The numbers that stand for the fields of `instruction`.
pub open spec fn encode_fields_spec(instruction: InstructionView) -> EncodedFields {
    EncodedFields {
        off0: instruction.off0 + 0x8000,
        off1: instruction.off1 + 0x8000,
        off2: instruction.off2 + 0x8000,
        dst_reg: register_code(instruction.dst_register),
        op0_reg: register_code(instruction.op0_register),
        op1_src: op1_src_code(instruction.op1_addr),
        res_logic: res_logic_code(instruction.res),
        pc_update: pc_update_code(instruction.pc_update),
        ap_update: ap_update_code(instruction.ap_update),
        opcode: opcode_code(instruction.opcode),
    }
}

/// The flags that hold `fields`.
pub open spec fn pack_flags_spec(fields: EncodedFields) -> int {
    fields.dst_reg + 2 * fields.op0_reg + 4 * fields.op1_src + 32 * fields.res_logic + 128
        * fields.pc_update + 1024 * fields.ap_update + 4096 * fields.opcode
}

/// The word that holds `fields`.
pub open spec fn pack_fields_spec(fields: EncodedFields) -> i64 {
    (fields.off0 + 0x1_0000 * fields.off1 + 0x1_0000_0000 * fields.off2 + 0x1_0000_0000_0000
        * pack_flags_spec(fields)) as i64
}

/// The word that stands for `instruction`, whose offsets lie in
/// `[-2^15, 2^15)`.
pub open spec fn encode_instruction_spec(instruction: InstructionView) -> i64 {
    pack_fields_spec(encode_fields_spec(instruction))
}

/// Whether each number of `fields` fits the bits that a word has for it.
pub open spec fn fields_fit(fields: EncodedFields) -> bool {
    &&& 0 <= fields.off0 < 0x1_0000
    &&& 0 <= fields.off1 < 0x1_0000
    &&& 0 <= fields.off2 < 0x1_0000
    &&& 0 <= fields.dst_reg < 2
    &&& 0 <= fields.op0_reg < 2
    &&& 0 <= fields.op1_src < 8
    &&& 0 <= fields.res_logic < 4
    &&& 0 <= fields.pc_update < 8
    &&& 0 <= fields.ap_update < 4
    &&& 0 <= fields.opcode < 8
}

/// An offset of 16 bits with sign, stored with 2^15 added to it, is decoded
/// to itself.
pub proof fn lemma_decode_offset_of_biased(x: int)
    requires
        -0x8000 <= x < 0x8000,
    ensures
        decode_offset_spec(((x + 0x8000) % 0x1_0000) as i64) == x,
{
}

/// The parts of a word that is put together from three offsets of 16 bits
/// and 15 bits of flags.
proof fn lemma_word_parts(off0: int, off1: int, off2: int, flags: int)
    requires
        0 <= off0 < 0x1_0000,
        0 <= off1 < 0x1_0000,
        0 <= off2 < 0x1_0000,
        0 <= flags < 0x8000,
    ensures
        ({
            let word = off0 + 0x1_0000 * off1 + 0x1_0000_0000 * off2 + 0x1_0000_0000_0000 * flags;
            &&& 0 <= word < 0x8000_0000_0000_0000
            &&& word % 0x1_0000 == off0
            &&& (word / 0x1_0000) % 0x1_0000 == off1
            &&& (word / 0x1_0000_0000) % 0x1_0000 == off2
            &&& word / 0x1_0000_0000_0000 == flags
        }),
{
    let word = off0 + 0x1_0000 * off1 + 0x1_0000_0000 * off2 + 0x1_0000_0000_0000 * flags;
    let above0 = off1 + 0x1_0000 * off2 + 0x1_0000_0000 * flags;
    let above1 = off2 + 0x1_0000 * flags;
    lemma_fundamental_div_mod_converse(word, 0x1_0000, above0, off0);
    lemma_fundamental_div_mod_converse(above0, 0x1_0000, above1, off1);
    lemma_fundamental_div_mod_converse(word, 0x1_0000_0000, above1, off0 + 0x1_0000 * off1);
    lemma_fundamental_div_mod_converse(above1, 0x1_0000, flags, off2);
    lemma_fundamental_div_mod_converse(
        word,
        0x1_0000_0000_0000,
        flags,
        off0 + 0x1_0000 * off1 + 0x1_0000_0000 * off2,
    );
}

/// The fields of flags that are put together from the numbers of their
/// fields.
proof fn lemma_flag_parts(
    dst: int,
    op0: int,
    op1_src: int,
    res_logic: int,
    pc_update: int,
    ap_update: int,
    opcode: int,
)
    requires
        0 <= dst < 2,
        0 <= op0 < 2,
        0 <= op1_src < 8,
        0 <= res_logic < 4,
        0 <= pc_update < 8,
        0 <= ap_update < 4,
        0 <= opcode < 8,
    ensures
        ({
            let flags = dst + 2 * op0 + 4 * op1_src + 32 * res_logic + 128 * pc_update + 1024
                * ap_update + 4096 * opcode;
            &&& 0 <= flags < 0x8000
            &&& flags % 2 == dst
            &&& (flags / 2) % 2 == op0
            &&& (flags / 4) % 8 == op1_src
            &&& (flags / 32) % 4 == res_logic
            &&& (flags / 128) % 8 == pc_update
            &&& (flags / 1024) % 4 == ap_update
            &&& (flags / 4096) % 8 == opcode
        }),
{
    let flags = dst + 2 * op0 + 4 * op1_src + 32 * res_logic + 128 * pc_update + 1024 * ap_update
        + 4096 * opcode;
    let above_dst = op0 + 2 * op1_src + 16 * res_logic + 64 * pc_update + 512 * ap_update + 2048
        * opcode;
    let above_op0 = op1_src + 8 * res_logic + 32 * pc_update + 256 * ap_update + 1024 * opcode;
    let above_op1 = res_logic + 4 * pc_update + 32 * ap_update + 128 * opcode;
    let above_res = pc_update + 8 * ap_update + 32 * opcode;
    let above_pc = ap_update + 4 * opcode;
    lemma_fundamental_div_mod_converse(flags, 2, above_dst, dst);
    lemma_fundamental_div_mod_converse(above_dst, 2, above_op0, op0);
    lemma_fundamental_div_mod_converse(flags, 4, above_op0, dst + 2 * op0);
    lemma_fundamental_div_mod_converse(above_op0, 8, above_op1, op1_src);
    lemma_fundamental_div_mod_converse(flags, 32, above_op1, dst + 2 * op0 + 4 * op1_src);
    lemma_fundamental_div_mod_converse(above_op1, 4, above_res, res_logic);
    lemma_fundamental_div_mod_converse(
        flags,
        128,
        above_res,
        dst + 2 * op0 + 4 * op1_src + 32 * res_logic,
    );
    lemma_fundamental_div_mod_converse(above_res, 8, above_pc, pc_update);
    lemma_fundamental_div_mod_converse(
        flags,
        1024,
        above_pc,
        dst + 2 * op0 + 4 * op1_src + 32 * res_logic + 128 * pc_update,
    );
    lemma_fundamental_div_mod_converse(above_pc, 4, opcode, ap_update);
    lemma_fundamental_div_mod_converse(
        flags,
        4096,
        opcode,
        dst + 2 * op0 + 4 * op1_src + 32 * res_logic + 128 * pc_update + 1024 * ap_update,
    );
    lemma_fundamental_div_mod_converse(opcode, 8, 0, opcode);
}

/// The fields of a word are the numbers that it was put together from.
pub proof fn lemma_fields_of_packed(fields: EncodedFields)
    requires
        fields_fit(fields),
    ensures
        fields_of(pack_fields_spec(fields)) == fields,
{
    let flags = pack_flags_spec(fields);
    lemma_flag_parts(
        fields.dst_reg,
        fields.op0_reg,
        fields.op1_src,
        fields.res_logic,
        fields.pc_update,
        fields.ap_update,
        fields.opcode,
    );
    lemma_word_parts(fields.off0, fields.off1, fields.off2, flags);
    let word = pack_fields_spec(fields);
    assert(word_bits(word) == fields.off0 + 0x1_0000 * fields.off1 + 0x1_0000_0000 * fields.off2
        + 0x1_0000_0000_0000 * flags);
    assert(flag_bits(word) == flags);
    assert(word_bits(word) / 1 == word_bits(word));
}

/// The fields of every word fit their bits.
pub proof fn lemma_fields_of_fit(encoded_instr: i64)
    ensures
        fields_fit(fields_of(encoded_instr)),
{
}

/// Every decoded instruction, encoded again, is decoded to itself.
pub proof fn lemma_decode_of_encoded(encoded_instr: i64, imm: Option<int>)
    requires
        decode_instruction_spec(encoded_instr, imm) is Ok,
    ensures
        ({
            let instruction = decode_instruction_spec(encoded_instr, imm)->Ok_0;
            decode_instruction_spec(encode_instruction_spec(instruction), instruction.imm) == Ok::<
                InstructionView,
                VmErrorView,
            >(instruction)
        }),
{
    let instruction = decode_instruction_spec(encoded_instr, imm)->Ok_0;
    lemma_fields_of_fit(encoded_instr);
    let fields = encode_fields_spec(instruction);
    assert(fields_fit(fields));
    lemma_fields_of_packed(fields);
    assert(decode_fields_spec(fields, instruction.imm) == Ok::<InstructionView, VmErrorView>(
        instruction,
    ));
}

} // verus!
