//! What can go wrong while the machine decodes, runs a hint or computes with
//! memory values.

use crate::types::field_int::{decimal_of_int, FieldInt};
use crate::types::relocatable::{MaybeRelocatable, Relocatable, Word};
use crate::vm::errors::memory_errors::{MemoryError, MemoryErrorView};
use vstd::prelude::*;
use vstd::string::StringExecFns;

verus! {

/// What can go wrong in a step of the machine: in decoding, in a hint, or in
/// running the instruction.
#[derive(Debug, PartialEq)]
pub enum VirtualMachineError {
    InvalidOp1Reg(i64),
    InvalidPcUpdate(i64),
    InvalidRes(i64),
    InvalidOpcode(i64),
    InvalidApUpdate(i64),
    /// An operation that addresses do not have.
    NotImplemented,
    /// The tracking groups of a reference and of a hint differ.
    InvalidTrackingGroup(usize, usize),
    /// `ap` holds an integer.
    InvalidApValue(MaybeRelocatable),
    /// A reference by `ap` without tracking data on both sides.
    NoneApTrackingData,
    /// The names a hint needs, and the names it was given.
    IncorrectIds(Vec<String>, Vec<String>),
    /// No address for the reference with this id.
    FailedToGetReference(FieldInt),
    /// The cell at this address holds no integer.
    ExpectedInteger(MaybeRelocatable),
    /// The cell at this address is empty.
    MemoryGet(MaybeRelocatable),
    MemoryError(MemoryError),
    NoRangeCheckBuiltin,
    FailedToGetIds,
    NonLeFelt(FieldInt, FieldInt),
    AssertNotEqualFail(MaybeRelocatable, MaybeRelocatable),
    DiffIndexComp(Relocatable, Relocatable),
    DiffTypeComparison(MaybeRelocatable, MaybeRelocatable),
    ValueOutOfRange(FieldInt),
    AssertNotZero(FieldInt, FieldInt),
    SplitIntNotZero,
    SplitIntLimbOutOfRange(FieldInt),
    ValueOutsideValidRange(FieldInt),
    ValueOutside250BitRange(FieldInt),
    OutOfValidRange(FieldInt, FieldInt),
    AssertLtFelt(FieldInt, FieldInt),
    FailedToGetSqrt(FieldInt),
    /// The cell at `pc` holds no integer of 64 bits.
    InvalidInstructionEncoding,
    /// The second operand is addressed from the first, which is not known.
    UnknownOp0,
    UnconstrainedResAdd,
    UnconstrainedResJump,
    UnconstrainedResJumpRel,
    UnconstrainedResAssertEq,
    /// An `assert_eq` whose result and destination differ.
    DiffAssertValues(MaybeRelocatable, MaybeRelocatable),
    /// A call whose first operand is not the return `pc`.
    CantWriteReturnPc(MaybeRelocatable, MaybeRelocatable),
    /// A call whose destination is not `fp`.
    CantWriteReturnFp(MaybeRelocatable, MaybeRelocatable),
    /// An address where the instruction needs an integer.
    PureValue,
    /// An integer where the instruction needs an address.
    ExpectedRelocatable(MaybeRelocatable),
    /// The sum of two addresses.
    RelocatableAdd,
    /// An offset that no cell has.
    OffsetExceeded(FieldInt),
    /// The difference of addresses in two segments.
    DiffIndexSub,
    /// A hint whose code the machine does not know.
    UnknownHint(String),
    /// A division by zero in a hint.
    DividedByZero,
    /// The number of segments cannot grow.
    TooManySegments,
}

/// The mathematical value of a [`VirtualMachineError`].
pub enum VmErrorView {
    InvalidOp1Reg(i64),
    InvalidPcUpdate(i64),
    InvalidRes(i64),
    InvalidOpcode(i64),
    InvalidApUpdate(i64),
    NotImplemented,
    InvalidTrackingGroup(usize, usize),
    InvalidApValue(Word),
    NoneApTrackingData,
    IncorrectIds(Seq<Seq<char>>, Seq<Seq<char>>),
    FailedToGetReference(int),
    ExpectedInteger(Word),
    MemoryGet(Word),
    MemoryError(MemoryErrorView),
    NoRangeCheckBuiltin,
    FailedToGetIds,
    NonLeFelt(int, int),
    AssertNotEqualFail(Word, Word),
    DiffIndexComp(Relocatable, Relocatable),
    DiffTypeComparison(Word, Word),
    ValueOutOfRange(int),
    AssertNotZero(int, int),
    SplitIntNotZero,
    SplitIntLimbOutOfRange(int),
    ValueOutsideValidRange(int),
    ValueOutside250BitRange(int),
    OutOfValidRange(int, int),
    AssertLtFelt(int, int),
    FailedToGetSqrt(int),
    InvalidInstructionEncoding,
    UnknownOp0,
    UnconstrainedResAdd,
    UnconstrainedResJump,
    UnconstrainedResJumpRel,
    UnconstrainedResAssertEq,
    DiffAssertValues(Word, Word),
    CantWriteReturnPc(Word, Word),
    CantWriteReturnFp(Word, Word),
    PureValue,
    ExpectedRelocatable(Word),
    RelocatableAdd,
    OffsetExceeded(int),
    DiffIndexSub,
    UnknownHint(Seq<char>),
    DividedByZero,
    TooManySegments,
}

/// The names in `names`, each as a sequence of characters.
pub open spec fn names_view(names: Seq<String>) -> Seq<Seq<char>> {
    names.map_values(|name: String| name@)
}

impl View for VirtualMachineError {
    type V = VmErrorView;

    open spec fn view(&self) -> VmErrorView {
        match self {
            VirtualMachineError::InvalidOp1Reg(n) => VmErrorView::InvalidOp1Reg(*n),
            VirtualMachineError::InvalidPcUpdate(n) => VmErrorView::InvalidPcUpdate(*n),
            VirtualMachineError::InvalidRes(n) => VmErrorView::InvalidRes(*n),
            VirtualMachineError::InvalidOpcode(n) => VmErrorView::InvalidOpcode(*n),
            VirtualMachineError::InvalidApUpdate(n) => VmErrorView::InvalidApUpdate(*n),
            VirtualMachineError::NotImplemented => VmErrorView::NotImplemented,
            VirtualMachineError::InvalidTrackingGroup(a, b) => VmErrorView::InvalidTrackingGroup(
                *a,
                *b,
            ),
            VirtualMachineError::InvalidApValue(v) => VmErrorView::InvalidApValue(v@),
            VirtualMachineError::NoneApTrackingData => VmErrorView::NoneApTrackingData,
            VirtualMachineError::IncorrectIds(needed, given) => VmErrorView::IncorrectIds(
                names_view(needed@),
                names_view(given@),
            ),
            VirtualMachineError::FailedToGetReference(id) => VmErrorView::FailedToGetReference(
                id@,
            ),
            VirtualMachineError::ExpectedInteger(addr) => VmErrorView::ExpectedInteger(addr@),
            VirtualMachineError::MemoryGet(addr) => VmErrorView::MemoryGet(addr@),
            VirtualMachineError::MemoryError(e) => VmErrorView::MemoryError(e@),
            VirtualMachineError::NoRangeCheckBuiltin => VmErrorView::NoRangeCheckBuiltin,
            VirtualMachineError::FailedToGetIds => VmErrorView::FailedToGetIds,
            VirtualMachineError::NonLeFelt(a, b) => VmErrorView::NonLeFelt(a@, b@),
            VirtualMachineError::AssertNotEqualFail(a, b) => VmErrorView::AssertNotEqualFail(
                a@,
                b@,
            ),
            VirtualMachineError::DiffIndexComp(a, b) => VmErrorView::DiffIndexComp(*a, *b),
            VirtualMachineError::DiffTypeComparison(a, b) => VmErrorView::DiffTypeComparison(
                a@,
                b@,
            ),
            VirtualMachineError::ValueOutOfRange(a) => VmErrorView::ValueOutOfRange(a@),
            VirtualMachineError::AssertNotZero(a, p) => VmErrorView::AssertNotZero(a@, p@),
            VirtualMachineError::SplitIntNotZero => VmErrorView::SplitIntNotZero,
            VirtualMachineError::SplitIntLimbOutOfRange(a) => VmErrorView::SplitIntLimbOutOfRange(
                a@,
            ),
            VirtualMachineError::ValueOutsideValidRange(a) => VmErrorView::ValueOutsideValidRange(
                a@,
            ),
            VirtualMachineError::ValueOutside250BitRange(a) => {
                VmErrorView::ValueOutside250BitRange(a@)
            },
            VirtualMachineError::OutOfValidRange(a, b) => VmErrorView::OutOfValidRange(a@, b@),
            VirtualMachineError::AssertLtFelt(a, b) => VmErrorView::AssertLtFelt(a@, b@),
            VirtualMachineError::FailedToGetSqrt(a) => VmErrorView::FailedToGetSqrt(a@),
            VirtualMachineError::InvalidInstructionEncoding => {
                VmErrorView::InvalidInstructionEncoding
            },
            VirtualMachineError::UnknownOp0 => VmErrorView::UnknownOp0,
            VirtualMachineError::UnconstrainedResAdd => VmErrorView::UnconstrainedResAdd,
            VirtualMachineError::UnconstrainedResJump => VmErrorView::UnconstrainedResJump,
            VirtualMachineError::UnconstrainedResJumpRel => VmErrorView::UnconstrainedResJumpRel,
            VirtualMachineError::UnconstrainedResAssertEq => {
                VmErrorView::UnconstrainedResAssertEq
            },
            VirtualMachineError::DiffAssertValues(a, b) => VmErrorView::DiffAssertValues(a@, b@),
            VirtualMachineError::CantWriteReturnPc(a, b) => VmErrorView::CantWriteReturnPc(
                a@,
                b@,
            ),
            VirtualMachineError::CantWriteReturnFp(a, b) => VmErrorView::CantWriteReturnFp(
                a@,
                b@,
            ),
            VirtualMachineError::PureValue => VmErrorView::PureValue,
            VirtualMachineError::ExpectedRelocatable(v) => VmErrorView::ExpectedRelocatable(v@),
            VirtualMachineError::RelocatableAdd => VmErrorView::RelocatableAdd,
            VirtualMachineError::OffsetExceeded(n) => VmErrorView::OffsetExceeded(n@),
            VirtualMachineError::DiffIndexSub => VmErrorView::DiffIndexSub,
            VirtualMachineError::UnknownHint(code) => VmErrorView::UnknownHint(code@),
            VirtualMachineError::DividedByZero => VmErrorView::DividedByZero,
            VirtualMachineError::TooManySegments => VmErrorView::TooManySegments,
        }
    }
}

/// The first `count` of `names`, with a comma and a space between each two.
pub open spec fn joined_names(names: Seq<Seq<char>>, count: int) -> Seq<char>
    decreases count,
{
    if count <= 0 {
        Seq::empty()
    } else if count == 1 {
        names[0]
    } else {
        joined_names(names, count - 1) + ", "@ + names[count - 1]
    }
}

/// The names with a comma and a space between each two.
fn join_names(names: &Vec<String>) -> (r: String)
    ensures
        r@ == joined_names(names_view(names@), names@.len() as int),
{
    let mut joined = String::new();
    let mut i: usize = 0;
    while i < names.len()
        invariant
            i <= names.len(),
            joined@ == joined_names(names_view(names@), i as int),
        decreases names.len() - i,
    {
        if i == 0 {
            joined = names[0].clone();
            proof {
                assert(names_view(names@)[0] == names@[0]@);
            }
        } else {
            proof {
                assert(names_view(names@)[i as int] == names@[i as int]@);
            }
            joined = joined.concat(", ").concat(names[i].as_str());
        }
        i += 1;
    }
    joined
}

impl VmErrorView {
    /// The message of the error.
    pub open spec fn message(self) -> Seq<char> {
        match self {
            VmErrorView::InvalidOp1Reg(n) => "Invalid op1_register value: "@ + decimal_of_int(
                n as int,
            ),
            VmErrorView::InvalidPcUpdate(n) => "Invalid pc_update value: "@ + decimal_of_int(
                n as int,
            ),
            VmErrorView::InvalidRes(n) => "Invalid res value: "@ + decimal_of_int(n as int),
            VmErrorView::InvalidOpcode(n) => "Invalid opcode value: "@ + decimal_of_int(n as int),
            VmErrorView::InvalidApUpdate(n) => "Invalid ap_update value: "@ + decimal_of_int(
                n as int,
            ),
            VmErrorView::NotImplemented => "This is not implemented"@,
            VmErrorView::InvalidTrackingGroup(a, b) => "Tracking groups should be the same, got "@
                + decimal_of_int(a as int) + " and "@ + decimal_of_int(b as int),
            VmErrorView::InvalidApValue(v) => "Expected relocatable for ap, got "@ + v.text(),
            VmErrorView::NoneApTrackingData => "AP tracking data is None; could not apply correction to address"@,
            VmErrorView::IncorrectIds(needed, given) => "Hint's ids are incorrect: expected "@
                + joined_names(needed, needed.len() as int) + "; got "@ + joined_names(
                given,
                given.len() as int,
            ),
            VmErrorView::FailedToGetReference(id) => "Failed to get reference for id "@
                + decimal_of_int(id),
            VmErrorView::ExpectedInteger(addr) => "Expected integer at address "@ + addr.text(),
            VmErrorView::MemoryGet(addr) => "Failed to retrieve value from address "@
                + addr.text(),
            VmErrorView::MemoryError(e) => e.message(),
            VmErrorView::NoRangeCheckBuiltin => "Expected range_check builtin to be present"@,
            VmErrorView::FailedToGetIds => "Failed to get ids for hint execution"@,
            VmErrorView::NonLeFelt(a, b) => "Assertion failed, "@ + decimal_of_int(a)
                + ", is not less or equal to "@ + decimal_of_int(b),
            VmErrorView::AssertNotEqualFail(a, b) => "assert_not_equal failed: "@ + a.text()
                + " = "@ + b.text(),
            VmErrorView::DiffIndexComp(a, b) => "Cannot compare addresses of different segments: "@
                + a.text() + " and "@ + b.text(),
            VmErrorView::DiffTypeComparison(a, b) => "Cannot compare an address with an integer: "@
                + a.text() + " and "@ + b.text(),
            VmErrorView::ValueOutOfRange(a) => "Value: "@ + decimal_of_int(a)
                + " is out of range"@,
            VmErrorView::AssertNotZero(a, p) => "Assertion failed, "@ + decimal_of_int(a)
                + " % "@ + decimal_of_int(p) + " is equal to 0"@,
            VmErrorView::SplitIntNotZero => "split_int(): value is out of range"@,
            VmErrorView::SplitIntLimbOutOfRange(a) => "split_int(): Limb "@ + decimal_of_int(a)
                + " is out of range."@,
            VmErrorView::ValueOutsideValidRange(a) => "Value: "@ + decimal_of_int(a)
                + " is outside valid range"@,
            VmErrorView::ValueOutside250BitRange(a) => "Value: "@ + decimal_of_int(a)
                + " is outside of the range [0, 2**250)"@,
            VmErrorView::OutOfValidRange(a, b) => "Div out of range: 0 < "@ + decimal_of_int(a)
                + " <= "@ + decimal_of_int(b),
            VmErrorView::AssertLtFelt(a, b) => "Assertion failed, a = "@ + decimal_of_int(a)
                + " % PRIME is not less than b = "@ + decimal_of_int(b) + " % PRIME"@,
            VmErrorView::FailedToGetSqrt(a) => "Failed to calculate the square root of: "@
                + decimal_of_int(a),
            VmErrorView::InvalidInstructionEncoding => "Instruction should be an int. Found:"@,
            VmErrorView::UnknownOp0 => "op0 must be known in double dereference"@,
            VmErrorView::UnconstrainedResAdd => "Res.UNCONSTRAINED cannot be used with ApUpdate.ADD"@,
            VmErrorView::UnconstrainedResJump => "Res.UNCONSTRAINED cannot be used with PcUpdate.JUMP"@,
            VmErrorView::UnconstrainedResJumpRel => "Res.UNCONSTRAINED cannot be used with PcUpdate.JUMP_REL"@,
            VmErrorView::UnconstrainedResAssertEq => "Res.UNCONSTRAINED cannot be used with Opcode.ASSERT_EQ"@,
            VmErrorView::DiffAssertValues(a, b) => "ASSERT_EQ instruction failed; "@ + a.text()
                + " != "@ + b.text(),
            VmErrorView::CantWriteReturnPc(a, b) => "Call failed to write return-pc (inconsistent op0): "@
                + a.text() + " != "@ + b.text(),
            VmErrorView::CantWriteReturnFp(a, b) => "Call failed to write return-fp (inconsistent dst): "@
                + a.text() + " != "@ + b.text(),
            VmErrorView::PureValue => "Expected integer, found relocatable"@,
            VmErrorView::ExpectedRelocatable(v) => "Expected relocatable, found "@ + v.text(),
            VmErrorView::RelocatableAdd => "Cannot add two relocatable values"@,
            VmErrorView::OffsetExceeded(n) => "Offset "@ + decimal_of_int(n)
                + " exceeds maximum offset value"@,
            VmErrorView::DiffIndexSub => "Can only subtract two relocatable values of the same segment"@,
            VmErrorView::UnknownHint(code) => "Unknown Hint: "@ + code,
            VmErrorView::DividedByZero => "Attempted to divide by zero"@,
            VmErrorView::TooManySegments => "The memory cannot hold another segment"@,
        }
    }
}

/// `label`, and after it `n` in decimal.
fn labelled_i64(label: &str, n: i64) -> (r: String)
    ensures
        r@ == label@ + decimal_of_int(n as int),
{
    String::from_str(label).concat(FieldInt::from_i64(n).to_string().as_str())
}

/// `label`, and after it `value` in decimal.
fn labelled_int(label: &str, value: &FieldInt) -> (r: String)
    ensures
        r@ == label@ + decimal_of_int(value@),
{
    String::from_str(label).concat(value.to_string().as_str())
}

/// `label`, and after it `value` written out.
fn labelled_word(label: &str, value: &MaybeRelocatable) -> (r: String)
    ensures
        r@ == label@ + value@.text(),
{
    String::from_str(label).concat(value.to_string().as_str())
}

impl VirtualMachineError {
    /// The message of the error.
    pub fn to_string(&self) -> (r: String)
        ensures
            r@ == self@.message(),
    {
        match self {
            VirtualMachineError::InvalidOp1Reg(n) => labelled_i64(
                "Invalid op1_register value: ",
                *n,
            ),
            VirtualMachineError::InvalidPcUpdate(n) => labelled_i64(
                "Invalid pc_update value: ",
                *n,
            ),
            VirtualMachineError::InvalidRes(n) => labelled_i64("Invalid res value: ", *n),
            VirtualMachineError::InvalidOpcode(n) => labelled_i64("Invalid opcode value: ", *n),
            VirtualMachineError::InvalidApUpdate(n) => labelled_i64(
                "Invalid ap_update value: ",
                *n,
            ),
            VirtualMachineError::NotImplemented => String::from_str("This is not implemented"),
            VirtualMachineError::InvalidTrackingGroup(a, b) => labelled_int(
                "Tracking groups should be the same, got ",
                &FieldInt::from_usize(*a),
            ).concat(" and ").concat(FieldInt::from_usize(*b).to_string().as_str()),
            VirtualMachineError::InvalidApValue(v) => labelled_word(
                "Expected relocatable for ap, got ",
                v,
            ),
            VirtualMachineError::NoneApTrackingData => String::from_str(
                "AP tracking data is None; could not apply correction to address",
            ),
            VirtualMachineError::IncorrectIds(needed, given) => String::from_str(
                "Hint's ids are incorrect: expected ",
            ).concat(join_names(needed).as_str()).concat("; got ").concat(
                join_names(given).as_str(),
            ),
            VirtualMachineError::FailedToGetReference(id) => labelled_int(
                "Failed to get reference for id ",
                id,
            ),
            VirtualMachineError::ExpectedInteger(addr) => labelled_word(
                "Expected integer at address ",
                addr,
            ),
            VirtualMachineError::MemoryGet(addr) => labelled_word(
                "Failed to retrieve value from address ",
                addr,
            ),
            VirtualMachineError::MemoryError(e) => e.to_string(),
            VirtualMachineError::NoRangeCheckBuiltin => String::from_str(
                "Expected range_check builtin to be present",
            ),
            VirtualMachineError::FailedToGetIds => String::from_str(
                "Failed to get ids for hint execution",
            ),
            VirtualMachineError::NonLeFelt(a, b) => labelled_int("Assertion failed, ", a).concat(
                ", is not less or equal to ",
            ).concat(b.to_string().as_str()),
            VirtualMachineError::AssertNotEqualFail(a, b) => labelled_word(
                "assert_not_equal failed: ",
                a,
            ).concat(" = ").concat(b.to_string().as_str()),
            VirtualMachineError::DiffIndexComp(a, b) => String::from_str(
                "Cannot compare addresses of different segments: ",
            ).concat(a.to_string().as_str()).concat(" and ").concat(b.to_string().as_str()),
            VirtualMachineError::DiffTypeComparison(a, b) => labelled_word(
                "Cannot compare an address with an integer: ",
                a,
            ).concat(" and ").concat(b.to_string().as_str()),
            VirtualMachineError::ValueOutOfRange(a) => labelled_int("Value: ", a).concat(
                " is out of range",
            ),
            VirtualMachineError::AssertNotZero(a, p) => labelled_int(
                "Assertion failed, ",
                a,
            ).concat(" % ").concat(p.to_string().as_str()).concat(" is equal to 0"),
            VirtualMachineError::SplitIntNotZero => String::from_str(
                "split_int(): value is out of range",
            ),
            VirtualMachineError::SplitIntLimbOutOfRange(a) => labelled_int(
                "split_int(): Limb ",
                a,
            ).concat(" is out of range."),
            VirtualMachineError::ValueOutsideValidRange(a) => labelled_int("Value: ", a).concat(
                " is outside valid range",
            ),
            VirtualMachineError::ValueOutside250BitRange(a) => labelled_int("Value: ", a).concat(
                " is outside of the range [0, 2**250)",
            ),
            VirtualMachineError::OutOfValidRange(a, b) => labelled_int(
                "Div out of range: 0 < ",
                a,
            ).concat(" <= ").concat(b.to_string().as_str()),
            VirtualMachineError::AssertLtFelt(a, b) => labelled_int(
                "Assertion failed, a = ",
                a,
            ).concat(" % PRIME is not less than b = ").concat(b.to_string().as_str()).concat(
                " % PRIME",
            ),
            VirtualMachineError::FailedToGetSqrt(a) => labelled_int(
                "Failed to calculate the square root of: ",
                a,
            ),
            VirtualMachineError::InvalidInstructionEncoding => String::from_str(
                "Instruction should be an int. Found:",
            ),
            VirtualMachineError::UnknownOp0 => String::from_str(
                "op0 must be known in double dereference",
            ),
            VirtualMachineError::UnconstrainedResAdd => String::from_str(
                "Res.UNCONSTRAINED cannot be used with ApUpdate.ADD",
            ),
            VirtualMachineError::UnconstrainedResJump => String::from_str(
                "Res.UNCONSTRAINED cannot be used with PcUpdate.JUMP",
            ),
            VirtualMachineError::UnconstrainedResJumpRel => String::from_str(
                "Res.UNCONSTRAINED cannot be used with PcUpdate.JUMP_REL",
            ),
            VirtualMachineError::UnconstrainedResAssertEq => String::from_str(
                "Res.UNCONSTRAINED cannot be used with Opcode.ASSERT_EQ",
            ),
            VirtualMachineError::DiffAssertValues(a, b) => labelled_word(
                "ASSERT_EQ instruction failed; ",
                a,
            ).concat(" != ").concat(b.to_string().as_str()),
            VirtualMachineError::CantWriteReturnPc(a, b) => labelled_word(
                "Call failed to write return-pc (inconsistent op0): ",
                a,
            ).concat(" != ").concat(b.to_string().as_str()),
            VirtualMachineError::CantWriteReturnFp(a, b) => labelled_word(
                "Call failed to write return-fp (inconsistent dst): ",
                a,
            ).concat(" != ").concat(b.to_string().as_str()),
            VirtualMachineError::PureValue => String::from_str(
                "Expected integer, found relocatable",
            ),
            VirtualMachineError::ExpectedRelocatable(v) => labelled_word(
                "Expected relocatable, found ",
                v,
            ),
            VirtualMachineError::RelocatableAdd => String::from_str(
                "Cannot add two relocatable values",
            ),
            VirtualMachineError::OffsetExceeded(n) => labelled_int("Offset ", n).concat(
                " exceeds maximum offset value",
            ),
            VirtualMachineError::DiffIndexSub => String::from_str(
                "Can only subtract two relocatable values of the same segment",
            ),
            VirtualMachineError::UnknownHint(code) => String::from_str("Unknown Hint: ").concat(
                code.as_str(),
            ),
            VirtualMachineError::DividedByZero => String::from_str("Attempted to divide by zero"),
            VirtualMachineError::TooManySegments => String::from_str(
                "The memory cannot hold another segment",
            ),
        }
    }
}

} // verus!
