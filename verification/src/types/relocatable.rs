//! Addresses in the segmented memory, and the values a memory cell can hold.

use crate::types::field_int::{decimal_of_int, floor_div, floor_mod, FieldInt};
use crate::vm::errors::vm_errors::{VirtualMachineError, VmErrorView};
use vstd::prelude::*;
use vstd::std_specs::cmp::PartialEqSpecImpl;
use vstd::std_specs::convert::FromSpecImpl;
use vstd::string::StringExecFns;

verus! {

/// The address of a memory cell: a segment and an offset in it.
#[derive(Clone, Copy, Debug, PartialEq, Eq, Structural, Hash)]
pub struct Relocatable {
    pub segment_index: usize,
    pub offset: usize,
}

/// What a memory cell or a register holds: an address or an integer.
#[derive(Debug)]
pub enum MaybeRelocatable {
    RelocatableValue(Relocatable),
    Int(FieldInt),
}

/// The mathematical value of a [`MaybeRelocatable`].
pub enum Word {
    Int(int),
    Addr(Relocatable),
}

impl Relocatable {
    /// The address written out, with the names of its parts.
    pub open spec fn text(self) -> Seq<char> {
        "Relocatable { segment_index: "@ + decimal_of_int(self.segment_index as int)
            + ", offset: "@ + decimal_of_int(self.offset as int) + " }"@
    }

    /// The address written out, with the names of its parts.
    pub fn to_string(&self) -> (r: String)
        ensures
            r@ == self.text(),
    {
        String::from_str("Relocatable { segment_index: ").concat(
            FieldInt::from_usize(self.segment_index).to_string().as_str(),
        ).concat(", offset: ").concat(
            FieldInt::from_usize(self.offset).to_string().as_str(),
        ).concat(" }")
    }
}

impl Word {
    /// The value written out, after the name of its kind.
    pub open spec fn text(self) -> Seq<char> {
        match self {
            Word::Int(value) => "Int("@ + decimal_of_int(value) + ")"@,
            Word::Addr(address) => "RelocatableValue("@ + address.text() + ")"@,
        }
    }
}

impl View for MaybeRelocatable {
    type V = Word;

    open spec fn view(&self) -> Word {
        match self {
            MaybeRelocatable::Int(value) => Word::Int(value@),
            MaybeRelocatable::RelocatableValue(address) => Word::Addr(*address),
        }
    }
}

/// The value of a memory value that may be missing.
pub open spec fn option_word(value: Option<MaybeRelocatable>) -> Option<Word> {
    match value {
        Some(v) => Some(v@),
        None => None,
    }
}

/// The value of a borrowed memory value that may be missing.
pub open spec fn option_ref_word(value: Option<&MaybeRelocatable>) -> Option<Word> {
    match value {
        Some(v) => Some(v@),
        None => None,
    }
}

impl From<(usize, usize)> for Relocatable {
    fn from(index_offset: (usize, usize)) -> (r: Relocatable) {
        Relocatable { segment_index: index_offset.0, offset: index_offset.1 }
    }
}

impl FromSpecImpl<(usize, usize)> for Relocatable {
    open spec fn obeys_from_spec() -> bool {
        true
    }

    open spec fn from_spec(index_offset: (usize, usize)) -> Relocatable {
        Relocatable { segment_index: index_offset.0, offset: index_offset.1 }
    }
}

impl From<(usize, usize)> for MaybeRelocatable {
    fn from(index_offset: (usize, usize)) -> (r: MaybeRelocatable) {
        MaybeRelocatable::RelocatableValue(
            Relocatable { segment_index: index_offset.0, offset: index_offset.1 },
        )
    }
}

impl FromSpecImpl<(usize, usize)> for MaybeRelocatable {
    open spec fn obeys_from_spec() -> bool {
        true
    }

    open spec fn from_spec(index_offset: (usize, usize)) -> MaybeRelocatable {
        MaybeRelocatable::RelocatableValue(
            Relocatable { segment_index: index_offset.0, offset: index_offset.1 },
        )
    }
}

impl From<FieldInt> for MaybeRelocatable {
    fn from(value: FieldInt) -> (r: MaybeRelocatable) {
        MaybeRelocatable::Int(value)
    }
}

impl FromSpecImpl<FieldInt> for MaybeRelocatable {
    open spec fn obeys_from_spec() -> bool {
        true
    }

    open spec fn from_spec(value: FieldInt) -> MaybeRelocatable {
        MaybeRelocatable::Int(value)
    }
}

impl From<Relocatable> for MaybeRelocatable {
    fn from(address: Relocatable) -> (r: MaybeRelocatable) {
        MaybeRelocatable::RelocatableValue(address)
    }
}

impl FromSpecImpl<Relocatable> for MaybeRelocatable {
    open spec fn obeys_from_spec() -> bool {
        true
    }

    open spec fn from_spec(address: Relocatable) -> MaybeRelocatable {
        MaybeRelocatable::RelocatableValue(address)
    }
}

impl Clone for MaybeRelocatable {
    fn clone(&self) -> (r: MaybeRelocatable)
        ensures
            r@ == self@,
    {
        match self {
            MaybeRelocatable::Int(value) => MaybeRelocatable::Int(value.clone()),
            MaybeRelocatable::RelocatableValue(address) => MaybeRelocatable::RelocatableValue(
                *address,
            ),
        }
    }
}

impl PartialEq for MaybeRelocatable {
    fn eq(&self, other: &MaybeRelocatable) -> (r: bool) {
        match (self, other) {
            (MaybeRelocatable::Int(a), MaybeRelocatable::Int(b)) => a.equals(b),
            (
                MaybeRelocatable::RelocatableValue(a),
                MaybeRelocatable::RelocatableValue(b),
            ) => a.segment_index == b.segment_index && a.offset == b.offset,
            _ => false,
        }
    }
}

impl Eq for MaybeRelocatable {}

impl PartialEqSpecImpl for MaybeRelocatable {
    open spec fn obeys_eq_spec() -> bool {
        true
    }

    open spec fn eq_spec(&self, other: &MaybeRelocatable) -> bool {
        self@ == other@
    }
}

/// What [`MaybeRelocatable::add_usize_mod`] returns.
pub open spec fn add_usize_mod_spec(value: Word, other: usize, prime: Option<int>) -> Word {
    match value {
        Word::Int(v) => match prime {
            Some(p) => Word::Int(floor_mod(v + other, p)),
            None => Word::Int(v + other),
        },
        Word::Addr(a) => Word::Addr(
            Relocatable { segment_index: a.segment_index, offset: (a.offset + other) as usize },
        ),
    }
}

/// The value of the result of a computation with memory values.
pub open spec fn word_result_view(r: Result<MaybeRelocatable, VirtualMachineError>) -> Result<
    Word,
    VmErrorView,
> {
    match r {
        Ok(value) => Ok(value@),
        Err(e) => Err(e@),
    }
}

/// The sum of a memory value and an integer in the field of `prime`: of two
/// integers their sum in the field, and of an address the address whose
/// offset is the sum in the field, which has to be the offset of a cell.
pub open spec fn add_int_mod_spec(value: Word, other: int, prime: int) -> Result<
    Word,
    VmErrorView,
> {
    match value {
        Word::Int(v) => Ok(Word::Int(floor_mod(v + other, prime))),
        Word::Addr(a) => {
            let offset = floor_mod(a.offset + other, prime);
            if 0 <= offset <= usize::MAX {
                Ok(Word::Addr(Relocatable { segment_index: a.segment_index, offset: offset as usize }))
            } else {
                Err(VmErrorView::OffsetExceeded(offset))
            }
        },
    }
}

/// The sum of two memory values in the field of `prime`. Two addresses have
/// none.
pub open spec fn add_mod_spec(a: Word, b: Word, prime: int) -> Result<Word, VmErrorView> {
    match (a, b) {
        (Word::Addr(_), Word::Addr(_)) => Err(VmErrorView::RelocatableAdd),
        (_, Word::Int(n)) => add_int_mod_spec(a, n, prime),
        (Word::Int(n), Word::Addr(_)) => add_int_mod_spec(b, n, prime),
    }
}

/// The difference of two memory values in the field of `prime`: of two
/// integers, or of two addresses in one segment, which is the difference of
/// their offsets. Other pairs have none.
pub open spec fn sub_spec(a: Word, b: Word, prime: int) -> Result<Word, VmErrorView> {
    match (a, b) {
        (Word::Int(x), Word::Int(y)) => Ok(Word::Int(floor_mod(x - y, prime))),
        (Word::Addr(x), Word::Addr(y)) => if x.segment_index == y.segment_index {
            Ok(Word::Int(floor_mod(x.offset - y.offset, prime)))
        } else {
            Err(VmErrorView::DiffIndexSub)
        },
        _ => Err(VmErrorView::NotImplemented),
    }
}

/// The product of two integers in the field of `prime`. Addresses have none.
pub open spec fn mul_mod_spec(a: Word, b: Word, prime: int) -> Result<Word, VmErrorView> {
    match (a, b) {
        (Word::Int(x), Word::Int(y)) => Ok(Word::Int(floor_mod(x * y, prime))),
        _ => Err(VmErrorView::PureValue),
    }
}

impl MaybeRelocatable {
    /// Adds an integer in the field of `prime`.
    pub fn add_int_mod(&self, other: &FieldInt, prime: &FieldInt) -> (r: Result<
        MaybeRelocatable,
        VirtualMachineError,
    >)
        requires
            prime@ != 0,
        ensures
            word_result_view(r) == add_int_mod_spec(self@, other@, prime@),
    {
        match self {
            MaybeRelocatable::Int(value) => Ok(
                MaybeRelocatable::Int(value.plus(other).mod_floor(prime)),
            ),
            MaybeRelocatable::RelocatableValue(address) => {
                let big_offset = FieldInt::from_usize(address.offset).plus(other).mod_floor(prime);
                match big_offset.to_usize() {
                    Some(offset) => Ok(
                        MaybeRelocatable::RelocatableValue(
                            Relocatable { segment_index: address.segment_index, offset },
                        ),
                    ),
                    None => Err(VirtualMachineError::OffsetExceeded(big_offset)),
                }
            },
        }
    }

    /// Adds a memory value in the field of `prime`.
    pub fn add_mod(&self, other: &MaybeRelocatable, prime: &FieldInt) -> (r: Result<
        MaybeRelocatable,
        VirtualMachineError,
    >)
        requires
            prime@ != 0,
        ensures
            word_result_view(r) == add_mod_spec(self@, other@, prime@),
    {
        match (self, other) {
            (MaybeRelocatable::RelocatableValue(_), MaybeRelocatable::RelocatableValue(_)) => Err(
                VirtualMachineError::RelocatableAdd,
            ),
            (_, MaybeRelocatable::Int(n)) => self.add_int_mod(n, prime),
            (MaybeRelocatable::Int(n), MaybeRelocatable::RelocatableValue(_)) => other.add_int_mod(
                n,
                prime,
            ),
        }
    }

    /// Subtracts a memory value in the field of `prime`.
    pub fn sub(&self, other: &MaybeRelocatable, prime: &FieldInt) -> (r: Result<
        MaybeRelocatable,
        VirtualMachineError,
    >)
        requires
            prime@ != 0,
        ensures
            word_result_view(r) == sub_spec(self@, other@, prime@),
    {
        match (self, other) {
            (MaybeRelocatable::Int(a), MaybeRelocatable::Int(b)) => Ok(
                MaybeRelocatable::Int(a.minus(b).mod_floor(prime)),
            ),
            (MaybeRelocatable::RelocatableValue(a), MaybeRelocatable::RelocatableValue(b)) => {
                if a.segment_index == b.segment_index {
                    Ok(
                        MaybeRelocatable::Int(
                            FieldInt::from_usize(a.offset).minus(
                                &FieldInt::from_usize(b.offset),
                            ).mod_floor(prime),
                        ),
                    )
                } else {
                    Err(VirtualMachineError::DiffIndexSub)
                }
            },
            _ => Err(VirtualMachineError::NotImplemented),
        }
    }

    /// Multiplies by a memory value in the field of `prime`.
    pub fn mul_mod(&self, other: &MaybeRelocatable, prime: &FieldInt) -> (r: Result<
        MaybeRelocatable,
        VirtualMachineError,
    >)
        requires
            prime@ != 0,
        ensures
            word_result_view(r) == mul_mod_spec(self@, other@, prime@),
    {
        match (self, other) {
            (MaybeRelocatable::Int(a), MaybeRelocatable::Int(b)) => Ok(
                MaybeRelocatable::Int(a.times(b).mod_floor(prime)),
            ),
            _ => Err(VirtualMachineError::PureValue),
        }
    }

    /// The value written out, after the name of its kind.
    pub fn to_string(&self) -> (r: String)
        ensures
            r@ == self@.text(),
    {
        match self {
            MaybeRelocatable::Int(value) => String::from_str("Int(").concat(
                value.to_string().as_str(),
            ).concat(")"),
            MaybeRelocatable::RelocatableValue(address) => String::from_str(
                "RelocatableValue(",
            ).concat(address.to_string().as_str()).concat(")"),
        }
    }

    /// Whether both hold the same value.
    pub fn equals(&self, other: &MaybeRelocatable) -> (r: bool)
        ensures
            r == (self@ == other@),
    {
        self == other
    }

    /// Adds a `usize` to an integer, reducing the sum by `prime` where one is
    /// given, or moves an address forward by it.
    pub fn add_usize_mod(&self, other: usize, prime: Option<FieldInt>) -> (r: MaybeRelocatable)
        requires
            self@ matches Word::Addr(a) ==> a.offset + other <= usize::MAX,
            self@ is Int && prime is Some ==> prime->Some_0@ != 0,
        ensures
            r@ == add_usize_mod_spec(
                self@,
                other,
                match prime {
                    Some(p) => Some(p@),
                    None => None,
                },
            ),
    {
        match self {
            MaybeRelocatable::Int(value) => {
                let sum = value.plus(&FieldInt::from_usize(other));
                match prime {
                    Some(p) => MaybeRelocatable::Int(sum.mod_floor(&p)),
                    None => MaybeRelocatable::Int(sum),
                }
            },
            MaybeRelocatable::RelocatableValue(address) => MaybeRelocatable::RelocatableValue(
                Relocatable {
                    segment_index: address.segment_index,
                    offset: address.offset + other,
                },
            ),
        }
    }

    /// Reduces an integer by `other`. An address cannot be reduced.
    pub fn mod_floor(&self, other: &FieldInt) -> (r: Result<MaybeRelocatable, VirtualMachineError>)
        requires
            other@ != 0,
        ensures
            match self@ {
                Word::Int(v) => r matches Ok(m) && m@ == Word::Int(floor_mod(v, other@)),
                Word::Addr(_) => r matches Err(VirtualMachineError::NotImplemented),
            },
    {
        match self {
            MaybeRelocatable::Int(value) => Ok(MaybeRelocatable::Int(value.mod_floor(other))),
            MaybeRelocatable::RelocatableValue(_) => Err(VirtualMachineError::NotImplemented),
        }
    }

    /// Quotient and remainder of two integers, the quotient rounded towards
    /// negative infinity. Addresses cannot be divided.
    pub fn divmod(&self, other: &MaybeRelocatable) -> (r: Result<
        (MaybeRelocatable, MaybeRelocatable),
        VirtualMachineError,
    >)
        requires
            other@ != Word::Int(0),
        ensures
            match (self@, other@) {
                (Word::Int(v), Word::Int(d)) => r matches Ok(qr) && qr.0@ == Word::Int(
                    floor_div(v, d),
                ) && qr.1@ == Word::Int(floor_mod(v, d)),
                _ => r matches Err(VirtualMachineError::NotImplemented),
            },
    {
        match (self, other) {
            (MaybeRelocatable::Int(value), MaybeRelocatable::Int(div)) => {
                let (q, m) = value.div_mod_floor(div);
                Ok((MaybeRelocatable::Int(q), MaybeRelocatable::Int(m)))
            },
            _ => Err(VirtualMachineError::NotImplemented),
        }
    }
}

} // verus!
