//! What can go wrong when memory is read or written.

use crate::types::field_int::{decimal_of_int, FieldInt};
use crate::types::relocatable::{MaybeRelocatable, Word};
use vstd::prelude::*;
use vstd::string::StringExecFns;

verus! {

/// What can go wrong when memory is read, written or relocated.
#[derive(Debug, PartialEq)]
pub enum MemoryError {
    /// A write to a segment that does not exist: its index, and the number of
    /// segments.
    UnallocatedSegment(usize, usize),
    /// An integer was given where an address was needed.
    AddressNotRelocatable,
    /// A range check found an integer outside its bounds.
    NumOutOfBounds,
    /// A range check found an address where it needed an integer.
    FoundNonInt,
    /// A write to a cell that already holds another value: the address, the
    /// value held, and the value refused.
    InconsistentMemory(MaybeRelocatable, MaybeRelocatable, MaybeRelocatable),
    /// The segments have no sizes yet.
    EffectiveSizesNotCalled,
    /// The relocation table does not go with the memory.
    Relocation,
}

/// The mathematical value of a [`MemoryError`].
pub enum MemoryErrorView {
    UnallocatedSegment(usize, usize),
    AddressNotRelocatable,
    NumOutOfBounds,
    FoundNonInt,
    InconsistentMemory(Word, Word, Word),
    EffectiveSizesNotCalled,
    Relocation,
}

impl View for MemoryError {
    type V = MemoryErrorView;

    open spec fn view(&self) -> MemoryErrorView {
        match self {
            MemoryError::UnallocatedSegment(index, len) => MemoryErrorView::UnallocatedSegment(
                *index,
                *len,
            ),
            MemoryError::AddressNotRelocatable => MemoryErrorView::AddressNotRelocatable,
            MemoryError::NumOutOfBounds => MemoryErrorView::NumOutOfBounds,
            MemoryError::FoundNonInt => MemoryErrorView::FoundNonInt,
            MemoryError::InconsistentMemory(addr, held, refused) => {
                MemoryErrorView::InconsistentMemory(addr@, held@, refused@)
            },
            MemoryError::EffectiveSizesNotCalled => MemoryErrorView::EffectiveSizesNotCalled,
            MemoryError::Relocation => MemoryErrorView::Relocation,
        }
    }
}

impl MemoryErrorView {
    /// The message of the error.
    pub open spec fn message(self) -> Seq<char> {
        match self {
            MemoryErrorView::UnallocatedSegment(index, len) => "Can't insert into segment #"@
                + decimal_of_int(index as int) + "; memory only has "@ + decimal_of_int(
                len as int,
            ) + " segment"@,
            MemoryErrorView::AddressNotRelocatable => "Memory addresses must be relocatable"@,
            MemoryErrorView::NumOutOfBounds => "Range-check validation failed, number is out of valid range"@,
            MemoryErrorView::FoundNonInt => "Range-check validation failed, encountered non-int value"@,
            MemoryErrorView::InconsistentMemory(addr, held, refused) => "Inconsistent memory assignment at address "@
                + addr.text() + ". "@ + held.text() + " != "@ + refused.text(),
            MemoryErrorView::EffectiveSizesNotCalled => "compute_effective_sizes should be called before relocate_segments"@,
            MemoryErrorView::Relocation => "Inconsistent Relocation"@,
        }
    }
}

impl MemoryError {
    /// The message of the error.
    pub fn to_string(&self) -> (r: String)
        ensures
            r@ == self@.message(),
    {
        match self {
            MemoryError::UnallocatedSegment(index, len) => String::from_str(
                "Can't insert into segment #",
            ).concat(FieldInt::from_usize(*index).to_string().as_str()).concat(
                "; memory only has ",
            ).concat(FieldInt::from_usize(*len).to_string().as_str()).concat(" segment"),
            MemoryError::AddressNotRelocatable => String::from_str(
                "Memory addresses must be relocatable",
            ),
            MemoryError::NumOutOfBounds => String::from_str(
                "Range-check validation failed, number is out of valid range",
            ),
            MemoryError::FoundNonInt => String::from_str(
                "Range-check validation failed, encountered non-int value",
            ),
            MemoryError::InconsistentMemory(addr, held, refused) => String::from_str(
                "Inconsistent memory assignment at address ",
            ).concat(addr.to_string().as_str()).concat(". ").concat(
                held.to_string().as_str(),
            ).concat(" != ").concat(refused.to_string().as_str()),
            MemoryError::EffectiveSizesNotCalled => String::from_str(
                "compute_effective_sizes should be called before relocate_segments",
            ),
            MemoryError::Relocation => String::from_str("Inconsistent Relocation"),
        }
    }
}

} // verus!
