//! The hints of the common library, and how a hint finds the memory cells
//! that it names.

use crate::types::field_int::{floor_div, floor_mod, int_bitand, FieldInt};
use crate::math_utils::{as_int, as_int_spec, isqrt, isqrt_spec};
use crate::types::instruction::Register;
use crate::types::relocatable::{option_word, MaybeRelocatable, Relocatable, Word};
use crate::vm::context::run_context::{RunContext, RunContextView};
use crate::vm::errors::vm_errors::{names_view, VirtualMachineError, VmErrorView};
use crate::vm::hints::execute_hint::{
    find_id, id_names, ApTracking, HintData, HintDataView, HintIds, HintReference,
};
use crate::vm::runners::builtin_runner::{BuiltinRunner, BuiltinRunnerView};
use crate::vm::vm_core::{VirtualMachine, VirtualMachineView};
use crate::vm::vm_memory::memory::{Memory, MemoryView};
use std::collections::HashMap;
use vstd::arithmetic::power2::pow2;
use vstd::prelude::*;
use vstd::string::StringExecFns;

verus! {

/// The address in segment `segment_index` at `offset`, where that is the
/// offset of a cell.
pub open spec fn address_at(segment_index: usize, offset: int) -> Option<Relocatable> {
    if 0 <= offset <= usize::MAX {
        Some(Relocatable { segment_index, offset: offset as usize })
    } else {
        None
    }
}

/// The tracking data that a hint was given.
pub open spec fn tracking_view(hint_ap_tracking: Option<&ApTracking>) -> Option<ApTracking> {
    match hint_ap_tracking {
        Some(tracking) => Some(*tracking),
        None => None,
    }
}

/// The value of what a search for an address returns.
pub open spec fn address_result_view(
    r: Result<Option<MaybeRelocatable>, VirtualMachineError>,
) -> Result<Option<Word>, VmErrorView> {
    match r {
        Ok(address) => Ok(option_word(address)),
        Err(e) => Err(e@),
    }
}

/// An address that may be missing, as a memory value.
pub open spec fn as_word(address: Option<Relocatable>) -> Option<Word> {
    match address {
        Some(a) => Some(Word::Addr(a)),
        None => None,
    }
}

/// The result of a search for an address, as a memory value.
pub open spec fn as_word_result(r: Result<Option<Relocatable>, VmErrorView>) -> Result<
    Option<Word>,
    VmErrorView,
> {
    match r {
        Ok(address) => Ok(as_word(address)),
        Err(e) => Err(e),
    }
}

/// Where `ap` was when a reference was written down, seen from a hint: `ap`
/// moved back by as much as it advanced between the two. The two must
/// belong to one tracking group. There is no such address where it would lie
/// before its segment or beyond what an offset can hold.
pub open spec fn apply_ap_tracking_correction_spec(
    ap: Relocatable,
    ref_ap_tracking: ApTracking,
    hint_ap_tracking: ApTracking,
) -> Result<Option<Relocatable>, VmErrorView> {
    if ref_ap_tracking.group != hint_ap_tracking.group {
        Err(VmErrorView::InvalidTrackingGroup(ref_ap_tracking.group, hint_ap_tracking.group))
    } else {
        Ok(
            address_at(
                ap.segment_index,
                ap.offset - (hint_ap_tracking.offset - ref_ap_tracking.offset),
            ),
        )
    }
}

/// Moves `ap` back to where it was when a reference was written down.
pub fn apply_ap_tracking_correction(
    ap: &Relocatable,
    ref_ap_tracking: &ApTracking,
    hint_ap_tracking: &ApTracking,
) -> (r: Result<Option<MaybeRelocatable>, VirtualMachineError>)
    ensures
        address_result_view(r) == as_word_result(
            apply_ap_tracking_correction_spec(*ap, *ref_ap_tracking, *hint_ap_tracking),
        ),
{
    if ref_ap_tracking.group != hint_ap_tracking.group {
        return Err(
            VirtualMachineError::InvalidTrackingGroup(
                ref_ap_tracking.group,
                hint_ap_tracking.group,
            ),
        );
    }
    let ap_diff: i128 = hint_ap_tracking.offset as i128 - ref_ap_tracking.offset as i128;
    let offset: i128 = ap.offset as i128 - ap_diff;
    if 0 <= offset && offset <= usize::MAX as i128 {
        Ok(
            Some(
                MaybeRelocatable::RelocatableValue(
                    Relocatable { segment_index: ap.segment_index, offset: offset as usize },
                ),
            ),
        )
    } else {
        Ok(None)
    }
}

/// What a reference counts its offsets from: `fp`, or `ap` as it was when the
/// reference was written down.
pub open spec fn reference_base_spec(
    hint_reference: HintReference,
    run_context: RunContextView,
    hint_ap_tracking: Option<ApTracking>,
) -> Result<Option<Word>, VmErrorView> {
    match hint_reference.register {
        Register::FP => Ok(Some(run_context.fp)),
        Register::AP => match (hint_ap_tracking, hint_reference.ap_tracking_data) {
            (Some(hint_tracking), Some(ref_tracking)) => match run_context.ap {
                Word::Addr(ap) => as_word_result(
                    apply_ap_tracking_correction_spec(ap, ref_tracking, hint_tracking),
                ),
                Word::Int(_) => Err(VmErrorView::InvalidApValue(run_context.ap)),
            },
            _ => Err(VmErrorView::NoneApTrackingData),
        },
    }
}

/// The address that a reference names.
///
/// There is none where the base is no address, where the first offset leads
/// to before the segment, where the cell to dereference holds no address, or
/// where the result is the offset of no cell.
pub open spec fn compute_addr_from_reference_spec(
    hint_reference: HintReference,
    run_context: RunContextView,
    memory: MemoryView,
    hint_ap_tracking: Option<ApTracking>,
) -> Result<Option<Relocatable>, VmErrorView> {
    match reference_base_spec(hint_reference, run_context, hint_ap_tracking) {
        Err(e) => Err(e),
        Ok(Some(Word::Addr(base))) => if hint_reference.offset1 < 0 && base.offset
            < -hint_reference.offset1 {
            Ok(None)
        } else if !hint_reference.inner_dereference {
            Ok(
                address_at(
                    base.segment_index,
                    base.offset + hint_reference.offset1 + hint_reference.offset2,
                ),
            )
        } else {
            match address_at(base.segment_index, base.offset + hint_reference.offset1) {
                Some(address) => match memory.get(address) {
                    Some(Word::Addr(dereferenced)) => Ok(
                        address_at(
                            dereferenced.segment_index,
                            dereferenced.offset + hint_reference.offset2,
                        ),
                    ),
                    _ => Ok(None),
                },
                None => Ok(None),
            }
        },
        Ok(_) => Ok(None),
    }
}

/// The address at `offset` in segment `segment_index`, where `offset` is the
/// offset of a cell.
fn checked_address(segment_index: usize, offset: i128) -> (r: Option<MaybeRelocatable>)
    ensures
        option_word(r) == as_word(address_at(segment_index, offset as int)),
{
    if 0 <= offset && offset <= usize::MAX as i128 {
        Some(
            MaybeRelocatable::RelocatableValue(
                Relocatable { segment_index, offset: offset as usize },
            ),
        )
    } else {
        None
    }
}

/// The address that `hint_reference` names, seen from a hint with the
/// tracking data `hint_ap_tracking`.
pub fn compute_addr_from_reference(
    hint_reference: &HintReference,
    run_context: &RunContext,
    vm: &VirtualMachine,
    hint_ap_tracking: Option<&ApTracking>,
) -> (r: Result<Option<MaybeRelocatable>, VirtualMachineError>)
    ensures
        address_result_view(r) == as_word_result(
            compute_addr_from_reference_spec(
                *hint_reference,
                run_context@,
                vm.memory@,
                tracking_view(hint_ap_tracking),
            ),
        ),
{
    let base_addr: Option<MaybeRelocatable> = match hint_reference.register {
        Register::FP => Some(run_context.fp.clone()),
        Register::AP => {
            match (hint_ap_tracking, &hint_reference.ap_tracking_data) {
                (Some(hint_tracking), Some(ref_tracking)) => {
                    match &run_context.ap {
                        MaybeRelocatable::RelocatableValue(relocatable) => {
                            match apply_ap_tracking_correction(
                                relocatable,
                                ref_tracking,
                                hint_tracking,
                            ) {
                                Ok(base) => base,
                                Err(e) => {
                                    return Err(e);
                                },
                            }
                        },
                        MaybeRelocatable::Int(_) => {
                            return Err(
                                VirtualMachineError::InvalidApValue(run_context.ap.clone()),
                            );
                        },
                    }
                },
                _ => {
                    return Err(VirtualMachineError::NoneApTrackingData);
                },
            }
        },
    };

    if let Some(MaybeRelocatable::RelocatableValue(relocatable)) = base_addr {
        let offset1: i128 = hint_reference.offset1 as i128;
        let offset2: i128 = hint_reference.offset2 as i128;
        if offset1 < 0 && (relocatable.offset as i128) < -offset1 {
            return Ok(None);
        }
        if !hint_reference.inner_dereference {
            return Ok(
                checked_address(
                    relocatable.segment_index,
                    relocatable.offset as i128 + offset1 + offset2,
                ),
            );
        } else {
            let addr = match checked_address(
                relocatable.segment_index,
                relocatable.offset as i128 + offset1,
            ) {
                Some(addr) => addr,
                None => {
                    return Ok(None);
                },
            };

            match vm.memory.get(&addr) {
                Ok(Some(MaybeRelocatable::RelocatableValue(dereferenced_addr))) => {
                    return Ok(
                        checked_address(
                            dereferenced_addr.segment_index,
                            dereferenced_addr.offset as i128 + offset2,
                        ),
                    );
                },
                _none_or_error => {
                    return Ok(None);
                },
            }
        }
    }
    Ok(None)
}

/// The address that the reference with the id `reference_id` names. There is
/// none where the id is no index below the number of references, or none of
/// them has it.
pub open spec fn get_address_from_reference_spec(
    reference_id: int,
    references: Map<usize, HintReference>,
    run_context: RunContextView,
    memory: MemoryView,
    hint_ap_tracking: Option<ApTracking>,
) -> Result<Option<Relocatable>, VmErrorView> {
    if 0 <= reference_id <= usize::MAX && reference_id < references.len()
        && references.contains_key(reference_id as usize) {
        compute_addr_from_reference_spec(
            references[reference_id as usize],
            run_context,
            memory,
            hint_ap_tracking,
        )
    } else {
        Ok(None)
    }
}

/// The address that the reference with the id `reference_id` names.
pub fn get_address_from_reference(
    reference_id: &FieldInt,
    references: &HashMap<usize, HintReference>,
    run_context: &RunContext,
    vm: &VirtualMachine,
    hint_ap_tracking: Option<&ApTracking>,
) -> (r: Result<Option<MaybeRelocatable>, VirtualMachineError>)
    ensures
        address_result_view(r) == as_word_result(
            get_address_from_reference_spec(
                reference_id@,
                references@,
                run_context@,
                vm.memory@,
                tracking_view(hint_ap_tracking),
            ),
        ),
{
    broadcast use vstd::std_specs::hash::group_hash_axioms;

    if let Some(index) = reference_id.to_usize() {
        if index < references.len() {
            if let Some(hint_reference) = references.get(&index) {
                return compute_addr_from_reference(
                    hint_reference,
                    run_context,
                    vm,
                    hint_ap_tracking,
                );
            }
        }
    }
    Ok(None)
}

/// The value of what a hint returns.
pub open spec fn hint_result_view(r: Result<(), VirtualMachineError>) -> Result<(), VmErrorView> {
    match r {
        Ok(()) => Ok(()),
        Err(e) => Err(e@),
    }
}

/// The address that the reference with the id `reference_id` names, where
/// the search for it finds one and does not fail.
pub open spec fn id_address(
    vm: VirtualMachineView,
    reference_id: int,
    hint_ap_tracking: Option<ApTracking>,
) -> Option<Relocatable> {
    match get_address_from_reference_spec(
        reference_id,
        vm.references,
        vm.run_context,
        vm.memory,
        hint_ap_tracking,
    ) {
        Ok(Some(address)) => Some(address),
        _ => None,
    }
}

/// The address that the reference with the id `reference_id` names.
fn address_of_id(
    vm: &VirtualMachine,
    reference_id: &FieldInt,
    hint_ap_tracking: Option<&ApTracking>,
) -> (r: Option<Relocatable>)
    ensures
        r == id_address(vm@, reference_id@, tracking_view(hint_ap_tracking)),
{
    match get_address_from_reference(
        reference_id,
        &vm.references,
        &vm.run_context,
        vm,
        hint_ap_tracking,
    ) {
        Ok(Some(MaybeRelocatable::RelocatableValue(address))) => Some(address),
        _ => None,
    }
}

/// What the cell at `address` holds, if it was written.
fn read_cell(memory: &Memory, address: Relocatable) -> (r: Option<&MaybeRelocatable>)
    ensures
        match r {
            Some(value) => memory@.get(address) == Some(value@),
            None => memory@.get(address) is None,
        },
{
    match memory.get(&MaybeRelocatable::RelocatableValue(address)) {
        Ok(cell) => cell,
        Err(_) => None,
    }
}

/// What a write by a hint returns, and the memory that it leaves.
pub open spec fn hint_insert(memory: MemoryView, key: Word, value: Word) -> (
    Result<(), VmErrorView>,
    MemoryView,
) {
    let written = memory.insert(key, value);
    match written.0 {
        Ok(()) => (Ok(()), written.1),
        Err(e) => (Err(VmErrorView::MemoryError(e)), written.1),
    }
}

/// Writes `value` to the cell at `key` for a hint.
fn insert_for_hint(memory: &mut Memory, key: &MaybeRelocatable, value: MaybeRelocatable) -> (r:
    Result<(), VirtualMachineError>)
    ensures
        (hint_result_view(r), final(memory)@) == hint_insert(old(memory)@, key@, value@),
{
    match memory.insert(key, &value) {
        Ok(()) => Ok(()),
        Err(memory_error) => Err(VirtualMachineError::MemoryError(memory_error)),
    }
}

/// The bound of the first built-in, from `from` on, with the name
/// `range_check`. There is none where that built-in checks no range, or no
/// built-in has the name.
pub open spec fn range_check_bound(builtins: Seq<(Seq<char>, BuiltinRunnerView)>, from: int)
    -> Option<int>
    decreases builtins.len() - from,
{
    if from < 0 || from >= builtins.len() {
        None
    } else if builtins[from].0 == "range_check"@ {
        match builtins[from].1 {
            BuiltinRunnerView::RangeCheck { bound, .. } => Some(bound),
            BuiltinRunnerView::Output { .. } => None,
        }
    } else {
        range_check_bound(builtins, from + 1)
    }
}

/// The bound of the range check of the machine.
fn find_range_check_bound(vm: &VirtualMachine) -> (r: Option<FieldInt>)
    requires
        vm.wf(),
    ensures
        match r {
            Some(bound) => bound@ > 0 && range_check_bound(vm@.builtin_runners, 0)
                == Some(bound@),
            None => range_check_bound(vm@.builtin_runners, 0) is None,
        },
{
    let wanted = String::from_str("range_check");
    let mut i: usize = 0;
    while i < vm.builtin_runners.len()
        invariant
            i <= vm.builtin_runners.len(),
            wanted@ == "range_check"@,
            vm.wf(),
            range_check_bound(vm@.builtin_runners, 0) == range_check_bound(vm@.builtin_runners,
                i as int,
            ),
        decreases vm.builtin_runners.len() - i,
    {
        if vm.builtin_runners[i].0 == wanted {
            match &vm.builtin_runners[i].1 {
                BuiltinRunner::RangeCheck(runner) => {
                    return Some(runner.bound.clone());
                },
                _ => {
                    return None;
                },
            }
        }
        i += 1;
    }
    None
}

/// The characters of each of `names`.
pub open spec fn names_of(names: Seq<&str>) -> Seq<Seq<char>> {
    Seq::new(names.len(), |i: int| names[i]@)
}

/// The error of a hint that was not given the ids it needs.
fn incorrect_ids(needed: Vec<&str>, ids: &HintIds) -> (e: VirtualMachineError)
    ensures
        e@ == VmErrorView::IncorrectIds(names_of(needed@), id_names(ids@)),
{
    let mut names: Vec<String> = Vec::new();
    let mut i: usize = 0;
    while i < needed.len()
        invariant
            i <= needed.len(),
            names@.len() == i,
            forall|k: int| 0 <= k < i ==> names@[k]@ == needed@[k]@,
        decreases needed.len() - i,
    {
        names.push(String::from_str(needed[i]));
        i += 1;
    }
    let given = ids.names();
    proof {
        assert(names_view(names@) =~= names_of(needed@));
        assert(names_view(given@) =~= id_names(ids@));
    }
    VirtualMachineError::IncorrectIds(names, given)
}

/// What [`add_segment`] returns, and the memory that it leaves: one more
/// segment, and its start written to the cell at `ap`.
pub open spec fn add_segment_spec(vm: VirtualMachineView) -> (Result<(), VmErrorView>, MemoryView) {
    hint_insert(
        MemoryView { data: vm.memory.data.push(Seq::empty()), rules: vm.memory.rules },
        vm.run_context.ap,
        Word::Addr(Relocatable { segment_index: vm.num_segments, offset: 0 }),
    )
}

/// Adds a segment to the memory and writes its start to the cell at `ap`.
pub fn add_segment(vm: &mut VirtualMachine) -> (r: Result<(), VirtualMachineError>)
    requires
        old(vm).segments.num_segments < usize::MAX,
    ensures
        (hint_result_view(r), final(vm).memory@) == add_segment_spec(old(vm)@),
        final(vm).segments.num_segments == old(vm).segments.num_segments + 1,
        final(vm).segments.segment_used_sizes == old(vm).segments.segment_used_sizes,
        final(vm).run_context == old(vm).run_context,
        final(vm).prime == old(vm).prime,
        final(vm).builtin_runners == old(vm).builtin_runners,
        final(vm).references == old(vm).references,
        final(vm).trace == old(vm).trace,
        final(vm).program_base == old(vm).program_base,
        final(vm).hints == old(vm).hints,
{
    let new_segment_base = MaybeRelocatable::RelocatableValue(
        vm.segments.add(&mut vm.memory, None),
    );
    insert_for_hint(&mut vm.memory, &vm.run_context.ap, new_segment_base)
}

/// What [`is_nn`] returns, and the memory that it leaves.
pub open spec fn is_nn_spec(
    vm: VirtualMachineView,
    ids: Seq<(Seq<char>, int)>,
    hint_ap_tracking: Option<ApTracking>,
) -> (Result<(), VmErrorView>, MemoryView) {
    let memory = vm.memory;
    match find_id(ids, "a"@, 0) {
        None => (Err(VmErrorView::IncorrectIds(names_of(seq!["a"]), id_names(ids))), memory),
        Some(a_ref) => match id_address(vm, a_ref, hint_ap_tracking) {
            None => (Err(VmErrorView::FailedToGetReference(a_ref)), memory),
            Some(a_addr) => match memory.get(a_addr) {
                None => (Err(VmErrorView::MemoryGet(Word::Addr(a_addr))), memory),
                Some(Word::Addr(_)) => (
                    Err(VmErrorView::ExpectedInteger(Word::Addr(a_addr))),
                    memory,
                ),
                Some(Word::Int(a)) => match range_check_bound(
                    vm.builtin_runners,
                    0,
                ) {
                    None => (Err(VmErrorView::NoRangeCheckBuiltin), memory),
                    Some(bound) => hint_insert(
                        memory,
                        vm.run_context.ap,
                        Word::Int(
                            if floor_mod(a, vm.prime) < bound {
                                0
                            } else {
                                1
                            },
                        ),
                    ),
                },
            },
        },
    }
}

/// Writes 0 to the cell at `ap` where `ids.a`, reduced by the modulus, is
/// below the bound of the range check, and 1 where it is not.
pub fn is_nn(vm: &mut VirtualMachine, ids: HintIds, hint_ap_tracking: Option<&ApTracking>) -> (r:
    Result<(), VirtualMachineError>)
    requires
        old(vm).wf(),
    ensures
        (hint_result_view(r), final(vm).memory@) == is_nn_spec(
            old(vm)@,
            ids@,
            tracking_view(hint_ap_tracking),
        ),
        old(vm).same_but_memory(final(vm)),
{
    let a_ref = match ids.get("a") {
        Some(a_ref) => a_ref,
        None => {
            let needed = vec!["a"];
            assert(needed@ == seq!["a"]);
            return Err(incorrect_ids(needed, &ids));
        },
    };
    let a_addr = match address_of_id(vm, a_ref, hint_ap_tracking) {
        Some(a_addr) => a_addr,
        None => {
            return Err(VirtualMachineError::FailedToGetReference(a_ref.clone()));
        },
    };
    let a_mod = match read_cell(&vm.memory, a_addr) {
        Some(MaybeRelocatable::Int(a)) => a.mod_floor(&vm.prime),
        Some(MaybeRelocatable::RelocatableValue(_)) => {
            return Err(
                VirtualMachineError::ExpectedInteger(MaybeRelocatable::RelocatableValue(a_addr)),
            );
        },
        None => {
            return Err(VirtualMachineError::MemoryGet(MaybeRelocatable::RelocatableValue(a_addr)));
        },
    };
    let bound = match find_range_check_bound(vm) {
        Some(bound) => bound,
        None => {
            return Err(VirtualMachineError::NoRangeCheckBuiltin);
        },
    };
    let value = if !a_mod.is_negative() && a_mod.less_than(&bound) {
        FieldInt::zero()
    } else {
        FieldInt::one()
    };
    insert_for_hint(&mut vm.memory, &vm.run_context.ap, MaybeRelocatable::Int(value))
}

/// What [`is_nn_out_of_range`] returns, and the memory that it leaves.
pub open spec fn is_nn_out_of_range_spec(
    vm: VirtualMachineView,
    ids: Seq<(Seq<char>, int)>,
    hint_ap_tracking: Option<ApTracking>,
) -> (Result<(), VmErrorView>, MemoryView) {
    let memory = vm.memory;
    match find_id(ids, "a"@, 0) {
        None => (Err(VmErrorView::IncorrectIds(names_of(seq!["a"]), id_names(ids))), memory),
        Some(a_ref) => match id_address(vm, a_ref, hint_ap_tracking) {
            None => (Err(VmErrorView::FailedToGetReference(a_ref)), memory),
            Some(a_addr) => match memory.get(a_addr) {
                None => (Err(VmErrorView::MemoryGet(Word::Addr(a_addr))), memory),
                Some(Word::Addr(_)) => (
                    Err(VmErrorView::ExpectedInteger(Word::Addr(a_addr))),
                    memory,
                ),
                Some(Word::Int(a)) => match range_check_bound(
                    vm.builtin_runners,
                    0,
                ) {
                    None => (Err(VmErrorView::NoRangeCheckBuiltin), memory),
                    Some(bound) => hint_insert(
                        memory,
                        vm.run_context.ap,
                        Word::Int(
                            if floor_mod(-a - 1, vm.prime) < bound {
                                0
                            } else {
                                1
                            },
                        ),
                    ),
                },
            },
        },
    }
}

/// Writes 0 to the cell at `ap` where `-ids.a - 1`, reduced by the modulus,
/// is below the bound of the range check, and 1 where it is not.
pub fn is_nn_out_of_range(
    vm: &mut VirtualMachine,
    ids: HintIds,
    hint_ap_tracking: Option<&ApTracking>,
) -> (r: Result<(), VirtualMachineError>)
    requires
        old(vm).wf(),
    ensures
        (hint_result_view(r), final(vm).memory@) == is_nn_out_of_range_spec(
            old(vm)@,
            ids@,
            tracking_view(hint_ap_tracking),
        ),
        old(vm).same_but_memory(final(vm)),
{
    let a_ref = match ids.get("a") {
        Some(a_ref) => a_ref,
        None => {
            let needed = vec!["a"];
            assert(needed@ == seq!["a"]);
            return Err(incorrect_ids(needed, &ids));
        },
    };
    let a_addr = match address_of_id(vm, a_ref, hint_ap_tracking) {
        Some(a_addr) => a_addr,
        None => {
            return Err(VirtualMachineError::FailedToGetReference(a_ref.clone()));
        },
    };
    let shifted = match read_cell(&vm.memory, a_addr) {
        Some(MaybeRelocatable::Int(a)) => a.negated().minus(&FieldInt::one()).mod_floor(
            &vm.prime,
        ),
        Some(MaybeRelocatable::RelocatableValue(_)) => {
            return Err(
                VirtualMachineError::ExpectedInteger(MaybeRelocatable::RelocatableValue(a_addr)),
            );
        },
        None => {
            return Err(VirtualMachineError::MemoryGet(MaybeRelocatable::RelocatableValue(a_addr)));
        },
    };
    let bound = match find_range_check_bound(vm) {
        Some(bound) => bound,
        None => {
            return Err(VirtualMachineError::NoRangeCheckBuiltin);
        },
    };
    let value = if shifted.less_than(&bound) {
        FieldInt::zero()
    } else {
        FieldInt::one()
    };
    insert_for_hint(&mut vm.memory, &vm.run_context.ap, MaybeRelocatable::Int(value))
}

/// What [`assert_le_felt`] returns, and the memory that it leaves.
///
/// `small_inputs` is computed from `a` and `a - b` as they stand in memory,
/// not from what is left of them by the modulus.
pub open spec fn assert_le_felt_spec(
    vm: VirtualMachineView,
    ids: Seq<(Seq<char>, int)>,
    hint_ap_tracking: Option<ApTracking>,
) -> (Result<(), VmErrorView>, MemoryView) {
    let memory = vm.memory;
    match (find_id(ids, "a"@, 0), find_id(ids, "b"@, 0), find_id(ids, "small_inputs"@, 0)) {
        (Some(a_ref), Some(b_ref), Some(small_inputs_ref)) => match (
            id_address(vm, a_ref, hint_ap_tracking),
            id_address(vm, b_ref, hint_ap_tracking),
            id_address(vm, small_inputs_ref, hint_ap_tracking),
        ) {
            (Some(a_addr), Some(b_addr), Some(small_inputs_addr)) => match (
                memory.get(a_addr),
                memory.get(b_addr),
                memory.get(small_inputs_addr),
            ) {
                (Some(Word::Int(a)), Some(Word::Int(b)), None) => match range_check_bound(
                    vm.builtin_runners,
                    0,
                ) {
                    None => (Err(VmErrorView::NoRangeCheckBuiltin), memory),
                    Some(bound) => if floor_mod(a, vm.prime) > floor_mod(b, vm.prime) {
                        (Err(VmErrorView::NonLeFelt(a, b)), memory)
                    } else {
                        hint_insert(
                            memory,
                            Word::Addr(small_inputs_addr),
                            Word::Int(
                                if a < bound && a - b < bound {
                                    1
                                } else {
                                    0
                                },
                            ),
                        )
                    },
                },
                (Some(Word::Addr(_)), Some(_), None) => (
                    Err(VmErrorView::ExpectedInteger(Word::Addr(a_addr))),
                    memory,
                ),
                (Some(Word::Int(_)), Some(Word::Addr(_)), None) => (
                    Err(VmErrorView::ExpectedInteger(Word::Addr(b_addr))),
                    memory,
                ),
                _ => (Err(VmErrorView::FailedToGetIds), memory),
            },
            _ => (Err(VmErrorView::FailedToGetIds), memory),
        },
        _ => (
            Err(
                VmErrorView::IncorrectIds(
                    names_of(seq!["a", "b", "small_inputs"]),
                    id_names(ids),
                ),
            ),
            memory,
        ),
    }
}

/// Fails unless `ids.a` is at most `ids.b` in the field, and writes to
/// `ids.small_inputs`, which must be empty, whether both `a` and `a - b` are
/// below the bound of the range check: 1 where they are, else 0.
pub fn assert_le_felt(
    vm: &mut VirtualMachine,
    ids: HintIds,
    hint_ap_tracking: Option<&ApTracking>,
) -> (r: Result<(), VirtualMachineError>)
    requires
        old(vm).wf(),
    ensures
        (hint_result_view(r), final(vm).memory@) == assert_le_felt_spec(
            old(vm)@,
            ids@,
            tracking_view(hint_ap_tracking),
        ),
        old(vm).same_but_memory(final(vm)),
{
    let (a_ref, b_ref, small_inputs_ref) = match (
        ids.get("a"),
        ids.get("b"),
        ids.get("small_inputs"),
    ) {
        (Some(a_ref), Some(b_ref), Some(small_inputs_ref)) => (a_ref, b_ref, small_inputs_ref),
        _ => {
            let needed = vec!["a", "b", "small_inputs"];
            assert(needed@ == seq!["a", "b", "small_inputs"]);
            return Err(incorrect_ids(needed, &ids));
        },
    };
    let (a_addr, b_addr, small_inputs_addr) = match (
        address_of_id(vm, a_ref, hint_ap_tracking),
        address_of_id(vm, b_ref, hint_ap_tracking),
        address_of_id(vm, small_inputs_ref, hint_ap_tracking),
    ) {
        (Some(a_addr), Some(b_addr), Some(small_inputs_addr)) => (
            a_addr,
            b_addr,
            small_inputs_addr,
        ),
        _ => {
            return Err(VirtualMachineError::FailedToGetIds);
        },
    };
    let value = match (
        read_cell(&vm.memory, a_addr),
        read_cell(&vm.memory, b_addr),
        read_cell(&vm.memory, small_inputs_addr),
    ) {
        (Some(maybe_rel_a), Some(maybe_rel_b), None) => {
            let a = match maybe_rel_a {
                MaybeRelocatable::Int(a) => a,
                _ => {
                    return Err(
                        VirtualMachineError::ExpectedInteger(
                            MaybeRelocatable::RelocatableValue(a_addr),
                        ),
                    );
                },
            };
            let b = match maybe_rel_b {
                MaybeRelocatable::Int(b) => b,
                _ => {
                    return Err(
                        VirtualMachineError::ExpectedInteger(
                            MaybeRelocatable::RelocatableValue(b_addr),
                        ),
                    );
                },
            };
            let bound = match find_range_check_bound(vm) {
                Some(bound) => bound,
                None => {
                    return Err(VirtualMachineError::NoRangeCheckBuiltin);
                },
            };
            if b.mod_floor(&vm.prime).less_than(&a.mod_floor(&vm.prime)) {
                return Err(VirtualMachineError::NonLeFelt(a.clone(), b.clone()));
            }
            if a.less_than(&bound) && a.minus(b).less_than(&bound) {
                FieldInt::one()
            } else {
                FieldInt::zero()
            }
        },
        _ => {
            return Err(VirtualMachineError::FailedToGetIds);
        },
    };
    insert_for_hint(
        &mut vm.memory,
        &MaybeRelocatable::RelocatableValue(small_inputs_addr),
        MaybeRelocatable::Int(value),
    )
}

/// What [`is_le_felt`] returns, and the memory that it leaves.
pub open spec fn is_le_felt_spec(
    vm: VirtualMachineView,
    ids: Seq<(Seq<char>, int)>,
    hint_ap_tracking: Option<ApTracking>,
) -> (Result<(), VmErrorView>, MemoryView) {
    let memory = vm.memory;
    match (find_id(ids, "a"@, 0), find_id(ids, "b"@, 0)) {
        (Some(a_ref), Some(b_ref)) => match (
            id_address(vm, a_ref, hint_ap_tracking),
            id_address(vm, b_ref, hint_ap_tracking),
        ) {
            (Some(a_addr), Some(b_addr)) => match (memory.get(a_addr), memory.get(b_addr)) {
                (Some(Word::Int(a)), Some(Word::Int(b))) => hint_insert(
                    memory,
                    vm.run_context.ap,
                    Word::Int(
                        if floor_mod(a, vm.prime) > floor_mod(b, vm.prime) {
                            1
                        } else {
                            0
                        },
                    ),
                ),
                (Some(Word::Addr(_)), Some(_)) => (
                    Err(VmErrorView::ExpectedInteger(Word::Addr(a_addr))),
                    memory,
                ),
                (Some(Word::Int(_)), Some(Word::Addr(_))) => (
                    Err(VmErrorView::ExpectedInteger(Word::Addr(b_addr))),
                    memory,
                ),
                _ => (Err(VmErrorView::FailedToGetIds), memory),
            },
            _ => (Err(VmErrorView::FailedToGetIds), memory),
        },
        _ => (Err(VmErrorView::IncorrectIds(names_of(seq!["a", "b"]), id_names(ids))), memory),
    }
}

/// Writes 0 to the cell at `ap` where `ids.a` is at most `ids.b` in the
/// field, and 1 where it is not.
pub fn is_le_felt(vm: &mut VirtualMachine, ids: HintIds, hint_ap_tracking: Option<&ApTracking>)
    -> (r: Result<(), VirtualMachineError>)
    requires
        old(vm).wf(),
    ensures
        (hint_result_view(r), final(vm).memory@) == is_le_felt_spec(
            old(vm)@,
            ids@,
            tracking_view(hint_ap_tracking),
        ),
        old(vm).same_but_memory(final(vm)),
{
    let (a_ref, b_ref) = match (ids.get("a"), ids.get("b")) {
        (Some(a_ref), Some(b_ref)) => (a_ref, b_ref),
        _ => {
            let needed = vec!["a", "b"];
            assert(needed@ == seq!["a", "b"]);
            return Err(incorrect_ids(needed, &ids));
        },
    };
    let (a_addr, b_addr) = match (
        address_of_id(vm, a_ref, hint_ap_tracking),
        address_of_id(vm, b_ref, hint_ap_tracking),
    ) {
        (Some(a_addr), Some(b_addr)) => (a_addr, b_addr),
        _ => {
            return Err(VirtualMachineError::FailedToGetIds);
        },
    };
    let value = match (read_cell(&vm.memory, a_addr), read_cell(&vm.memory, b_addr)) {
        (Some(maybe_rel_a), Some(maybe_rel_b)) => {
            let a_mod = match maybe_rel_a {
                MaybeRelocatable::Int(a) => a.mod_floor(&vm.prime),
                MaybeRelocatable::RelocatableValue(_) => {
                    return Err(
                        VirtualMachineError::ExpectedInteger(
                            MaybeRelocatable::RelocatableValue(a_addr),
                        ),
                    );
                },
            };
            let b_mod = match maybe_rel_b {
                MaybeRelocatable::Int(b) => b.mod_floor(&vm.prime),
                MaybeRelocatable::RelocatableValue(_) => {
                    return Err(
                        VirtualMachineError::ExpectedInteger(
                            MaybeRelocatable::RelocatableValue(b_addr),
                        ),
                    );
                },
            };
            if b_mod.less_than(&a_mod) {
                FieldInt::one()
            } else {
                FieldInt::zero()
            }
        },
        _ => {
            return Err(VirtualMachineError::FailedToGetIds);
        },
    };
    insert_for_hint(&mut vm.memory, &vm.run_context.ap, MaybeRelocatable::Int(value))
}

/// What [`assert_not_equal`] returns.
pub open spec fn assert_not_equal_spec(
    vm: VirtualMachineView,
    ids: Seq<(Seq<char>, int)>,
    hint_ap_tracking: Option<ApTracking>,
) -> Result<(), VmErrorView> {
    let memory = vm.memory;
    match (find_id(ids, "a"@, 0), find_id(ids, "b"@, 0)) {
        (Some(a_ref), Some(b_ref)) => match (
            id_address(vm, a_ref, hint_ap_tracking),
            id_address(vm, b_ref, hint_ap_tracking),
        ) {
            (Some(a_addr), Some(b_addr)) => match (memory.get(a_addr), memory.get(b_addr)) {
                (Some(Word::Int(a)), Some(Word::Int(b))) => if floor_mod(a - b, vm.prime) == 0 {
                    Err(VmErrorView::AssertNotEqualFail(Word::Int(a), Word::Int(b)))
                } else {
                    Ok(())
                },
                (Some(Word::Addr(a)), Some(Word::Addr(b))) => if a.segment_index
                    != b.segment_index {
                    Err(VmErrorView::DiffIndexComp(a, b))
                } else if a.offset == b.offset {
                    Err(VmErrorView::AssertNotEqualFail(Word::Addr(a), Word::Addr(b)))
                } else {
                    Ok(())
                },
                (Some(a_value), Some(b_value)) => Err(
                    VmErrorView::DiffTypeComparison(a_value, b_value),
                ),
                _ => Err(VmErrorView::FailedToGetIds),
            },
            _ => Err(VmErrorView::FailedToGetIds),
        },
        _ => Err(VmErrorView::IncorrectIds(names_of(seq!["a", "b"]), id_names(ids))),
    }
}

/// Fails unless `ids.a` and `ids.b` differ: two integers in the field, or
/// two addresses of one segment in their offsets. An integer and an address
/// cannot be compared, nor can addresses of two segments.
pub fn assert_not_equal(
    vm: &mut VirtualMachine,
    ids: HintIds,
    hint_ap_tracking: Option<&ApTracking>,
) -> (r: Result<(), VirtualMachineError>)
    requires
        old(vm).wf(),
    ensures
        hint_result_view(r) == assert_not_equal_spec(
            old(vm)@,
            ids@,
            tracking_view(hint_ap_tracking),
        ),
        *final(vm) == *old(vm),
{
    let (a_ref, b_ref) = match (ids.get("a"), ids.get("b")) {
        (Some(a_ref), Some(b_ref)) => (a_ref, b_ref),
        _ => {
            let needed = vec!["a", "b"];
            assert(needed@ == seq!["a", "b"]);
            return Err(incorrect_ids(needed, &ids));
        },
    };
    let (a_addr, b_addr) = match (
        address_of_id(vm, a_ref, hint_ap_tracking),
        address_of_id(vm, b_ref, hint_ap_tracking),
    ) {
        (Some(a_addr), Some(b_addr)) => (a_addr, b_addr),
        _ => {
            return Err(VirtualMachineError::FailedToGetIds);
        },
    };
    match (read_cell(&vm.memory, a_addr), read_cell(&vm.memory, b_addr)) {
        (Some(maybe_rel_a), Some(maybe_rel_b)) => match (maybe_rel_a, maybe_rel_b) {
            (MaybeRelocatable::Int(a), MaybeRelocatable::Int(b)) => {
                if a.minus(b).is_multiple_of(&vm.prime) {
                    return Err(
                        VirtualMachineError::AssertNotEqualFail(
                            maybe_rel_a.clone(),
                            maybe_rel_b.clone(),
                        ),
                    );
                };
                Ok(())
            },
            (MaybeRelocatable::RelocatableValue(a), MaybeRelocatable::RelocatableValue(b)) => {
                if a.segment_index != b.segment_index {
                    return Err(VirtualMachineError::DiffIndexComp(*a, *b));
                };
                if a.offset == b.offset {
                    return Err(
                        VirtualMachineError::AssertNotEqualFail(
                            maybe_rel_a.clone(),
                            maybe_rel_b.clone(),
                        ),
                    );
                };
                Ok(())
            },
            _ => Err(
                VirtualMachineError::DiffTypeComparison(maybe_rel_a.clone(), maybe_rel_b.clone()),
            ),
        },
        _ => Err(VirtualMachineError::FailedToGetIds),
    }
}

/// What [`assert_nn`] returns.
pub open spec fn assert_nn_spec(
    vm: VirtualMachineView,
    ids: Seq<(Seq<char>, int)>,
    hint_ap_tracking: Option<ApTracking>,
) -> Result<(), VmErrorView> {
    match find_id(ids, "a"@, 0) {
        None => Err(VmErrorView::IncorrectIds(names_of(seq!["a"]), id_names(ids))),
        Some(a_ref) => match id_address(vm, a_ref, hint_ap_tracking) {
            None => Err(VmErrorView::FailedToGetIds),
            Some(a_addr) => match vm.memory.get(a_addr) {
                None => Err(VmErrorView::FailedToGetIds),
                Some(Word::Addr(_)) => Err(VmErrorView::ExpectedInteger(Word::Addr(a_addr))),
                Some(Word::Int(a)) => match range_check_bound(
                    vm.builtin_runners,
                    0,
                ) {
                    None => Err(VmErrorView::NoRangeCheckBuiltin),
                    Some(bound) => if floor_mod(a, vm.prime) < bound {
                        Ok(())
                    } else {
                        Err(VmErrorView::ValueOutOfRange(a))
                    },
                },
            },
        },
    }
}

/// Fails unless `ids.a`, reduced by the modulus, is below the bound of the
/// range check.
pub fn assert_nn(vm: &mut VirtualMachine, ids: HintIds, hint_ap_tracking: Option<&ApTracking>)
    -> (r: Result<(), VirtualMachineError>)
    requires
        old(vm).wf(),
    ensures
        hint_result_view(r) == assert_nn_spec(old(vm)@, ids@, tracking_view(hint_ap_tracking)),
        *final(vm) == *old(vm),
{
    let a_ref = match ids.get("a") {
        Some(a_ref) => a_ref,
        None => {
            let needed = vec!["a"];
            assert(needed@ == seq!["a"]);
            return Err(incorrect_ids(needed, &ids));
        },
    };
    let a_addr = match address_of_id(vm, a_ref, hint_ap_tracking) {
        Some(a_addr) => a_addr,
        None => {
            return Err(VirtualMachineError::FailedToGetIds);
        },
    };
    let maybe_rel_a = match read_cell(&vm.memory, a_addr) {
        Some(maybe_rel_a) => maybe_rel_a,
        None => {
            return Err(VirtualMachineError::FailedToGetIds);
        },
    };
    let a = match maybe_rel_a {
        MaybeRelocatable::Int(a) => a,
        _ => {
            return Err(
                VirtualMachineError::ExpectedInteger(MaybeRelocatable::RelocatableValue(a_addr)),
            );
        },
    };
    let bound = match find_range_check_bound(vm) {
        Some(bound) => bound,
        None => {
            return Err(VirtualMachineError::NoRangeCheckBuiltin);
        },
    };
    if a.mod_floor(&vm.prime).less_than(&bound) {
        Ok(())
    } else {
        Err(VirtualMachineError::ValueOutOfRange(a.clone()))
    }
}

/// What [`assert_not_zero`] returns.
pub open spec fn assert_not_zero_spec(
    vm: VirtualMachineView,
    ids: Seq<(Seq<char>, int)>,
    hint_ap_tracking: Option<ApTracking>,
) -> Result<(), VmErrorView> {
    match find_id(ids, "value"@, 0) {
        None => Err(VmErrorView::IncorrectIds(names_of(seq!["value"]), id_names(ids))),
        Some(value_ref) => match id_address(vm, value_ref, hint_ap_tracking) {
            None => Err(VmErrorView::FailedToGetReference(value_ref)),
            Some(value_addr) => match vm.memory.get(value_addr) {
                None => Err(VmErrorView::FailedToGetIds),
                Some(Word::Addr(_)) => Err(VmErrorView::ExpectedInteger(Word::Addr(value_addr))),
                Some(Word::Int(value)) => if floor_mod(value, vm.prime) == 0 {
                    Err(VmErrorView::AssertNotZero(value, vm.prime))
                } else {
                    Ok(())
                },
            },
        },
    }
}

/// Fails where `ids.value` is zero in the field.
pub fn assert_not_zero(
    vm: &mut VirtualMachine,
    ids: HintIds,
    hint_ap_tracking: Option<&ApTracking>,
) -> (r: Result<(), VirtualMachineError>)
    requires
        old(vm).wf(),
    ensures
        hint_result_view(r) == assert_not_zero_spec(
            old(vm)@,
            ids@,
            tracking_view(hint_ap_tracking),
        ),
        *final(vm) == *old(vm),
{
    let value_ref = match ids.get("value") {
        Some(value_ref) => value_ref,
        None => {
            let needed = vec!["value"];
            assert(needed@ == seq!["value"]);
            return Err(incorrect_ids(needed, &ids));
        },
    };
    let value_addr = match address_of_id(vm, value_ref, hint_ap_tracking) {
        Some(value_addr) => value_addr,
        None => {
            return Err(VirtualMachineError::FailedToGetReference(value_ref.clone()));
        },
    };
    match read_cell(&vm.memory, value_addr) {
        Some(MaybeRelocatable::Int(value)) => {
            if value.is_multiple_of(&vm.prime) {
                Err(VirtualMachineError::AssertNotZero(value.clone(), vm.prime.clone()))
            } else {
                Ok(())
            }
        },
        Some(MaybeRelocatable::RelocatableValue(_)) => Err(
            VirtualMachineError::ExpectedInteger(MaybeRelocatable::RelocatableValue(value_addr)),
        ),
        None => Err(VirtualMachineError::FailedToGetIds),
    }
}

/// What [`split_int_assert_range`] returns.
pub open spec fn split_int_assert_range_spec(
    vm: VirtualMachineView,
    ids: Seq<(Seq<char>, int)>,
    hint_ap_tracking: Option<ApTracking>,
) -> Result<(), VmErrorView> {
    match find_id(ids, "value"@, 0) {
        None => Err(VmErrorView::IncorrectIds(names_of(seq!["value"]), id_names(ids))),
        Some(value_ref) => match id_address(vm, value_ref, hint_ap_tracking) {
            None => Err(VmErrorView::FailedToGetReference(value_ref)),
            Some(value_addr) => match vm.memory.get(value_addr) {
                None => Err(VmErrorView::MemoryGet(Word::Addr(value_addr))),
                Some(Word::Addr(_)) => Err(VmErrorView::ExpectedInteger(Word::Addr(value_addr))),
                Some(Word::Int(value)) => if value != 0 {
                    Err(VmErrorView::SplitIntNotZero)
                } else {
                    Ok(())
                },
            },
        },
    }
}

/// Fails where `ids.value`, what is left of a value once its limbs are split
/// off, is not zero.
pub fn split_int_assert_range(
    vm: &mut VirtualMachine,
    ids: HintIds,
    hint_ap_tracking: Option<&ApTracking>,
) -> (r: Result<(), VirtualMachineError>)
    ensures
        hint_result_view(r) == split_int_assert_range_spec(
            old(vm)@,
            ids@,
            tracking_view(hint_ap_tracking),
        ),
        *final(vm) == *old(vm),
{
    let value_ref = match ids.get("value") {
        Some(value_ref) => value_ref,
        None => {
            let needed = vec!["value"];
            assert(needed@ == seq!["value"]);
            return Err(incorrect_ids(needed, &ids));
        },
    };
    let value_addr = match address_of_id(vm, value_ref, hint_ap_tracking) {
        Some(value_addr) => value_addr,
        None => {
            return Err(VirtualMachineError::FailedToGetReference(value_ref.clone()));
        },
    };
    match read_cell(&vm.memory, value_addr) {
        Some(MaybeRelocatable::Int(value)) => {
            if !value.is_zero() {
                return Err(VirtualMachineError::SplitIntNotZero);
            }
            Ok(())
        },
        Some(MaybeRelocatable::RelocatableValue(_)) => Err(
            VirtualMachineError::ExpectedInteger(MaybeRelocatable::RelocatableValue(value_addr)),
        ),
        None => Err(VirtualMachineError::MemoryGet(MaybeRelocatable::RelocatableValue(value_addr))),
    }
}

/// What [`split_int`] reads: the address held in `ids.output`, and the
/// integers `ids.value`, `ids.base` and `ids.bound`, where the four are
/// there and of these kinds.
pub open spec fn split_int_operands(
    vm: VirtualMachineView,
    ids: Seq<(Seq<char>, int)>,
    hint_ap_tracking: Option<ApTracking>,
) -> Result<(Relocatable, int, int, int), VmErrorView> {
    let memory = vm.memory;
    match (
        find_id(ids, "output"@, 0),
        find_id(ids, "value"@, 0),
        find_id(ids, "base"@, 0),
        find_id(ids, "bound"@, 0),
    ) {
        (Some(output_ref), Some(value_ref), Some(base_ref), Some(bound_ref)) => match (
            id_address(vm, output_ref, hint_ap_tracking),
            id_address(vm, value_ref, hint_ap_tracking),
            id_address(vm, base_ref, hint_ap_tracking),
            id_address(vm, bound_ref, hint_ap_tracking),
        ) {
            (Some(output_addr), Some(value_addr), Some(base_addr), Some(bound_addr)) => match (
                memory.get(output_addr),
                memory.get(value_addr),
                memory.get(base_addr),
                memory.get(bound_addr),
            ) {
                (
                    Some(Word::Addr(output)),
                    Some(Word::Int(value)),
                    Some(Word::Int(base)),
                    Some(Word::Int(bound)),
                ) => Ok((output, value, base, bound)),
                _ => Err(VmErrorView::FailedToGetIds),
            },
            _ => Err(VmErrorView::FailedToGetIds),
        },
        _ => Err(
            VmErrorView::IncorrectIds(
                names_of(seq!["output", "value", "base", "bound"]),
                id_names(ids),
            ),
        ),
    }
}

/// What [`split_int`] returns, and the memory that it leaves.
///
/// A limb equal to the bound is let through.
pub open spec fn split_int_spec(
    vm: VirtualMachineView,
    ids: Seq<(Seq<char>, int)>,
    hint_ap_tracking: Option<ApTracking>,
) -> (Result<(), VmErrorView>, MemoryView) {
    match split_int_operands(vm, ids, hint_ap_tracking) {
        Err(e) => (Err(e), vm.memory),
        Ok((output, value, base, bound)) => {
            let res = floor_mod(floor_mod(value, vm.prime), base);
            if res > bound {
                (Err(VmErrorView::SplitIntLimbOutOfRange(res)), vm.memory)
            } else {
                hint_insert(vm.memory, Word::Addr(output), Word::Int(res))
            }
        },
    }
}

/// The value of what [`split_int`] reads.
pub open spec fn split_int_operands_view(
    r: Result<(Relocatable, FieldInt, FieldInt, FieldInt), VirtualMachineError>,
) -> Result<(Relocatable, int, int, int), VmErrorView> {
    match r {
        Ok(operands) => Ok((operands.0, operands.1@, operands.2@, operands.3@)),
        Err(e) => Err(e@),
    }
}

/// Reads what [`split_int`] computes with: the address held in `ids.output`,
/// and the integers `ids.value`, `ids.base` and `ids.bound`.
pub fn split_int_read(vm: &VirtualMachine, ids: &HintIds, hint_ap_tracking: Option<&ApTracking>)
    -> (r: Result<(Relocatable, FieldInt, FieldInt, FieldInt), VirtualMachineError>)
    ensures
        split_int_operands_view(r) == split_int_operands(
            vm@,
            ids@,
            tracking_view(hint_ap_tracking),
        ),
{
    let (output_ref, value_ref, base_ref, bound_ref) = match (
        ids.get("output"),
        ids.get("value"),
        ids.get("base"),
        ids.get("bound"),
    ) {
        (Some(output_ref), Some(value_ref), Some(base_ref), Some(bound_ref)) => (
            output_ref,
            value_ref,
            base_ref,
            bound_ref,
        ),
        _ => {
            let needed = vec!["output", "value", "base", "bound"];
            assert(needed@ == seq!["output", "value", "base", "bound"]);
            return Err(incorrect_ids(needed, ids));
        },
    };
    let (output_addr, value_addr, base_addr, bound_addr) = match (
        address_of_id(vm, output_ref, hint_ap_tracking),
        address_of_id(vm, value_ref, hint_ap_tracking),
        address_of_id(vm, base_ref, hint_ap_tracking),
        address_of_id(vm, bound_ref, hint_ap_tracking),
    ) {
        (Some(output_addr), Some(value_addr), Some(base_addr), Some(bound_addr)) => (
            output_addr,
            value_addr,
            base_addr,
            bound_addr,
        ),
        _ => {
            return Err(VirtualMachineError::FailedToGetIds);
        },
    };
    match (
        read_cell(&vm.memory, output_addr),
        read_cell(&vm.memory, value_addr),
        read_cell(&vm.memory, base_addr),
        read_cell(&vm.memory, bound_addr),
    ) {
        (
            Some(MaybeRelocatable::RelocatableValue(output)),
            Some(MaybeRelocatable::Int(value)),
            Some(MaybeRelocatable::Int(base)),
            Some(MaybeRelocatable::Int(bound)),
        ) => Ok((*output, value.clone(), base.clone(), bound.clone())),
        _ => Err(VirtualMachineError::FailedToGetIds),
    }
}

/// Writes the lowest limb of `ids.value` in base `ids.base`, which must not
/// be zero, to the cell that `ids.output` points to, and fails where the limb
/// is above `ids.bound`.
pub fn split_int(vm: &mut VirtualMachine, ids: HintIds, hint_ap_tracking: Option<&ApTracking>)
    -> (r: Result<(), VirtualMachineError>)
    requires
        old(vm).wf(),
        split_int_operands(old(vm)@, ids@, tracking_view(hint_ap_tracking)) matches Ok(operands)
            ==> operands.2 != 0,
    ensures
        (hint_result_view(r), final(vm).memory@) == split_int_spec(
            old(vm)@,
            ids@,
            tracking_view(hint_ap_tracking),
        ),
        old(vm).same_but_memory(final(vm)),
{
    let (output, value, base, bound) = match split_int_read(vm, &ids, hint_ap_tracking) {
        Ok(operands) => operands,
        Err(e) => {
            return Err(e);
        },
    };
    let res = value.mod_floor(&vm.prime).mod_floor(&base);
    if bound.less_than(&res) {
        return Err(VirtualMachineError::SplitIntLimbOutOfRange(res));
    }
    insert_for_hint(
        &mut vm.memory,
        &MaybeRelocatable::RelocatableValue(output),
        MaybeRelocatable::Int(res),
    )
}

/// What [`is_positive`] returns, and the memory that it leaves.
///
/// A value whose distance from zero equals the bound of the range check is
/// let through.
pub open spec fn is_positive_spec(
    vm: VirtualMachineView,
    ids: Seq<(Seq<char>, int)>,
    hint_ap_tracking: Option<ApTracking>,
) -> (Result<(), VmErrorView>, MemoryView) {
    let memory = vm.memory;
    match (find_id(ids, "value"@, 0), find_id(ids, "is_positive"@, 0)) {
        (Some(value_ref), Some(is_positive_ref)) => match (
            id_address(vm, value_ref, hint_ap_tracking),
            id_address(vm, is_positive_ref, hint_ap_tracking),
        ) {
            (Some(value_addr), Some(is_positive_addr)) => match memory.get(value_addr) {
                None => (Err(VmErrorView::FailedToGetIds), memory),
                Some(Word::Addr(_)) => (
                    Err(VmErrorView::ExpectedInteger(Word::Addr(value_addr))),
                    memory,
                ),
                Some(Word::Int(value)) => match range_check_bound(
                    vm.builtin_runners,
                    0,
                ) {
                    None => (Err(VmErrorView::NoRangeCheckBuiltin), memory),
                    Some(bound) => {
                        let int_value = as_int_spec(value, vm.prime);
                        if int_value > bound || -int_value > bound {
                            (Err(VmErrorView::ValueOutsideValidRange(int_value)), memory)
                        } else {
                            hint_insert(
                                memory,
                                Word::Addr(is_positive_addr),
                                Word::Int(
                                    if int_value > 0 {
                                        1
                                    } else {
                                        0
                                    },
                                ),
                            )
                        }
                    },
                },
            },
            _ => (Err(VmErrorView::FailedToGetIds), memory),
        },
        _ => (
            Err(VmErrorView::IncorrectIds(names_of(seq!["value", "is_positive"]), id_names(ids))),
            memory,
        ),
    }
}

/// Writes to `ids.is_positive` whether `ids.value`, read with sign, is
/// greater than zero: 1 where it is, else 0.
pub fn is_positive(vm: &mut VirtualMachine, ids: HintIds, hint_ap_tracking: Option<&ApTracking>)
    -> (r: Result<(), VirtualMachineError>)
    requires
        old(vm).wf(),
    ensures
        (hint_result_view(r), final(vm).memory@) == is_positive_spec(
            old(vm)@,
            ids@,
            tracking_view(hint_ap_tracking),
        ),
        old(vm).same_but_memory(final(vm)),
{
    let (value_ref, is_positive_ref) = match (ids.get("value"), ids.get("is_positive")) {
        (Some(value_ref), Some(is_positive_ref)) => (value_ref, is_positive_ref),
        _ => {
            let needed = vec!["value", "is_positive"];
            assert(needed@ == seq!["value", "is_positive"]);
            return Err(incorrect_ids(needed, &ids));
        },
    };
    let (value_addr, is_positive_addr) = match (
        address_of_id(vm, value_ref, hint_ap_tracking),
        address_of_id(vm, is_positive_ref, hint_ap_tracking),
    ) {
        (Some(value_addr), Some(is_positive_addr)) => (value_addr, is_positive_addr),
        _ => {
            return Err(VirtualMachineError::FailedToGetIds);
        },
    };
    let result = match read_cell(&vm.memory, value_addr) {
        Some(MaybeRelocatable::Int(value)) => {
            let bound = match find_range_check_bound(vm) {
                Some(bound) => bound,
                None => {
                    return Err(VirtualMachineError::NoRangeCheckBuiltin);
                },
            };
            let int_value = as_int(value, &vm.prime);
            if bound.less_than(&int_value.abs()) {
                return Err(VirtualMachineError::ValueOutsideValidRange(int_value));
            }
            if int_value.is_positive() {
                FieldInt::one()
            } else {
                FieldInt::zero()
            }
        },
        Some(MaybeRelocatable::RelocatableValue(_)) => {
            return Err(
                VirtualMachineError::ExpectedInteger(
                    MaybeRelocatable::RelocatableValue(value_addr),
                ),
            );
        },
        None => {
            return Err(VirtualMachineError::FailedToGetIds);
        },
    };
    insert_for_hint(
        &mut vm.memory,
        &MaybeRelocatable::RelocatableValue(is_positive_addr),
        MaybeRelocatable::Int(result),
    )
}

/// What two writes by a hint return, and the memory that they leave. The
/// second is made whatever came of the first, and the first failure is the
/// one returned.
pub open spec fn hint_insert_both(
    memory: MemoryView,
    first_key: Word,
    first_value: Word,
    second_key: Word,
    second_value: Word,
) -> (Result<(), VmErrorView>, MemoryView) {
    let first = hint_insert(memory, first_key, first_value);
    let second = hint_insert(first.1, second_key, second_value);
    if first.0 is Err {
        (first.0, second.1)
    } else {
        second
    }
}

/// Makes two writes for a hint.
fn insert_both_for_hint(
    memory: &mut Memory,
    first_key: Relocatable,
    first_value: FieldInt,
    second_key: Relocatable,
    second_value: FieldInt,
) -> (r: Result<(), VirtualMachineError>)
    ensures
        (hint_result_view(r), final(memory)@) == hint_insert_both(
            old(memory)@,
            Word::Addr(first_key),
            Word::Int(first_value@),
            Word::Addr(second_key),
            Word::Int(second_value@),
        ),
{
    let first = insert_for_hint(
        memory,
        &MaybeRelocatable::RelocatableValue(first_key),
        MaybeRelocatable::Int(first_value),
    );
    let second = insert_for_hint(
        memory,
        &MaybeRelocatable::RelocatableValue(second_key),
        MaybeRelocatable::Int(second_value),
    );
    match (first, second) {
        (Ok(()), Ok(())) => Ok(()),
        (Err(e), _) => Err(e),
        (_, Err(e)) => Err(e),
    }
}

/// What [`split_felt`] returns, and the memory that it leaves.
///
/// That the constants `MAX_HIGH` and `MAX_LOW` of a program give the modulus
/// less one, as `MAX_HIGH * 2^128 + MAX_LOW`, is not checked: a hint is given
/// the ids of references, and the constants of a program are none.
pub open spec fn split_felt_spec(
    vm: VirtualMachineView,
    ids: Seq<(Seq<char>, int)>,
    hint_ap_tracking: Option<ApTracking>,
) -> (Result<(), VmErrorView>, MemoryView) {
    let memory = vm.memory;
    match (find_id(ids, "high"@, 0), find_id(ids, "low"@, 0), find_id(ids, "value"@, 0)) {
        (Some(high_ref), Some(low_ref), Some(value_ref)) => match (
            id_address(vm, high_ref, hint_ap_tracking),
            id_address(vm, low_ref, hint_ap_tracking),
            id_address(vm, value_ref, hint_ap_tracking),
        ) {
            (Some(high_addr), Some(low_addr), Some(value_addr)) => match memory.get(value_addr) {
                Some(Word::Int(value)) => hint_insert_both(
                    memory,
                    Word::Addr(low_addr),
                    Word::Int(int_bitand(value, pow2(128) - 1)),
                    Word::Addr(high_addr),
                    Word::Int(value / (pow2(128) as int)),
                ),
                Some(Word::Addr(_)) => (
                    Err(VmErrorView::ExpectedInteger(Word::Addr(value_addr))),
                    memory,
                ),
                None => (Err(VmErrorView::FailedToGetIds), memory),
            },
            _ => (Err(VmErrorView::FailedToGetIds), memory),
        },
        _ => (
            Err(VmErrorView::IncorrectIds(names_of(seq!["high", "low", "value"]), id_names(ids))),
            memory,
        ),
    }
}

/// Splits `ids.value` into its lowest 128 bits, written to `ids.low`, and
/// what lies above them, written to `ids.high`, so that `high * 2^128 + low`
/// is the value
/// ([`lemma_low_and_high_bits`](crate::types::field_int::lemma_low_and_high_bits)).
///
/// The constants `MAX_HIGH` and `MAX_LOW` of the program are not read, and
/// what they must satisfy is not checked.
pub fn split_felt(vm: &mut VirtualMachine, ids: HintIds, hint_ap_tracking: Option<&ApTracking>)
    -> (r: Result<(), VirtualMachineError>)
    ensures
        (hint_result_view(r), final(vm).memory@) == split_felt_spec(
            old(vm)@,
            ids@,
            tracking_view(hint_ap_tracking),
        ),
        old(vm).same_but_memory(final(vm)),
{
    let (high_ref, low_ref, value_ref) = match (
        ids.get("high"),
        ids.get("low"),
        ids.get("value"),
    ) {
        (Some(high_ref), Some(low_ref), Some(value_ref)) => (high_ref, low_ref, value_ref),
        _ => {
            let needed = vec!["high", "low", "value"];
            assert(needed@ == seq!["high", "low", "value"]);
            return Err(incorrect_ids(needed, &ids));
        },
    };
    let (high_addr, low_addr, value_addr) = match (
        address_of_id(vm, high_ref, hint_ap_tracking),
        address_of_id(vm, low_ref, hint_ap_tracking),
        address_of_id(vm, value_ref, hint_ap_tracking),
    ) {
        (Some(high_addr), Some(low_addr), Some(value_addr)) => (high_addr, low_addr, value_addr),
        _ => {
            return Err(VirtualMachineError::FailedToGetIds);
        },
    };
    let (low, high) = match read_cell(&vm.memory, value_addr) {
        Some(MaybeRelocatable::Int(value)) => {
            let one = FieldInt::one();
            let low = value.bitand(&one.shl(128).minus(&one));
            let high = value.shr(128);
            (low, high)
        },
        Some(MaybeRelocatable::RelocatableValue(_)) => {
            return Err(
                VirtualMachineError::ExpectedInteger(
                    MaybeRelocatable::RelocatableValue(value_addr),
                ),
            );
        },
        None => {
            return Err(VirtualMachineError::FailedToGetIds);
        },
    };
    insert_both_for_hint(&mut vm.memory, low_addr, low, high_addr, high)
}

/// What [`sqrt`] returns, and the memory that it leaves.
pub open spec fn sqrt_spec(
    vm: VirtualMachineView,
    ids: Seq<(Seq<char>, int)>,
    hint_ap_tracking: Option<ApTracking>,
) -> (Result<(), VmErrorView>, MemoryView) {
    let memory = vm.memory;
    match (find_id(ids, "value"@, 0), find_id(ids, "root"@, 0)) {
        (Some(value_ref), Some(root_ref)) => match (
            id_address(vm, value_ref, hint_ap_tracking),
            id_address(vm, root_ref, hint_ap_tracking),
        ) {
            (Some(value_addr), Some(root_addr)) => match memory.get(value_addr) {
                None => (Err(VmErrorView::FailedToGetIds), memory),
                Some(Word::Addr(_)) => (
                    Err(VmErrorView::ExpectedInteger(Word::Addr(value_addr))),
                    memory,
                ),
                Some(Word::Int(value)) => {
                    let mod_value = floor_mod(value, vm.prime);
                    if mod_value >= pow2(250) {
                        (Err(VmErrorView::ValueOutside250BitRange(mod_value)), memory)
                    } else {
                        hint_insert(
                            memory,
                            Word::Addr(root_addr),
                            Word::Int(isqrt_spec(mod_value)),
                        )
                    }
                },
            },
            _ => (Err(VmErrorView::FailedToGetIds), memory),
        },
        _ => (
            Err(VmErrorView::IncorrectIds(names_of(seq!["value", "root"]), id_names(ids))),
            memory,
        ),
    }
}

/// Writes to `ids.root` the integer square root of `ids.value`, which must
/// be below 2^250 in the field.
pub fn sqrt(vm: &mut VirtualMachine, ids: HintIds, hint_ap_tracking: Option<&ApTracking>) -> (r:
    Result<(), VirtualMachineError>)
    requires
        old(vm).wf(),
    ensures
        (hint_result_view(r), final(vm).memory@) == sqrt_spec(
            old(vm)@,
            ids@,
            tracking_view(hint_ap_tracking),
        ),
        old(vm).same_but_memory(final(vm)),
{
    let (value_ref, root_ref) = match (ids.get("value"), ids.get("root")) {
        (Some(value_ref), Some(root_ref)) => (value_ref, root_ref),
        _ => {
            let needed = vec!["value", "root"];
            assert(needed@ == seq!["value", "root"]);
            return Err(incorrect_ids(needed, &ids));
        },
    };
    let (value_addr, root_addr) = match (
        address_of_id(vm, value_ref, hint_ap_tracking),
        address_of_id(vm, root_ref, hint_ap_tracking),
    ) {
        (Some(value_addr), Some(root_addr)) => (value_addr, root_addr),
        _ => {
            return Err(VirtualMachineError::FailedToGetIds);
        },
    };
    let root = match read_cell(&vm.memory, value_addr) {
        Some(MaybeRelocatable::Int(value)) => {
            let mod_value = value.mod_floor(&vm.prime);
            proof {
                lemma_shifted_out(mod_value@, 250);
            }
            if mod_value.shr(250).is_positive() {
                return Err(VirtualMachineError::ValueOutside250BitRange(mod_value));
            }
            match isqrt(&mod_value) {
                Ok(root) => root,
                Err(e) => {
                    return Err(e);
                },
            }
        },
        Some(MaybeRelocatable::RelocatableValue(_)) => {
            return Err(
                VirtualMachineError::ExpectedInteger(
                    MaybeRelocatable::RelocatableValue(value_addr),
                ),
            );
        },
        None => {
            return Err(VirtualMachineError::FailedToGetIds);
        },
    };
    insert_for_hint(
        &mut vm.memory,
        &MaybeRelocatable::RelocatableValue(root_addr),
        MaybeRelocatable::Int(root),
    )
}

/// A value that is not negative is below two to the `n` just where nothing
/// is left of it once `n` bits are shifted out.
pub proof fn lemma_shifted_out(value: int, n: nat)
    requires
        value >= 0,
    ensures
        value / (pow2(n) as int) > 0 <==> value >= pow2(n),
        value / (pow2(n) as int) >= 0,
{
    vstd::arithmetic::power2::lemma_pow2_pos(n);
    let d = pow2(n) as int;
    vstd::arithmetic::div_mod::lemma_fundamental_div_mod(value, d);
    vstd::arithmetic::div_mod::lemma_mod_bound(value, d);
    vstd::arithmetic::div_mod::lemma_div_pos_is_pos(value, d);
    if value >= d {
        vstd::arithmetic::div_mod::lemma_div_is_ordered(d, value, d);
        vstd::arithmetic::div_mod::lemma_div_by_self(d);
    } else {
        vstd::arithmetic::div_mod::lemma_basic_div(value, d);
    }
}

/// What [`signed_div_rem`] computes once it has found its ids in memory and
/// the bound `rc_bound` of the range check: the quotient of `value`, read
/// with sign, by `div`, moved up by `bound`, and the remainder.
pub open spec fn signed_div_rem_outcome(
    vm: VirtualMachineView,
    r_addr: Relocatable,
    biased_q_addr: Relocatable,
    div: (Relocatable, Word),
    value: (Relocatable, Word),
    bound: (Relocatable, Word),
    rc_bound: int,
) -> (Result<(), VmErrorView>, MemoryView) {
    let memory = vm.memory;
    match div.1 {
        Word::Addr(_) => (Err(VmErrorView::ExpectedInteger(Word::Addr(div.0))), memory),
        Word::Int(div) => if div <= 0 || div > floor_div(vm.prime, rc_bound) {
            (Err(VmErrorView::OutOfValidRange(div, floor_div(vm.prime, rc_bound))), memory)
        } else {
            match bound.1 {
                Word::Addr(_) => (
                    Err(VmErrorView::ExpectedInteger(Word::Addr(bound.0))),
                    memory,
                ),
                Word::Int(bound) => if bound > rc_bound / 2 {
                    (Err(VmErrorView::OutOfValidRange(bound, rc_bound / 2)), memory)
                } else {
                    match value.1 {
                        Word::Addr(_) => (
                            Err(VmErrorView::ExpectedInteger(Word::Addr(value.0))),
                            memory,
                        ),
                        Word::Int(value) => {
                            let int_value = as_int_spec(value, vm.prime);
                            let q = floor_div(int_value, div);
                            let r = floor_mod(int_value, div);
                            if -bound > q || q >= bound {
                                (Err(VmErrorView::OutOfValidRange(q, bound)), memory)
                            } else {
                                hint_insert_both(
                                    memory,
                                    Word::Addr(r_addr),
                                    Word::Int(r),
                                    Word::Addr(biased_q_addr),
                                    Word::Int(q + bound),
                                )
                            }
                        },
                    }
                },
            }
        },
    }
}

/// What [`signed_div_rem`] returns, and the memory that it leaves.
pub open spec fn signed_div_rem_spec(
    vm: VirtualMachineView,
    ids: Seq<(Seq<char>, int)>,
    hint_ap_tracking: Option<ApTracking>,
) -> (Result<(), VmErrorView>, MemoryView) {
    let memory = vm.memory;
    match (
        find_id(ids, "r"@, 0),
        find_id(ids, "biased_q"@, 0),
        find_id(ids, "range_check_ptr"@, 0),
        find_id(ids, "div"@, 0),
        find_id(ids, "value"@, 0),
        find_id(ids, "bound"@, 0),
    ) {
        (
            Some(r_ref),
            Some(biased_q_ref),
            Some(range_check_ptr_ref),
            Some(div_ref),
            Some(value_ref),
            Some(bound_ref),
        ) => match (
            id_address(vm, r_ref, hint_ap_tracking),
            id_address(vm, biased_q_ref, hint_ap_tracking),
            id_address(vm, range_check_ptr_ref, hint_ap_tracking),
            id_address(vm, div_ref, hint_ap_tracking),
            id_address(vm, value_ref, hint_ap_tracking),
            id_address(vm, bound_ref, hint_ap_tracking),
        ) {
            (
                Some(r_addr),
                Some(biased_q_addr),
                Some(_),
                Some(div_addr),
                Some(value_addr),
                Some(bound_addr),
            ) => match (memory.get(div_addr), memory.get(value_addr), memory.get(bound_addr)) {
                (Some(div), Some(value), Some(bound)) => match range_check_bound(
                    vm.builtin_runners,
                    0,
                ) {
                    None => (Err(VmErrorView::NoRangeCheckBuiltin), memory),
                    Some(rc_bound) => signed_div_rem_outcome(
                        vm,
                        r_addr,
                        biased_q_addr,
                        (div_addr, div),
                        (value_addr, value),
                        (bound_addr, bound),
                        rc_bound,
                    ),
                },
                _ => (Err(VmErrorView::FailedToGetIds), memory),
            },
            _ => (Err(VmErrorView::FailedToGetIds), memory),
        },
        _ => (
            Err(
                VmErrorView::IncorrectIds(
                    names_of(seq!["r", "biased_q", "range_check_ptr", "div", "value", "bound"]),
                    id_names(ids),
                ),
            ),
            memory,
        ),
    }
}

/// Divides `ids.value`, read with sign, by `ids.div`, rounding towards
/// negative infinity, and writes the remainder to `ids.r` and the quotient
/// plus `ids.bound` to `ids.biased_q`.
///
/// `div` must be greater than zero and at most the modulus divided by the
/// bound of the range check, `bound` at most half of that bound, and the
/// quotient at least `-bound` and below `bound`.
pub fn signed_div_rem(
    vm: &mut VirtualMachine,
    ids: HintIds,
    hint_ap_tracking: Option<&ApTracking>,
) -> (r: Result<(), VirtualMachineError>)
    requires
        old(vm).wf(),
    ensures
        (hint_result_view(r), final(vm).memory@) == signed_div_rem_spec(
            old(vm)@,
            ids@,
            tracking_view(hint_ap_tracking),
        ),
        old(vm).same_but_memory(final(vm)),
{
    let (r_ref, biased_q_ref, range_check_ptr_ref, div_ref, value_ref, bound_ref) = match (
        ids.get("r"),
        ids.get("biased_q"),
        ids.get("range_check_ptr"),
        ids.get("div"),
        ids.get("value"),
        ids.get("bound"),
    ) {
        (
            Some(r_ref),
            Some(biased_q_ref),
            Some(range_check_ptr_ref),
            Some(div_ref),
            Some(value_ref),
            Some(bound_ref),
        ) => (r_ref, biased_q_ref, range_check_ptr_ref, div_ref, value_ref, bound_ref),
        _ => {
            let needed = vec!["r", "biased_q", "range_check_ptr", "div", "value", "bound"];
            assert(needed@ == seq!["r", "biased_q", "range_check_ptr", "div", "value", "bound"]);
            return Err(incorrect_ids(needed, &ids));
        },
    };
    let (r_addr, biased_q_addr, div_addr, value_addr, bound_addr) = match (
        address_of_id(vm, r_ref, hint_ap_tracking),
        address_of_id(vm, biased_q_ref, hint_ap_tracking),
        address_of_id(vm, range_check_ptr_ref, hint_ap_tracking),
        address_of_id(vm, div_ref, hint_ap_tracking),
        address_of_id(vm, value_ref, hint_ap_tracking),
        address_of_id(vm, bound_ref, hint_ap_tracking),
    ) {
        (
            Some(r_addr),
            Some(biased_q_addr),
            Some(_),
            Some(div_addr),
            Some(value_addr),
            Some(bound_addr),
        ) => (r_addr, biased_q_addr, div_addr, value_addr, bound_addr),
        _ => {
            return Err(VirtualMachineError::FailedToGetIds);
        },
    };
    let (r, biased_q) = match (
        read_cell(&vm.memory, div_addr),
        read_cell(&vm.memory, value_addr),
        read_cell(&vm.memory, bound_addr),
    ) {
        (Some(maybe_rel_div), Some(maybe_rel_value), Some(maybe_rel_bound)) => {
            let rc_bound = match find_range_check_bound(vm) {
                Some(rc_bound) => rc_bound,
                None => {
                    return Err(VirtualMachineError::NoRangeCheckBuiltin);
                },
            };
            let div = match maybe_rel_div {
                MaybeRelocatable::Int(div) => div,
                _ => {
                    return Err(
                        VirtualMachineError::ExpectedInteger(
                            MaybeRelocatable::RelocatableValue(div_addr),
                        ),
                    );
                },
            };
            let div_limit = vm.prime.div_floor(&rc_bound);
            if !div.is_positive() || div_limit.less_than(div) {
                return Err(VirtualMachineError::OutOfValidRange(div.clone(), div_limit));
            }
            let bound = match maybe_rel_bound {
                MaybeRelocatable::Int(bound) => bound,
                _ => {
                    return Err(
                        VirtualMachineError::ExpectedInteger(
                            MaybeRelocatable::RelocatableValue(bound_addr),
                        ),
                    );
                },
            };
            let bound_limit = rc_bound.shr(1);
            proof {
                vstd::arithmetic::power2::lemma2_to64();
            }
            if bound_limit.less_than(bound) {
                return Err(VirtualMachineError::OutOfValidRange(bound.clone(), bound_limit));
            }
            let value = match maybe_rel_value {
                MaybeRelocatable::Int(value) => value,
                _ => {
                    return Err(
                        VirtualMachineError::ExpectedInteger(
                            MaybeRelocatable::RelocatableValue(value_addr),
                        ),
                    );
                },
            };
            let int_value = as_int(value, &vm.prime);
            let (q, r) = int_value.div_mod_floor(div);
            if q.less_than(&bound.negated()) || bound.at_most(&q) {
                return Err(VirtualMachineError::OutOfValidRange(q, bound.clone()));
            }
            (r, q.plus(bound))
        },
        _ => {
            return Err(VirtualMachineError::FailedToGetIds);
        },
    };
    insert_both_for_hint(&mut vm.memory, r_addr, r, biased_q_addr, biased_q)
}

/// What [`unsigned_div_rem`] returns, and the memory that it leaves.
pub open spec fn unsigned_div_rem_spec(
    vm: VirtualMachineView,
    ids: Seq<(Seq<char>, int)>,
    hint_ap_tracking: Option<ApTracking>,
) -> (Result<(), VmErrorView>, MemoryView) {
    let memory = vm.memory;
    match (
        find_id(ids, "r"@, 0),
        find_id(ids, "q"@, 0),
        find_id(ids, "div"@, 0),
        find_id(ids, "value"@, 0),
    ) {
        (Some(r_ref), Some(q_ref), Some(div_ref), Some(value_ref)) => match (
            id_address(vm, r_ref, hint_ap_tracking),
            id_address(vm, q_ref, hint_ap_tracking),
            id_address(vm, div_ref, hint_ap_tracking),
            id_address(vm, value_ref, hint_ap_tracking),
        ) {
            (Some(r_addr), Some(q_addr), Some(div_addr), Some(value_addr)) => match (
                memory.get(div_addr),
                memory.get(value_addr),
            ) {
                (Some(Word::Addr(_)), Some(_)) => (
                    Err(VmErrorView::ExpectedInteger(Word::Addr(div_addr))),
                    memory,
                ),
                (Some(Word::Int(div)), Some(value)) => match range_check_bound(
                    vm.builtin_runners,
                    0,
                ) {
                    None => (Err(VmErrorView::NoRangeCheckBuiltin), memory),
                    Some(bound) => if div <= 0 || div > floor_div(vm.prime, bound) {
                        (
                            Err(VmErrorView::OutOfValidRange(div, floor_div(vm.prime, bound))),
                            memory,
                        )
                    } else {
                        match value {
                            Word::Addr(_) => (
                                Err(VmErrorView::ExpectedInteger(Word::Addr(value_addr))),
                                memory,
                            ),
                            Word::Int(value) => hint_insert_both(
                                memory,
                                Word::Addr(r_addr),
                                Word::Int(floor_mod(value, div)),
                                Word::Addr(q_addr),
                                Word::Int(floor_div(value, div)),
                            ),
                        }
                    },
                },
                _ => (Err(VmErrorView::FailedToGetIds), memory),
            },
            _ => (Err(VmErrorView::FailedToGetIds), memory),
        },
        _ => (
            Err(
                VmErrorView::IncorrectIds(
                    names_of(seq!["r", "q", "div", "value"]),
                    id_names(ids),
                ),
            ),
            memory,
        ),
    }
}

/// Divides `ids.value` by `ids.div` and writes the remainder to `ids.r` and
/// the quotient to `ids.q`, so that `q * div + r` is the value and `r` is at
/// least zero and below `div`
/// ([`lemma_floor_div_mod`](crate::types::field_int::lemma_floor_div_mod)).
/// `div` must be greater than zero and at most the modulus divided by the
/// bound of the range check, which is the built-in with the name
/// `range_check`, wherever it stands among the built-ins.
pub fn unsigned_div_rem(
    vm: &mut VirtualMachine,
    ids: HintIds,
    hint_ap_tracking: Option<&ApTracking>,
) -> (r: Result<(), VirtualMachineError>)
    requires
        old(vm).wf(),
    ensures
        (hint_result_view(r), final(vm).memory@) == unsigned_div_rem_spec(
            old(vm)@,
            ids@,
            tracking_view(hint_ap_tracking),
        ),
        old(vm).same_but_memory(final(vm)),
{
    let (r_ref, q_ref, div_ref, value_ref) = match (
        ids.get("r"),
        ids.get("q"),
        ids.get("div"),
        ids.get("value"),
    ) {
        (Some(r_ref), Some(q_ref), Some(div_ref), Some(value_ref)) => (
            r_ref,
            q_ref,
            div_ref,
            value_ref,
        ),
        _ => {
            let needed = vec!["r", "q", "div", "value"];
            assert(needed@ == seq!["r", "q", "div", "value"]);
            return Err(incorrect_ids(needed, &ids));
        },
    };
    let (r_addr, q_addr, div_addr, value_addr) = match (
        address_of_id(vm, r_ref, hint_ap_tracking),
        address_of_id(vm, q_ref, hint_ap_tracking),
        address_of_id(vm, div_ref, hint_ap_tracking),
        address_of_id(vm, value_ref, hint_ap_tracking),
    ) {
        (Some(r_addr), Some(q_addr), Some(div_addr), Some(value_addr)) => (
            r_addr,
            q_addr,
            div_addr,
            value_addr,
        ),
        _ => {
            return Err(VirtualMachineError::FailedToGetIds);
        },
    };
    let (r, q) = match (read_cell(&vm.memory, div_addr), read_cell(&vm.memory, value_addr)) {
        (Some(maybe_rel_div), Some(value)) => {
            let div = match maybe_rel_div {
                MaybeRelocatable::Int(div) => div,
                _ => {
                    return Err(
                        VirtualMachineError::ExpectedInteger(
                            MaybeRelocatable::RelocatableValue(div_addr),
                        ),
                    );
                },
            };
            let bound = match find_range_check_bound(vm) {
                Some(bound) => bound,
                None => {
                    return Err(VirtualMachineError::NoRangeCheckBuiltin);
                },
            };
            let div_limit = vm.prime.div_floor(&bound);
            if !div.is_positive() || div_limit.less_than(div) {
                return Err(VirtualMachineError::OutOfValidRange(div.clone(), div_limit));
            }
            match value {
                MaybeRelocatable::Int(value) => {
                    let (q, r) = value.div_mod_floor(div);
                    (r, q)
                },
                MaybeRelocatable::RelocatableValue(_) => {
                    return Err(
                        VirtualMachineError::ExpectedInteger(
                            MaybeRelocatable::RelocatableValue(value_addr),
                        ),
                    );
                },
            }
        },
        _ => {
            return Err(VirtualMachineError::FailedToGetIds);
        },
    };
    insert_both_for_hint(&mut vm.memory, r_addr, r, q_addr, q)
}

/// What two writes by a hint return, and the memory that they leave, where
/// the second is made only after the first went well.
pub open spec fn hint_insert_in_turn(
    memory: MemoryView,
    first_key: Word,
    first_value: Word,
    second_key: Word,
    second_value: Word,
) -> (Result<(), VmErrorView>, MemoryView) {
    let first = hint_insert(memory, first_key, first_value);
    if first.0 is Err {
        first
    } else {
        hint_insert(first.1, second_key, second_value)
    }
}

/// What [`assert_250_bit`] returns, and the memory that it leaves.
pub open spec fn assert_250_bit_spec(
    vm: VirtualMachineView,
    ids: Seq<(Seq<char>, int)>,
    hint_ap_tracking: Option<ApTracking>,
) -> (Result<(), VmErrorView>, MemoryView) {
    let memory = vm.memory;
    match (find_id(ids, "value"@, 0), find_id(ids, "high"@, 0), find_id(ids, "low"@, 0)) {
        (Some(value_ref), Some(high_ref), Some(low_ref)) => match (
            id_address(vm, value_ref, hint_ap_tracking),
            id_address(vm, high_ref, hint_ap_tracking),
            id_address(vm, low_ref, hint_ap_tracking),
        ) {
            (Some(value_addr), Some(high_addr), Some(low_addr)) => match memory.get(value_addr) {
                None => (Err(VmErrorView::MemoryGet(Word::Addr(value_addr))), memory),
                Some(Word::Addr(_)) => (
                    Err(VmErrorView::ExpectedInteger(Word::Addr(value_addr))),
                    memory,
                ),
                Some(Word::Int(value)) => {
                    let int_value = floor_mod(as_int_spec(value, vm.prime), vm.prime);
                    if int_value > pow2(250) {
                        (Err(VmErrorView::ValueOutside250BitRange(int_value)), memory)
                    } else {
                        hint_insert_in_turn(
                            memory,
                            Word::Addr(high_addr),
                            Word::Int(int_value / (pow2(128) as int)),
                            Word::Addr(low_addr),
                            Word::Int(int_value % (pow2(128) as int)),
                        )
                    }
                },
            },
            _ => (Err(VmErrorView::FailedToGetIds), memory),
        },
        _ => (
            Err(VmErrorView::IncorrectIds(names_of(seq!["value", "high", "low"]), id_names(ids))),
            memory,
        ),
    }
}

/// Fails where `ids.value` is above 2^250 in the field, and else writes its
/// quotient by 2^128 to `ids.high` and the remainder to `ids.low`.
pub fn assert_250_bit(
    vm: &mut VirtualMachine,
    ids: HintIds,
    hint_ap_tracking: Option<&ApTracking>,
) -> (r: Result<(), VirtualMachineError>)
    requires
        old(vm).wf(),
    ensures
        (hint_result_view(r), final(vm).memory@) == assert_250_bit_spec(
            old(vm)@,
            ids@,
            tracking_view(hint_ap_tracking),
        ),
        old(vm).same_but_memory(final(vm)),
{
    let upper_bound = FieldInt::one().shl(250);
    let shift = FieldInt::one().shl(128);
    proof {
        vstd::arithmetic::power2::lemma_pow2_pos(128);
    }
    let (value_ref, high_ref, low_ref) = match (
        ids.get("value"),
        ids.get("high"),
        ids.get("low"),
    ) {
        (Some(value_ref), Some(high_ref), Some(low_ref)) => (value_ref, high_ref, low_ref),
        _ => {
            let needed = vec!["value", "high", "low"];
            assert(needed@ == seq!["value", "high", "low"]);
            return Err(incorrect_ids(needed, &ids));
        },
    };
    let (value_addr, high_addr, low_addr) = match (
        address_of_id(vm, value_ref, hint_ap_tracking),
        address_of_id(vm, high_ref, hint_ap_tracking),
        address_of_id(vm, low_ref, hint_ap_tracking),
    ) {
        (Some(value_addr), Some(high_addr), Some(low_addr)) => (value_addr, high_addr, low_addr),
        _ => {
            return Err(VirtualMachineError::FailedToGetIds);
        },
    };
    let (high, low) = match read_cell(&vm.memory, value_addr) {
        Some(MaybeRelocatable::Int(value)) => {
            let int_value = as_int(value, &vm.prime).mod_floor(&vm.prime);
            if upper_bound.less_than(&int_value) {
                return Err(VirtualMachineError::ValueOutside250BitRange(int_value));
            }
            int_value.div_mod_floor(&shift)
        },
        Some(MaybeRelocatable::RelocatableValue(_)) => {
            return Err(
                VirtualMachineError::ExpectedInteger(
                    MaybeRelocatable::RelocatableValue(value_addr),
                ),
            );
        },
        None => {
            return Err(
                VirtualMachineError::MemoryGet(MaybeRelocatable::RelocatableValue(value_addr)),
            );
        },
    };
    match insert_for_hint(
        &mut vm.memory,
        &MaybeRelocatable::RelocatableValue(high_addr),
        MaybeRelocatable::Int(high),
    ) {
        Ok(()) => {},
        Err(e) => {
            return Err(e);
        },
    }
    insert_for_hint(
        &mut vm.memory,
        &MaybeRelocatable::RelocatableValue(low_addr),
        MaybeRelocatable::Int(low),
    )
}

/// What [`assert_lt_felt`] returns.
pub open spec fn assert_lt_felt_spec(
    vm: VirtualMachineView,
    ids: Seq<(Seq<char>, int)>,
    hint_ap_tracking: Option<ApTracking>,
) -> Result<(), VmErrorView> {
    let memory = vm.memory;
    match (find_id(ids, "a"@, 0), find_id(ids, "b"@, 0)) {
        (Some(a_ref), Some(b_ref)) => match (
            id_address(vm, a_ref, hint_ap_tracking),
            id_address(vm, b_ref, hint_ap_tracking),
        ) {
            (Some(a_addr), Some(b_addr)) => match (memory.get(a_addr), memory.get(b_addr)) {
                (Some(Word::Int(a)), Some(Word::Int(b))) => if floor_mod(a, vm.prime)
                    < floor_mod(b, vm.prime) {
                    Ok(())
                } else {
                    Err(VmErrorView::AssertLtFelt(a, b))
                },
                (Some(Word::Addr(_)), _) => Err(VmErrorView::ExpectedInteger(Word::Addr(a_addr))),
                (_, Some(Word::Addr(_))) => Err(VmErrorView::ExpectedInteger(Word::Addr(b_addr))),
                _ => Err(VmErrorView::FailedToGetIds),
            },
            _ => Err(VmErrorView::FailedToGetIds),
        },
        _ => Err(VmErrorView::IncorrectIds(names_of(seq!["a", "b"]), id_names(ids))),
    }
}

/// Fails unless `ids.a` is below `ids.b` in the field.
pub fn assert_lt_felt(
    vm: &mut VirtualMachine,
    ids: HintIds,
    hint_ap_tracking: Option<&ApTracking>,
) -> (r: Result<(), VirtualMachineError>)
    requires
        old(vm).wf(),
    ensures
        hint_result_view(r) == assert_lt_felt_spec(old(vm)@, ids@, tracking_view(hint_ap_tracking)),
        *final(vm) == *old(vm),
{
    let (a_ref, b_ref) = match (ids.get("a"), ids.get("b")) {
        (Some(a_ref), Some(b_ref)) => (a_ref, b_ref),
        _ => {
            let needed = vec!["a", "b"];
            assert(needed@ == seq!["a", "b"]);
            return Err(incorrect_ids(needed, &ids));
        },
    };
    let (a_addr, b_addr) = match (
        address_of_id(vm, a_ref, hint_ap_tracking),
        address_of_id(vm, b_ref, hint_ap_tracking),
    ) {
        (Some(a_addr), Some(b_addr)) => (a_addr, b_addr),
        _ => {
            return Err(VirtualMachineError::FailedToGetIds);
        },
    };
    match (read_cell(&vm.memory, a_addr), read_cell(&vm.memory, b_addr)) {
        (Some(MaybeRelocatable::Int(a)), Some(MaybeRelocatable::Int(b))) => {
            if a.mod_floor(&vm.prime).less_than(&b.mod_floor(&vm.prime)) {
                Ok(())
            } else {
                Err(VirtualMachineError::AssertLtFelt(a.clone(), b.clone()))
            }
        },
        (Some(MaybeRelocatable::RelocatableValue(_)), _) => Err(
            VirtualMachineError::ExpectedInteger(MaybeRelocatable::RelocatableValue(a_addr)),
        ),
        (_, Some(MaybeRelocatable::RelocatableValue(_))) => Err(
            VirtualMachineError::ExpectedInteger(MaybeRelocatable::RelocatableValue(b_addr)),
        ),
        _ => Err(VirtualMachineError::FailedToGetIds),
    }
}

/// The machine `vm` with the memory that a hint left, beside what the hint
/// returned.
pub open spec fn with_memory(vm: VirtualMachineView, outcome: (Result<(), VmErrorView>, MemoryView))
    -> (Result<(), VmErrorView>, VirtualMachineView) {
    (outcome.0, VirtualMachineView { memory: outcome.1, ..vm })
}

/// What [`execute_hint`] returns, and the machine that it leaves: what the
/// hint with the name `hint.hint_code` does.
///
/// `add_segment` fails where the number of segments cannot grow, and
/// `split_int` where the base is zero.
pub open spec fn execute_hint_spec(vm: VirtualMachineView, hint: HintDataView) -> (
    Result<(), VmErrorView>,
    VirtualMachineView,
) {
    let code = hint.hint_code;
    let ids = hint.ids;
    let tracking = Some(hint.ap_tracking_data);
    if code == "add_segment"@ {
        if vm.num_segments == usize::MAX {
            (Err(VmErrorView::TooManySegments), vm)
        } else {
            let outcome = add_segment_spec(vm);
            (
                outcome.0,
                VirtualMachineView {
                    memory: outcome.1,
                    num_segments: (vm.num_segments + 1) as usize,
                    ..vm
                },
            )
        }
    } else if code == "is_nn"@ {
        with_memory(vm, is_nn_spec(vm, ids, tracking))
    } else if code == "is_nn_out_of_range"@ {
        with_memory(vm, is_nn_out_of_range_spec(vm, ids, tracking))
    } else if code == "assert_le_felt"@ {
        with_memory(vm, assert_le_felt_spec(vm, ids, tracking))
    } else if code == "is_le_felt"@ {
        with_memory(vm, is_le_felt_spec(vm, ids, tracking))
    } else if code == "assert_not_equal"@ {
        (assert_not_equal_spec(vm, ids, tracking), vm)
    } else if code == "assert_nn"@ {
        (assert_nn_spec(vm, ids, tracking), vm)
    } else if code == "assert_not_zero"@ {
        (assert_not_zero_spec(vm, ids, tracking), vm)
    } else if code == "split_int_assert_range"@ {
        (split_int_assert_range_spec(vm, ids, tracking), vm)
    } else if code == "split_int"@ {
        match split_int_operands(vm, ids, tracking) {
            Ok((_, _, base, _)) => if base == 0 {
                (Err(VmErrorView::DividedByZero), vm)
            } else {
                with_memory(vm, split_int_spec(vm, ids, tracking))
            },
            Err(_) => with_memory(vm, split_int_spec(vm, ids, tracking)),
        }
    } else if code == "is_positive"@ {
        with_memory(vm, is_positive_spec(vm, ids, tracking))
    } else if code == "split_felt"@ {
        with_memory(vm, split_felt_spec(vm, ids, tracking))
    } else if code == "sqrt"@ {
        with_memory(vm, sqrt_spec(vm, ids, tracking))
    } else if code == "unsigned_div_rem"@ {
        with_memory(vm, unsigned_div_rem_spec(vm, ids, tracking))
    } else if code == "signed_div_rem"@ {
        with_memory(vm, signed_div_rem_spec(vm, ids, tracking))
    } else if code == "assert_250_bit"@ {
        with_memory(vm, assert_250_bit_spec(vm, ids, tracking))
    } else if code == "assert_lt_felt"@ {
        (assert_lt_felt_spec(vm, ids, tracking), vm)
    } else {
        (Err(VmErrorView::UnknownHint(code)), vm)
    }
}

/// Whether `code` is the name `name`.
fn is_code(code: &String, name: &str) -> (r: bool)
    ensures
        r == (code@ == name@),
{
    *code == String::from_str(name)
}

/// Runs a hint of a program on the machine.
pub fn execute_hint(vm: &mut VirtualMachine, hint: &HintData) -> (r: Result<
    (),
    VirtualMachineError,
>)
    requires
        old(vm).wf(),
    ensures
        (hint_result_view(r), final(vm)@) == execute_hint_spec(old(vm)@, hint@),
        final(vm).wf(),
        final(vm).run_context == old(vm).run_context,
        final(vm).trace == old(vm).trace,
        final(vm).program_base == old(vm).program_base,
        final(vm).hints == old(vm).hints,
        final(vm).builtin_runners == old(vm).builtin_runners,
        final(vm).prime == old(vm).prime,
        final(vm).references == old(vm).references,
{
    let code = &hint.hint_code;
    let tracking = Some(&hint.ap_tracking_data);
    if is_code(code, "add_segment") {
        if vm.segments.num_segments == usize::MAX {
            return Err(VirtualMachineError::TooManySegments);
        }
        add_segment(vm)
    } else if is_code(code, "is_nn") {
        is_nn(vm, hint.ids.clone(), tracking)
    } else if is_code(code, "is_nn_out_of_range") {
        is_nn_out_of_range(vm, hint.ids.clone(), tracking)
    } else if is_code(code, "assert_le_felt") {
        assert_le_felt(vm, hint.ids.clone(), tracking)
    } else if is_code(code, "is_le_felt") {
        is_le_felt(vm, hint.ids.clone(), tracking)
    } else if is_code(code, "assert_not_equal") {
        assert_not_equal(vm, hint.ids.clone(), tracking)
    } else if is_code(code, "assert_nn") {
        assert_nn(vm, hint.ids.clone(), tracking)
    } else if is_code(code, "assert_not_zero") {
        assert_not_zero(vm, hint.ids.clone(), tracking)
    } else if is_code(code, "split_int_assert_range") {
        split_int_assert_range(vm, hint.ids.clone(), tracking)
    } else if is_code(code, "split_int") {
        match split_int_read(vm, &hint.ids, tracking) {
            Ok((_, _, base, _)) => {
                if base.is_zero() {
                    return Err(VirtualMachineError::DividedByZero);
                }
            },
            Err(_) => {},
        }
        split_int(vm, hint.ids.clone(), tracking)
    } else if is_code(code, "is_positive") {
        is_positive(vm, hint.ids.clone(), tracking)
    } else if is_code(code, "split_felt") {
        split_felt(vm, hint.ids.clone(), tracking)
    } else if is_code(code, "sqrt") {
        sqrt(vm, hint.ids.clone(), tracking)
    } else if is_code(code, "unsigned_div_rem") {
        unsigned_div_rem(vm, hint.ids.clone(), tracking)
    } else if is_code(code, "signed_div_rem") {
        signed_div_rem(vm, hint.ids.clone(), tracking)
    } else if is_code(code, "assert_250_bit") {
        assert_250_bit(vm, hint.ids.clone(), tracking)
    } else if is_code(code, "assert_lt_felt") {
        assert_lt_felt(vm, hint.ids.clone(), tracking)
    } else {
        Err(VirtualMachineError::UnknownHint(code.clone()))
    }
}

} // verus!
