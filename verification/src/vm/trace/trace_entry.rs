//! A trace entry for every instruction that was executed. It holds the
//! register values before the instruction was executed.

use crate::types::relocatable::Relocatable;
use crate::vm::errors::trace_errors::TraceError;
use vstd::prelude::*;

verus! {

/// The registers as they were before a step.
#[derive(Debug, PartialEq, Eq, Structural, Clone, Copy)]
pub struct TraceEntry {
    pub pc: Relocatable,
    pub ap: Relocatable,
    pub fp: Relocatable,
}

/// The registers as they were before a step, relocated.
#[derive(Debug, PartialEq, Eq, Structural, Clone, Copy)]
pub struct RelocatedTraceEntry {
    pub ap: usize,
    pub fp: usize,
    pub pc: usize,
}

/// The place of `value` in the one address space that `relocation_table`
/// lays the segments out in: the start of its segment plus its offset.
pub fn relocate_trace_register(value: &Relocatable, relocation_table: &Vec<usize>) -> (r: Result<
    usize,
    TraceError,
>)
    requires
        value.segment_index < relocation_table.len() ==> relocation_table[value.segment_index as int]
            + value.offset <= usize::MAX,
    ensures
        r == (if value.segment_index < relocation_table.len() {
            Ok::<usize, TraceError>(
                (relocation_table[value.segment_index as int] + value.offset) as usize,
            )
        } else {
            Err::<usize, TraceError>(TraceError::NoRelocationFound)
        }),
{
    if relocation_table.len() <= value.segment_index {
        return Err(TraceError::NoRelocationFound);
    }
    Ok(relocation_table[value.segment_index] + value.offset)
}

/// Whether `relocation_table` has a start for the segment of `value`.
pub open spec fn has_relocation(value: Relocatable, relocation_table: Seq<usize>) -> bool {
    value.segment_index < relocation_table.len()
}

/// The place of `value` in the one address space.
pub open spec fn relocated_spec(value: Relocatable, relocation_table: Seq<usize>) -> int {
    relocation_table[value.segment_index as int] + value.offset
}

/// The entry with each of its registers relocated, where the table has a
/// start for the segment of each.
pub open spec fn relocate_entry_spec(entry: TraceEntry, relocation_table: Seq<usize>) -> Result<
    RelocatedTraceEntry,
    TraceError,
> {
    if has_relocation(entry.pc, relocation_table) && has_relocation(entry.ap, relocation_table)
        && has_relocation(entry.fp, relocation_table) {
        Ok(
            RelocatedTraceEntry {
                ap: relocated_spec(entry.ap, relocation_table) as usize,
                fp: relocated_spec(entry.fp, relocation_table) as usize,
                pc: relocated_spec(entry.pc, relocation_table) as usize,
            },
        )
    } else {
        Err(TraceError::NoRelocationFound)
    }
}

/// Whether the relocated registers of `entry` are addresses that the machine
/// can hold.
pub open spec fn entry_fits(entry: TraceEntry, relocation_table: Seq<usize>) -> bool {
    &&& has_relocation(entry.pc, relocation_table) ==> relocated_spec(entry.pc, relocation_table)
        <= usize::MAX
    &&& has_relocation(entry.ap, relocation_table) ==> relocated_spec(entry.ap, relocation_table)
        <= usize::MAX
    &&& has_relocation(entry.fp, relocation_table) ==> relocated_spec(entry.fp, relocation_table)
        <= usize::MAX
}

/// Relocates the registers of every entry of `trace`. The first entry with a
/// register in a segment that the table has no start for ends it.
pub fn relocate_trace(trace: &Vec<TraceEntry>, relocation_table: &Vec<usize>) -> (r: Result<
    Vec<RelocatedTraceEntry>,
    TraceError,
>)
    requires
        forall|i: int| 0 <= i < trace@.len() ==> entry_fits(#[trigger] trace@[i], relocation_table@),
    ensures
        match r {
            Ok(relocated) => relocated@.len() == trace@.len() && forall|i: int|
                0 <= i < trace@.len() ==> relocate_entry_spec(
                    #[trigger] trace@[i],
                    relocation_table@,
                ) == Ok::<RelocatedTraceEntry, TraceError>(relocated@[i]),
            Err(e) => e == TraceError::NoRelocationFound && exists|i: int|
                0 <= i < trace@.len() && relocate_entry_spec(
                    #[trigger] trace@[i],
                    relocation_table@,
                ) is Err,
        },
{
    let mut relocated: Vec<RelocatedTraceEntry> = Vec::new();
    let mut i: usize = 0;
    while i < trace.len()
        invariant
            i <= trace.len(),
            relocated@.len() == i,
            forall|k: int|
                0 <= k < trace@.len() ==> entry_fits(#[trigger] trace@[k], relocation_table@),
            forall|k: int|
                0 <= k < i ==> relocate_entry_spec(#[trigger] trace@[k], relocation_table@) == Ok::<
                    RelocatedTraceEntry,
                    TraceError,
                >(relocated@[k]),
        decreases trace.len() - i,
    {
        let entry = trace[i];
        assert(entry_fits(trace@[i as int], relocation_table@));
        if relocation_table.len() <= entry.pc.segment_index || relocation_table.len()
            <= entry.ap.segment_index || relocation_table.len() <= entry.fp.segment_index {
            assert(relocate_entry_spec(trace@[i as int], relocation_table@) is Err);
            return Err(TraceError::NoRelocationFound);
        }
        let pc = match relocate_trace_register(&entry.pc, relocation_table) {
            Ok(pc) => pc,
            Err(e) => {
                return Err(e);
            },
        };
        let ap = match relocate_trace_register(&entry.ap, relocation_table) {
            Ok(ap) => ap,
            Err(e) => {
                return Err(e);
            },
        };
        let fp = match relocate_trace_register(&entry.fp, relocation_table) {
            Ok(fp) => fp,
            Err(e) => {
                return Err(e);
            },
        };
        relocated.push(RelocatedTraceEntry { ap, fp, pc });
        i += 1;
    }
    Ok(relocated)
}

} // verus!
