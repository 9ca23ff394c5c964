//! The segments of a memory: how many there are, how much of each is used,
//! and where each starts once they are laid out one after the other.

use crate::types::relocatable::{add_usize_mod_spec, MaybeRelocatable, Relocatable, Word};
use crate::vm::errors::memory_errors::{MemoryError, MemoryErrorView};
use crate::vm::vm_memory::memory::{
    lemma_relocated_cells, lemma_trimmed_size, lemma_used_size, relocate_cells_spec,
    relocate_memory_spec, segment_view, used_size, Memory, MemoryView,
};
use vstd::prelude::*;

verus! {

/// The number of segments of a memory, and their sizes once they are
/// computed.
pub struct MemorySegmentManager {
    pub num_segments: usize,
    pub segment_used_sizes: Option<Vec<usize>>,
}

/// Where segment `index` starts when the segments, of the sizes `sizes`, are
/// laid out one after the other from address 1 on.
pub open spec fn segment_start(sizes: Seq<usize>, index: int) -> int
    decreases index,
{
    if index <= 0 {
        1
    } else {
        segment_start(sizes, index - 1) + sizes[index - 1]
    }
}

/// The size in use of each segment of `memory`: one more than the highest
/// offset written in it, and zero where nothing is written.
pub open spec fn effective_sizes(memory: MemoryView) -> Seq<usize> {
    Seq::new(memory.data.len(), |i: int| used_size(memory.data[i]) as usize)
}

/// What writing `data[from..]` to the cells from `ptr + from` on returns, and
/// the memory that it leaves: the writes stop at the first one that fails.
pub open spec fn load_data_spec(memory: MemoryView, ptr: Word, data: Seq<Word>, from: int) -> (
    Result<(), MemoryErrorView>,
    MemoryView,
)
    decreases data.len() - from,
{
    if from < 0 || from >= data.len() {
        (Ok(()), memory)
    } else {
        let written = memory.insert(add_usize_mod_spec(ptr, from as usize, None), data[from]);
        if written.0 is Err {
            written
        } else {
            load_data_spec(written.1, ptr, data, from + 1)
        }
    }
}

/// The values of `data`.
pub open spec fn words_view(data: Vec<MaybeRelocatable>) -> Seq<Word> {
    Seq::new(data@.len(), |i: int| data@[i]@)
}

impl MemorySegmentManager {
    /// Adds a new segment and returns its starting location. The size is not
    /// used.
    pub fn add(&mut self, memory: &mut Memory, _size: Option<usize>) -> (r: Relocatable)
        requires
            old(self).num_segments < usize::MAX,
        ensures
            r == (Relocatable { segment_index: old(self).num_segments, offset: 0 }),
            final(self).num_segments == old(self).num_segments + 1,
            final(self).segment_used_sizes == old(self).segment_used_sizes,
            final(memory)@.data == old(memory)@.data.push(Seq::empty()),
            final(memory)@.rules == old(memory)@.rules,
            old(memory)@.is_trimmed() ==> final(memory)@.is_trimmed(),
    {
        let segment_index: usize = self.num_segments;
        self.num_segments += 1;
        memory.data.push(Vec::new());
        proof {
            assert(memory@.data =~~= old(memory)@.data.push(Seq::empty()));
        }
        Relocatable { segment_index, offset: 0 }
    }

    /// Writes `data` into the memory from address `ptr` on and returns the
    /// first address after the data. The first write that fails ends the
    /// loading, and what was written before it stays.
    pub fn load_data(
        &mut self,
        memory: &mut Memory,
        ptr: &MaybeRelocatable,
        data: Vec<MaybeRelocatable>,
    ) -> (r: Result<MaybeRelocatable, MemoryError>)
        requires
            ptr@ matches Word::Addr(a) ==> a.offset + data.len() <= usize::MAX,
        ensures
            *final(self) == *old(self),
            final(memory)@ == load_data_spec(old(memory)@, ptr@, words_view(data), 0).1,
            match load_data_spec(old(memory)@, ptr@, words_view(data), 0).0 {
                Ok(()) => r matches Ok(end) && end@ == add_usize_mod_spec(ptr@, data.len(), None),
                Err(e) => r matches Err(x) && x@ == e,
            },
    {
        let mut num: usize = 0;
        while num < data.len()
            invariant
                num <= data.len(),
                ptr@ matches Word::Addr(a) ==> a.offset + data.len() <= usize::MAX,
                load_data_spec(old(memory)@, ptr@, words_view(data), 0) == load_data_spec(
                    memory@,
                    ptr@,
                    words_view(data),
                    num as int,
                ),
            decreases data.len() - num,
        {
            let address = ptr.add_usize_mod(num, None);
            match memory.insert(&address, &data[num]) {
                Ok(()) => {},
                Err(e) => {
                    return Err(e);
                },
            }
            num += 1;
        }
        Ok(ptr.add_usize_mod(data.len(), None))
    }

    /// A manager of no segments.
    pub fn new() -> (r: MemorySegmentManager)
        ensures
            r.num_segments == 0,
            r.segment_used_sizes is None,
    {
        MemorySegmentManager { num_segments: 0, segment_used_sizes: None }
    }

    /// Records the size of each memory segment: one more than the highest
    /// offset written in it. Sizes that were recorded before stay.
    pub fn compute_effective_sizes(&mut self, memory: &Memory)
        ensures
            final(self).num_segments == old(self).num_segments,
            match old(self).segment_used_sizes {
                Some(sizes) => final(self).segment_used_sizes == Some(sizes),
                None => final(self).segment_used_sizes matches Some(sizes) && sizes@
                    == effective_sizes(memory@),
            },
    {
        if self.segment_used_sizes.is_some() {
            return ;
        }
        let mut segment_used_sizes: Vec<usize> = Vec::new();
        let mut i: usize = 0;
        while i < memory.data.len()
            invariant
                i <= memory.data.len(),
                segment_used_sizes@ == effective_sizes(memory@).take(i as int),
            decreases memory.data.len() - i,
        {
            let ghost segment = memory@.data[i as int];
            let mut size: usize = memory.data[i].len();
            proof {
                assert(segment == segment_view(memory.data[i as int]));
                assert(segment.take(size as int) =~= segment);
            }
            while size > 0 && memory.data[i][size - 1].is_none()
                invariant
                    i < memory.data.len(),
                    size <= memory.data[i as int].len(),
                    segment == segment_view(memory.data[i as int]),
                    used_size(segment) == used_size(segment.take(size as int)),
                decreases size,
            {
                proof {
                    let longer = segment.take(size as int);
                    assert(longer.last() == segment[size - 1]);
                    assert(longer.drop_last() =~= segment.take(size - 1));
                }
                size -= 1;
            }
            proof {
                let kept = segment.take(size as int);
                if size > 0 {
                    assert(kept.last() == segment[size - 1]);
                }
                assert(used_size(kept) == size);
            }
            segment_used_sizes.push(size);
            proof {
                assert(segment_used_sizes@ =~= effective_sizes(memory@).take(i + 1));
            }
            i += 1;
        }
        proof {
            assert(segment_used_sizes@ =~= effective_sizes(memory@));
        }
        self.segment_used_sizes = Some(segment_used_sizes);
    }

    /// Returns the first relocated address of each memory segment: 1 for the
    /// first, and for each other one the sum of the start and the size of
    /// the one before it.
    pub fn relocate_segments(&self) -> (r: Result<Vec<usize>, MemoryError>)
        requires
            self.segment_used_sizes matches Some(sizes) ==> segment_start(
                sizes@,
                sizes@.len() - 1,
            ) <= usize::MAX,
        ensures
            match self.segment_used_sizes {
                Some(sizes) => r matches Ok(table) && table@.len() == sizes@.len() && forall|
                    i: int,
                |
                    0 <= i < table@.len() ==> table@[i] == segment_start(sizes@, i),
                None => r matches Err(MemoryError::EffectiveSizesNotCalled),
            },
    {
        let mut relocation_table: Vec<usize> = Vec::new();
        match &self.segment_used_sizes {
            Some(segment_used_sizes) => {
                let mut i: usize = 0;
                while i < segment_used_sizes.len()
                    invariant
                        i <= segment_used_sizes.len(),
                        segment_start(segment_used_sizes@, segment_used_sizes@.len() - 1)
                            <= usize::MAX,
                        relocation_table@.len() == i,
                        forall|k: int|
                            0 <= k < i ==> relocation_table@[k] == segment_start(
                                segment_used_sizes@,
                                k,
                            ),
                    decreases segment_used_sizes.len() - i,
                {
                    proof {
                        lemma_segment_start_grows(
                            segment_used_sizes@,
                            i as int,
                            segment_used_sizes@.len() - 1,
                        );
                    }
                    if i == 0 {
                        relocation_table.push(1);
                    } else {
                        relocation_table.push(relocation_table[i - 1] + segment_used_sizes[i - 1]);
                    }
                    i += 1;
                }
            },
            None => return Err(MemoryError::EffectiveSizesNotCalled),
        }
        Ok(relocation_table)
    }
}

impl Default for MemorySegmentManager {
    fn default() -> (r: MemorySegmentManager)
        ensures
            r.num_segments == 0,
            r.segment_used_sizes is None,
    {
        MemorySegmentManager::new()
    }
}

/// A later segment starts where an earlier one ends, or after that.
pub proof fn lemma_segment_start_grows(sizes: Seq<usize>, i: int, j: int)
    requires
        0 <= i <= j,
    ensures
        segment_start(sizes, i) <= segment_start(sizes, j),
        i < j ==> segment_start(sizes, i) + sizes[i] <= segment_start(sizes, j),
    decreases j - i,
{
    if i < j {
        lemma_segment_start_grows(sizes, i, j - 1);
    }
}

/// A cell within the size of its segment is relocated to an address below
/// the end of the last segment. So where that end is an address that the
/// machine can hold, so is the place of every written cell.
pub proof fn lemma_relocation_is_below_the_end(sizes: Seq<usize>, a: Relocatable)
    requires
        a.segment_index < sizes.len(),
        a.offset < sizes[a.segment_index as int],
    ensures
        1 <= segment_start(sizes, a.segment_index as int),
        segment_start(sizes, a.segment_index as int) + a.offset < segment_start(
            sizes,
            sizes.len() as int,
        ),
{
    lemma_segment_start_grows(sizes, 0, a.segment_index as int);
    lemma_segment_start_grows(sizes, a.segment_index as int, sizes.len() as int);
}

/// Two cells within the sizes of their segments are relocated to two
/// addresses.
pub proof fn lemma_relocation_is_injective(sizes: Seq<usize>, a: Relocatable, b: Relocatable)
    requires
        a.segment_index < sizes.len(),
        b.segment_index < sizes.len(),
        a.offset < sizes[a.segment_index as int],
        b.offset < sizes[b.segment_index as int],
        a != b,
    ensures
        segment_start(sizes, a.segment_index as int) + a.offset != segment_start(
            sizes,
            b.segment_index as int,
        ) + b.offset,
{
    if a.segment_index < b.segment_index {
        lemma_segment_start_grows(sizes, a.segment_index as int, b.segment_index as int);
    } else if b.segment_index < a.segment_index {
        lemma_segment_start_grows(sizes, b.segment_index as int, a.segment_index as int);
    }
}

/// Every written cell lies within the effective size of its segment.
pub proof fn lemma_written_cell_within_size(memory: &Memory, address: Relocatable)
    requires
        memory@.get(address) is Some,
    ensures
        address.segment_index < effective_sizes(memory@).len(),
        address.offset < effective_sizes(memory@)[address.segment_index as int],
{
    let segment = memory@.data[address.segment_index as int];
    assert(segment.len() == memory.data[address.segment_index as int].len());
    lemma_used_size(segment);
    assert(segment[address.offset as int] is Some);
}

/// Whether every address that a cell of `memory` holds lies in one of the
/// first `segments` segments.
pub open spec fn points_into(memory: MemoryView, segments: int) -> bool {
    forall|i: int, j: int|
        0 <= i < memory.data.len() && 0 <= j < memory.data[i].len() ==> (
        #[trigger] memory.data[i][j] matches Some(Word::Addr(a)) ==> a.segment_index < segments)
}

/// Whether `relocation_table` holds, for each segment of `memory`, the start
/// that goes with the sizes of the segments.
pub open spec fn is_table_of(relocation_table: Seq<usize>, memory: MemoryView) -> bool {
    &&& relocation_table.len() == memory.data.len()
    &&& forall|i: int|
        0 <= i < relocation_table.len() ==> #[trigger] relocation_table[i] == segment_start(
            effective_sizes(memory),
            i,
        )
}

/// The cells of a segment whose addresses all lie in segments of the table
/// can be relocated.
proof fn lemma_cells_can_be_relocated(
    segment: Seq<Option<Word>>,
    relocation_table: Seq<usize>,
    count: int,
)
    requires
        0 <= count <= segment.len(),
        forall|j: int|
            0 <= j < segment.len() ==> (#[trigger] segment[j] matches Some(Word::Addr(a))
                ==> a.segment_index < relocation_table.len()),
    ensures
        relocate_cells_spec(segment, relocation_table, count) is Ok,
    decreases count,
{
    if count > 0 {
        lemma_cells_can_be_relocated(segment, relocation_table, count - 1);
        assert(segment[count - 1] matches Some(Word::Addr(a)) ==> a.segment_index
            < relocation_table.len());
    }
}

/// A memory none of whose segments ends in an empty cell can be relocated
/// by the table of the sizes of its segments, where every address that it
/// holds lies in one of its segments; and what is relocated fills the
/// addresses up to the end of the last segment.
pub proof fn lemma_memory_can_be_relocated(
    memory: MemoryView,
    relocation_table: Seq<usize>,
    segments: int,
)
    requires
        0 <= segments <= memory.data.len(),
        memory.is_trimmed(),
        is_table_of(relocation_table, memory),
        points_into(memory, memory.data.len() as int),
        forall|i: int| 0 <= i < memory.data.len() ==> (#[trigger] memory.data[i]).len() <= usize::MAX,
    ensures
        relocate_memory_spec(memory, relocation_table, segments) is Ok,
        relocate_memory_spec(memory, relocation_table, segments)->Ok_0.len() == segment_start(
            effective_sizes(memory),
            segments,
        ),
    decreases segments,
{
    if segments > 0 {
        lemma_memory_can_be_relocated(memory, relocation_table, segments - 1);
        let segment = memory.data[segments - 1];
        assert forall|j: int| 0 <= j < segment.len() implies (
        #[trigger] segment[j] matches Some(Word::Addr(a)) ==> a.segment_index
            < relocation_table.len()) by {
            assert(memory.data[segments - 1][j] == segment[j]);
        }
        lemma_cells_can_be_relocated(segment, relocation_table, segment.len() as int);
        lemma_relocated_cells(segment, relocation_table, segment.len() as int);
        assert(relocation_table[segments - 1] == segment_start(
            effective_sizes(memory),
            segments - 1,
        ));
        lemma_trimmed_size(memory, segments - 1);
        assert(effective_sizes(memory)[segments - 1] == segment.len());
    }
}

} // verus!
