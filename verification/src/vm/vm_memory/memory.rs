//! The segmented memory: cells are written once and never change.

use crate::types::field_int::FieldInt;
use crate::types::relocatable::{option_word, MaybeRelocatable, Relocatable, Word};
use crate::vm::errors::memory_errors::{MemoryError, MemoryErrorView};
use vstd::prelude::*;

verus! {

/// A rule that a built-in lays on every cell written to its segment.
#[derive(Debug)]
pub enum ValidationRule {
    /// The cell holds an integer that is at least zero and below the bound.
    RangeCheck(FieldInt),
}

/// The mathematical value of a [`ValidationRule`].
pub enum ValidationRuleView {
    RangeCheck(int),
}

impl View for ValidationRule {
    type V = ValidationRuleView;

    open spec fn view(&self) -> ValidationRuleView {
        match self {
            ValidationRule::RangeCheck(bound) => ValidationRuleView::RangeCheck(bound@),
        }
    }
}

/// What `rule` says of a cell that holds `value`.
pub open spec fn rule_verdict(rule: ValidationRuleView, value: Word) -> Result<
    (),
    MemoryErrorView,
> {
    match rule {
        ValidationRuleView::RangeCheck(bound) => match value {
            Word::Int(v) => if 0 <= v < bound {
                Ok(())
            } else {
                Err(MemoryErrorView::NumOutOfBounds)
            },
            Word::Addr(_) => Err(MemoryErrorView::FoundNonInt),
        },
    }
}

/// What the rules of `rules` that are laid on `segment_index`, taken in
/// order from `from` on, say of a cell that holds `value`: the first refusal,
/// if there is one.
pub open spec fn rules_verdict(
    rules: Seq<(usize, ValidationRuleView)>,
    from: int,
    segment_index: usize,
    value: Word,
) -> Result<(), MemoryErrorView>
    decreases rules.len() - from,
{
    if from < 0 || from >= rules.len() {
        Ok(())
    } else if rules[from].0 == segment_index && rule_verdict(rules[from].1, value) is Err {
        rule_verdict(rules[from].1, value)
    } else {
        rules_verdict(rules, from + 1, segment_index, value)
    }
}

impl ValidationRule {
    /// Holds a cell's value against the rule.
    pub fn check(&self, value: &MaybeRelocatable) -> (r: Result<(), MemoryError>)
        ensures
            memory_result_view(r) == rule_verdict(self@, value@),
    {
        match self {
            ValidationRule::RangeCheck(bound) => match value {
                MaybeRelocatable::Int(v) => {
                    if !v.is_negative() && v.less_than(bound) {
                        Ok(())
                    } else {
                        Err(MemoryError::NumOutOfBounds)
                    }
                },
                MaybeRelocatable::RelocatableValue(_) => Err(MemoryError::FoundNonInt),
            },
        }
    }
}

/// The value of the result of a memory operation.
pub open spec fn memory_result_view(r: Result<(), MemoryError>) -> Result<(), MemoryErrorView> {
    match r {
        Ok(()) => Ok(()),
        Err(e) => Err(e@),
    }
}

/// The size of a segment that is in use: one more than the highest offset
/// of a written cell, and zero where no cell is written.
pub open spec fn used_size(segment: Seq<Option<Word>>) -> nat
    decreases segment.len(),
{
    if segment.len() == 0 {
        0
    } else if segment.last() is Some {
        segment.len()
    } else {
        used_size(segment.drop_last())
    }
}

/// The size in use is the offset behind the last written cell: every
/// written cell lies below it, and the cell before it is written.
pub proof fn lemma_used_size(segment: Seq<Option<Word>>)
    ensures
        used_size(segment) <= segment.len(),
        forall|j: int| 0 <= j < segment.len() && (#[trigger] segment[j]) is Some ==> j < used_size(
            segment,
        ),
        used_size(segment) > 0 ==> segment[used_size(segment) - 1] is Some,
        forall|j: int| used_size(segment) <= j < segment.len() ==> (#[trigger] segment[j]) is None,
    decreases segment.len(),
{
    if segment.len() > 0 && segment.last() is None {
        let shorter = segment.drop_last();
        lemma_used_size(shorter);
        assert forall|j: int| 0 <= j < segment.len() && (#[trigger] segment[j]) is Some implies j
            < used_size(segment) by {
            assert(shorter[j] == segment[j]);
        }
        assert forall|j: int| used_size(segment) <= j < segment.len() implies (
        #[trigger] segment[j]) is None by {
            if j < shorter.len() {
                assert(shorter[j] == segment[j]);
            }
        }
        if used_size(segment) > 0 {
            assert(shorter[used_size(segment) - 1] == segment[used_size(segment) - 1]);
        }
    }
}

/// The values of the cells of a segment.
pub open spec fn segment_view(segment: Vec<Option<MaybeRelocatable>>) -> Seq<Option<Word>> {
    Seq::new(segment@.len(), |j: int| option_word(segment@[j]))
}

/// The rules, each with its segment.
pub open spec fn rules_view(rules: Vec<(usize, ValidationRule)>) -> Seq<
    (usize, ValidationRuleView),
> {
    Seq::new(rules@.len(), |k: int| (rules@[k].0, rules@[k].1@))
}

/// The memory of a machine: its segments, each a run of cells that are
/// empty or hold a value, and the rules laid on segments.
pub struct Memory {
    pub data: Vec<Vec<Option<MaybeRelocatable>>>,
    pub validation_rules: Vec<(usize, ValidationRule)>,
}

/// The mathematical value of a [`Memory`]: the cells of each segment, and the
/// rules laid on segments.
pub struct MemoryView {
    pub data: Seq<Seq<Option<Word>>>,
    pub rules: Seq<(usize, ValidationRuleView)>,
}

impl View for Memory {
    type V = MemoryView;

    open spec fn view(&self) -> MemoryView {
        MemoryView {
            data: Seq::new(self.data@.len(), |i: int| segment_view(self.data@[i])),
            rules: rules_view(self.validation_rules),
        }
    }
}

impl MemoryView {
    /// What the cell at `address` holds; nothing where the cell was never
    /// written or lies outside the memory.
    pub open spec fn get(self, address: Relocatable) -> Option<Word> {
        if address.segment_index < self.data.len() && address.offset
            < self.data[address.segment_index as int].len() {
            self.data[address.segment_index as int][address.offset as int]
        } else {
            None
        }
    }

    /// Whether no segment ends in an empty cell, so that each segment is as
    /// long as its size in use. [`Memory::new`] and [`Memory::insert`] keep
    /// it so, and so does a new segment.
    pub open spec fn is_trimmed(self) -> bool {
        forall|i: int|
            0 <= i < self.data.len() && (#[trigger] self.data[i]).len() > 0 ==> self.data[i].last()
                is Some
    }

    /// What a read at `key` returns: what the cell holds, where `key` is an
    /// address.
    pub open spec fn get_word(self, key: Word) -> Result<Option<Word>, MemoryErrorView> {
        match key {
            Word::Addr(address) => Ok(self.get(address)),
            Word::Int(_) => Err(MemoryErrorView::AddressNotRelocatable),
        }
    }

    /// The memory with `value` in the cell at `address`, which lies in one of
    /// its segments. The segment grows as far as the cell, by empty cells.
    pub open spec fn write(self, address: Relocatable, value: Word) -> MemoryView {
        let segment = self.data[address.segment_index as int];
        let length = if segment.len() > address.offset {
            segment.len()
        } else {
            (address.offset + 1) as nat
        };
        MemoryView {
            data: self.data.update(
                address.segment_index as int,
                Seq::new(
                    length,
                    |j: int|
                        if j == address.offset {
                            Some(value)
                        } else if j < segment.len() {
                            segment[j]
                        } else {
                            None
                        },
                ),
            ),
            rules: self.rules,
        }
    }

    /// What the rules say of the first `count` cells of segment
    /// `segment_index`: the first refusal of a written cell, if there is one.
    pub open spec fn validate_cells(self, segment_index: usize, count: int) -> Result<
        (),
        MemoryErrorView,
    >
        decreases count,
    {
        if count <= 0 {
            Ok(())
        } else {
            match self.validate_cells(segment_index, count - 1) {
                Err(e) => Err(e),
                Ok(()) => match self.data[segment_index as int][count - 1] {
                    Some(value) => rules_verdict(self.rules, 0, segment_index, value),
                    None => Ok(()),
                },
            }
        }
    }

    /// What the rules say of the cells of the first `count` segments: the
    /// first refusal of a written cell, if there is one.
    pub open spec fn validate_segments(self, count: int) -> Result<(), MemoryErrorView>
        decreases count,
    {
        if count <= 0 {
            Ok(())
        } else {
            match self.validate_segments(count - 1) {
                Err(e) => Err(e),
                Ok(()) => self.validate_cells(
                    (count - 1) as usize,
                    self.data[count - 1].len() as int,
                ),
            }
        }
    }

    /// A refusal among the first cells of a segment is the refusal of every
    /// longer run of its cells.
    pub proof fn lemma_validate_cells_failure(self, segment_index: usize, failed: int, count: int)
        requires
            failed <= count,
            self.validate_cells(segment_index, failed) is Err,
        ensures
            self.validate_cells(segment_index, count) == self.validate_cells(
                segment_index,
                failed,
            ),
        decreases count - failed,
    {
        if failed < count {
            self.lemma_validate_cells_failure(segment_index, failed, count - 1);
        }
    }

    /// A refusal among the first segments is the refusal of every longer run
    /// of segments.
    pub proof fn lemma_validate_segments_failure(self, failed: int, count: int)
        requires
            failed <= count,
            self.validate_segments(failed) is Err,
        ensures
            self.validate_segments(count) == self.validate_segments(failed),
        decreases count - failed,
    {
        if failed < count {
            self.lemma_validate_segments_failure(failed, count - 1);
        }
    }

    /// What [`Memory::insert`] returns, and the memory that it leaves.
    pub open spec fn insert(self, key: Word, value: Word) -> (
        Result<(), MemoryErrorView>,
        MemoryView,
    ) {
        match key {
            Word::Int(_) => (Err(MemoryErrorView::AddressNotRelocatable), self),
            Word::Addr(address) => if address.segment_index >= self.data.len() {
                (
                    Err(
                        MemoryErrorView::UnallocatedSegment(
                            address.segment_index,
                            self.data.len() as usize,
                        ),
                    ),
                    self,
                )
            } else {
                match self.get(address) {
                    Some(held) => if held == value {
                        (Ok(()), self)
                    } else {
                        (Err(MemoryErrorView::InconsistentMemory(key, held, value)), self)
                    },
                    None => (
                        rules_verdict(self.rules, 0, address.segment_index, value),
                        self.write(address, value),
                    ),
                }
            },
        }
    }
}

impl Memory {
    /// A memory without segments and without rules.
    pub fn new() -> (r: Memory)
        ensures
            r@.data.len() == 0,
            r@.rules.len() == 0,
            r@.is_trimmed(),
    {
        Memory { data: Vec::new(), validation_rules: Vec::new() }
    }

    /// Writes `val` to the cell at `key`.
    ///
    /// The cell must lie in a segment that exists. A cell that already holds
    /// `val` stays as it is; one that holds another value is not written. A
    /// cell written for the first time is then held against the rules of its
    /// segment, and stays written where one of them refuses it.
    pub fn insert(&mut self, key: &MaybeRelocatable, val: &MaybeRelocatable) -> (r: Result<
        (),
        MemoryError,
    >)
        ensures
            (memory_result_view(r), final(self)@) == old(self)@.insert(key@, val@),
            old(self)@.is_trimmed() ==> final(self)@.is_trimmed(),
    {
        proof {
            if old(self)@.is_trimmed() {
                lemma_insert_keeps_trimmed(old(self)@, key@, val@);
            }
        }
        match key {
            MaybeRelocatable::Int(_) => Err(MemoryError::AddressNotRelocatable),
            MaybeRelocatable::RelocatableValue(address) => {
                let i: usize = address.segment_index;
                let j: usize = address.offset;
                if self.data.len() <= i {
                    return Err(MemoryError::UnallocatedSegment(i, self.data.len()));
                }
                if j < self.data[i].len() {
                    match &self.data[i][j] {
                        Some(held) => {
                            if held.equals(val) {
                                return Ok(());
                            } else {
                                return Err(
                                    MemoryError::InconsistentMemory(
                                        key.clone(),
                                        held.clone(),
                                        val.clone(),
                                    ),
                                );
                            }
                        },
                        None => {
                            self.data[i][j] = Some(val.clone());
                        },
                    }
                } else {
                    while self.data[i].len() < j
                        invariant
                            i < self.data.len(),
                            self.data.len() == old(self).data.len(),
                            self.validation_rules == old(self).validation_rules,
                            forall|k: int|
                                0 <= k < self.data.len() && k != i ==> self.data[k] == old(
                                    self,
                                ).data[k],
                            old(self).data[i as int].len() <= self.data[i as int].len() <= j,
                            forall|l: int|
                                0 <= l < self.data[i as int].len() ==> self.data[i as int][l] == (
                                if l < old(self).data[i as int].len() {
                                    old(self).data[i as int][l]
                                } else {
                                    None
                                }),
                        decreases j - self.data[i as int].len(),
                    {
                        self.data[i].push(None);
                    }
                    self.data[i].push(Some(val.clone()));
                }
                proof {
                    let expected = old(self)@.write(*address, val@);
                    assert(self@.data.len() == expected.data.len());
                    assert forall|k: int| 0 <= k < self@.data.len() implies self@.data[k]
                        =~= expected.data[k] by {
                        if k != i {
                            assert(self.data[k] == old(self).data[k]);
                        }
                    }
                    assert(self@.data =~= expected.data);
                }
                self.validate_memory_cell(i, val)
            },
        }
    }

    /// What the cell at `key` holds, if it was written.
    pub fn get(&self, key: &MaybeRelocatable) -> (r: Result<
        Option<&MaybeRelocatable>,
        MemoryError,
    >)
        ensures
            match r {
                Ok(Some(value)) => self@.get_word(key@) == Ok::<Option<Word>, MemoryErrorView>(
                    Some(value@),
                ),
                Ok(None) => self@.get_word(key@) == Ok::<Option<Word>, MemoryErrorView>(None),
                Err(e) => self@.get_word(key@) == Err::<Option<Word>, MemoryErrorView>(e@),
            },
    {
        match key {
            MaybeRelocatable::Int(_) => Err(MemoryError::AddressNotRelocatable),
            MaybeRelocatable::RelocatableValue(address) => {
                let i: usize = address.segment_index;
                let j: usize = address.offset;
                if i < self.data.len() && j < self.data[i].len() {
                    match &self.data[i][j] {
                        Some(value) => Ok(Some(value)),
                        None => Ok(None),
                    }
                } else {
                    Ok(None)
                }
            },
        }
    }

    /// Lays `rule` on the cells that will be written to segment
    /// `segment_index`.
    pub fn add_validation_rule(&mut self, segment_index: usize, rule: ValidationRule)
        ensures
            final(self)@.data == old(self)@.data,
            final(self)@.rules == old(self)@.rules.push((segment_index, rule@)),
    {
        self.validation_rules.push((segment_index, rule));
        proof {
            assert(self@.rules =~= old(self)@.rules.push((segment_index, rule@)));
            assert(self@.data =~= old(self)@.data);
        }
    }

    /// Holds every written cell against the rules of its segment, segment by
    /// segment and cell by cell, and returns the first refusal.
    pub fn validate_existing_memory(&self) -> (r: Result<(), MemoryError>)
        ensures
            memory_result_view(r) == self@.validate_segments(self@.data.len() as int),
    {
        let mut i: usize = 0;
        while i < self.data.len()
            invariant
                i <= self.data.len(),
                self@.validate_segments(i as int) is Ok,
            decreases self.data.len() - i,
        {
            let ghost segment = self@.data[i as int];
            let mut j: usize = 0;
            while j < self.data[i].len()
                invariant
                    i < self.data.len(),
                    j <= self.data[i as int].len(),
                    segment == self@.data[i as int],
                    segment.len() == self.data[i as int].len(),
                    self@.validate_segments(i as int) is Ok,
                    self@.validate_cells(i as usize, j as int) is Ok,
                decreases self.data[i as int].len() - j,
            {
                assert(segment[j as int] == option_word(self.data[i as int][j as int]));
                if let Some(value) = &self.data[i][j] {
                    match self.validate_memory_cell(i, value) {
                        Ok(()) => {},
                        Err(e) => {
                            proof {
                                assert(self@.validate_cells(i as usize, j + 1) == Err::<
                                    (),
                                    MemoryErrorView,
                                >(e@));
                                self@.lemma_validate_cells_failure(
                                    i as usize,
                                    j + 1,
                                    segment.len() as int,
                                );
                                self@.lemma_validate_segments_failure(
                                    i + 1,
                                    self@.data.len() as int,
                                );
                            }
                            return Err(e);
                        },
                    }
                }
                j += 1;
            }
            i += 1;
        }
        proof {
            assert(i == self@.data.len());
            assert(self@.validate_segments(i as int)->Ok_0 == ());
        }
        Ok(())
    }

    /// Holds `value`, just written to a cell of segment `segment_index`,
    /// against the rules of that segment.
    fn validate_memory_cell(&self, segment_index: usize, value: &MaybeRelocatable) -> (r: Result<
        (),
        MemoryError,
    >)
        ensures
            memory_result_view(r) == rules_verdict(self@.rules, 0, segment_index, value@),
    {
        let mut k: usize = 0;
        while k < self.validation_rules.len()
            invariant
                k <= self.validation_rules.len(),
                rules_verdict(self@.rules, 0, segment_index, value@) == rules_verdict(
                    self@.rules,
                    k as int,
                    segment_index,
                    value@,
                ),
            decreases self.validation_rules.len() - k,
        {
            if self.validation_rules[k].0 == segment_index {
                let verdict = self.validation_rules[k].1.check(value);
                if verdict.is_err() {
                    return verdict;
                }
            }
            k += 1;
        }
        Ok(())
    }
}

/// A cell takes the value that was written to it again, leaving the memory as
/// it is, and refuses every other value.
pub proof fn lemma_memory_is_write_once(memory: MemoryView, key: Word, value: Word, other: Word)
    requires
        memory.insert(key, value).0 is Ok,
        other != value,
    ensures
        ({
            let written = memory.insert(key, value).1;
            &&& written.insert(key, value) == (Ok::<(), MemoryErrorView>(()), written)
            &&& written.insert(key, other) == (
                Err::<(), MemoryErrorView>(MemoryErrorView::InconsistentMemory(key, value, other)),
                written,
            )
        }),
{
}

/// A write leaves no segment ending in an empty cell, where none did; and
/// a segment without such an end is as long as its size in use.
pub proof fn lemma_insert_keeps_trimmed(memory: MemoryView, key: Word, value: Word)
    requires
        memory.is_trimmed(),
    ensures
        memory.insert(key, value).1.is_trimmed(),
{
    let after = memory.insert(key, value).1;
    assert forall|i: int| 0 <= i < after.data.len() && (#[trigger] after.data[i]).len()
        > 0 implies after.data[i].last() is Some by {
        if after.data[i] != memory.data[i] {
            let address = key->Addr_0;
            let segment = memory.data[i];
            if segment.len() > address.offset {
                assert(segment.last() is Some);
            }
        } else {
            assert(memory.data[i].len() > 0 ==> memory.data[i].last() is Some);
        }
    }
}

/// A segment that does not end in an empty cell is as long as its size in
/// use.
pub proof fn lemma_trimmed_size(memory: MemoryView, segment_index: int)
    requires
        memory.is_trimmed(),
        0 <= segment_index < memory.data.len(),
    ensures
        used_size(memory.data[segment_index]) == memory.data[segment_index].len(),
{
    let segment = memory.data[segment_index];
    assert(segment.len() > 0 ==> segment.last() is Some);
}

/// Two writes to two cells that both go well leave the same memory in
/// either order.
pub proof fn lemma_writes_commute(
    memory: MemoryView,
    first: Relocatable,
    first_value: Word,
    second: Relocatable,
    second_value: Word,
)
    requires
        first != second,
        memory.insert(Word::Addr(first), first_value).0 is Ok,
        memory.insert(Word::Addr(first), first_value).1.insert(
            Word::Addr(second),
            second_value,
        ).0 is Ok,
    ensures
        memory.insert(Word::Addr(second), second_value).0 is Ok,
        memory.insert(Word::Addr(second), second_value).1.insert(
            Word::Addr(first),
            first_value,
        ).0 is Ok,
        memory.insert(Word::Addr(second), second_value).1.insert(
            Word::Addr(first),
            first_value,
        ).1 == memory.insert(Word::Addr(first), first_value).1.insert(
            Word::Addr(second),
            second_value,
        ).1,
{
    let one = memory.insert(Word::Addr(first), first_value).1;
    let one_two = one.insert(Word::Addr(second), second_value).1;
    let two = memory.insert(Word::Addr(second), second_value).1;
    let two_one = two.insert(Word::Addr(first), first_value).1;
    assert(one_two.data.len() == two_one.data.len());
    assert forall|i: int| 0 <= i < one_two.data.len() implies one_two.data[i] =~= two_one.data[i] by {
    }
    assert(one_two.data =~= two_one.data);
}

/// Reading a written cell gives the value written, and no other cell changes
/// by the write.
pub proof fn lemma_write_then_get(memory: MemoryView, address: Relocatable, value: Word)
    requires
        address.segment_index < memory.data.len(),
    ensures
        memory.write(address, value).get(address) == Some(value),
        forall|a: Relocatable| a != address ==> memory.write(address, value).get(a) == memory.get(a),
{
}

/// The integer that stands for `value` in the one address space that
/// `relocation_table` lays the segments out in: an integer stands for itself,
/// an address for the start of its segment plus its offset.
pub open spec fn relocate_value_spec(value: Word, relocation_table: Seq<usize>) -> Result<
    int,
    MemoryErrorView,
> {
    match value {
        Word::Int(v) => Ok(v),
        Word::Addr(a) => if a.segment_index < relocation_table.len() {
            Ok(relocation_table[a.segment_index as int] + a.offset)
        } else {
            Err(MemoryErrorView::Relocation)
        },
    }
}

/// The first `count` cells of `segment`, each with its value relocated.
pub open spec fn relocate_cells_spec(
    segment: Seq<Option<Word>>,
    relocation_table: Seq<usize>,
    count: int,
) -> Result<Seq<Option<int>>, MemoryErrorView>
    decreases count,
{
    if count <= 0 {
        Ok(Seq::empty())
    } else {
        match relocate_cells_spec(segment, relocation_table, count - 1) {
            Err(e) => Err(e),
            Ok(cells) => match segment[count - 1] {
                None => Ok(cells.push(None)),
                Some(value) => match relocate_value_spec(value, relocation_table) {
                    Ok(relocated) => Ok(cells.push(Some(relocated))),
                    Err(e) => Err(e),
                },
            },
        }
    }
}

/// The first `segments` segments of `memory` laid out one after the other
/// behind an empty cell at address 0, each starting where
/// `relocation_table` says.
pub open spec fn relocate_memory_spec(
    memory: MemoryView,
    relocation_table: Seq<usize>,
    segments: int,
) -> Result<Seq<Option<int>>, MemoryErrorView>
    decreases segments,
{
    if segments <= 0 {
        Ok(seq![None])
    } else {
        match relocate_memory_spec(memory, relocation_table, segments - 1) {
            Err(e) => Err(e),
            Ok(flat) => if segments > relocation_table.len() || flat.len()
                != relocation_table[segments - 1] {
                Err(MemoryErrorView::Relocation)
            } else {
                match relocate_cells_spec(
                    memory.data[segments - 1],
                    relocation_table,
                    memory.data[segments - 1].len() as int,
                ) {
                    Err(e) => Err(e),
                    Ok(cells) => Ok(flat + cells),
                }
            },
        }
    }
}

/// The values of the cells of a relocated memory.
pub open spec fn flat_view(flat: Vec<Option<FieldInt>>) -> Seq<Option<int>> {
    Seq::new(
        flat@.len(),
        |i: int|
            match flat@[i] {
                Some(value) => Some(value@),
                None => None,
            },
    )
}

/// The value of a relocated memory, or of the failure to relocate.
pub open spec fn flat_result_view(r: Result<Vec<Option<FieldInt>>, MemoryError>) -> Result<
    Seq<Option<int>>,
    MemoryErrorView,
> {
    match r {
        Ok(flat) => Ok(flat_view(flat)),
        Err(e) => Err(e@),
    }
}

/// The integer that stands for `value` in the one address space.
pub fn relocate_value(value: &MaybeRelocatable, relocation_table: &Vec<usize>) -> (r: Result<
    FieldInt,
    MemoryError,
>)
    ensures
        match r {
            Ok(relocated) => relocate_value_spec(value@, relocation_table@) == Ok::<
                int,
                MemoryErrorView,
            >(relocated@),
            Err(e) => relocate_value_spec(value@, relocation_table@) == Err::<
                int,
                MemoryErrorView,
            >(e@),
        },
{
    match value {
        MaybeRelocatable::Int(v) => Ok(v.clone()),
        MaybeRelocatable::RelocatableValue(address) => {
            if address.segment_index < relocation_table.len() {
                Ok(
                    FieldInt::from_usize(relocation_table[address.segment_index]).plus(
                        &FieldInt::from_usize(address.offset),
                    ),
                )
            } else {
                Err(MemoryError::Relocation)
            }
        },
    }
}

impl Memory {
    /// Lays the segments out one after the other, behind an empty cell at
    /// address 0, and relocates what the cells hold. Each segment has to
    /// start where `relocation_table` says.
    pub fn relocate_memory(&self, relocation_table: &Vec<usize>) -> (r: Result<
        Vec<Option<FieldInt>>,
        MemoryError,
    >)
        ensures
            flat_result_view(r) == relocate_memory_spec(
                self@,
                relocation_table@,
                self@.data.len() as int,
            ),
    {
        let mut flat: Vec<Option<FieldInt>> = Vec::new();
        flat.push(None);
        proof {
            assert(flat_view(flat) =~= seq![None]);
        }
        let mut index: usize = 0;
        while index < self.data.len()
            invariant
                index <= self.data.len(),
                relocate_memory_spec(self@, relocation_table@, index as int) == Ok::<
                    Seq<Option<int>>,
                    MemoryErrorView,
                >(flat_view(flat)),
            decreases self.data.len() - index,
        {
            if index >= relocation_table.len() || flat.len() != relocation_table[index] {
                proof {
                    lemma_relocate_memory_failure(
                        self@,
                        relocation_table@,
                        index + 1,
                        self@.data.len() as int,
                    );
                }
                return Err(MemoryError::Relocation);
            }
            let ghost before = flat_view(flat);
            let ghost segment = self@.data[index as int];
            let mut offset: usize = 0;
            proof {
                assert(flat_view(flat) =~= before + Seq::<Option<int>>::empty());
            }
            while offset < self.data[index].len()
                invariant
                    index < self.data.len(),
                    index < relocation_table.len(),
                    before.len() == relocation_table[index as int],
                    relocate_memory_spec(self@, relocation_table@, index as int) == Ok::<
                        Seq<Option<int>>,
                        MemoryErrorView,
                    >(before),
                    offset <= self.data[index as int].len(),
                    segment == self@.data[index as int],
                    segment.len() == self.data[index as int].len(),
                    relocate_cells_spec(segment, relocation_table@, offset as int) is Ok,
                    flat_view(flat) == before + relocate_cells_spec(
                        segment,
                        relocation_table@,
                        offset as int,
                    )->Ok_0,
                decreases self.data[index as int].len() - offset,
            {
                let ghost cells = relocate_cells_spec(
                    segment,
                    relocation_table@,
                    offset as int,
                )->Ok_0;
                let ghost old_flat = flat_view(flat);
                assert(segment[offset as int] == option_word(self.data[index as int][offset as int]));
                match &self.data[index][offset] {
                    Some(value) => {
                        match relocate_value(value, relocation_table) {
                            Ok(relocated) => {
                                flat.push(Some(relocated));
                                proof {
                                    assert(flat_view(flat) =~= old_flat.push(Some(relocated@)));
                                    assert(old_flat.push(Some(relocated@)) =~= before + cells.push(
                                        Some(relocated@),
                                    ));
                                }
                            },
                            Err(e) => {
                                proof {
                                    assert(relocate_cells_spec(
                                        segment,
                                        relocation_table@,
                                        offset + 1,
                                    ) == Err::<Seq<Option<int>>, MemoryErrorView>(e@));
                                    lemma_relocate_cells_failure(
                                        segment,
                                        relocation_table@,
                                        offset + 1,
                                        segment.len() as int,
                                    );
                                    assert(relocate_memory_spec(
                                        self@,
                                        relocation_table@,
                                        index + 1,
                                    ) == Err::<Seq<Option<int>>, MemoryErrorView>(e@));
                                    lemma_relocate_memory_failure(
                                        self@,
                                        relocation_table@,
                                        index + 1,
                                        self@.data.len() as int,
                                    );
                                }
                                return Err(e);
                            },
                        }
                    },
                    None => {
                        flat.push(None);
                        proof {
                            assert(flat_view(flat) =~= old_flat.push(None));
                            assert(old_flat.push(None) =~= before + cells.push(None));
                        }
                    },
                }
                offset += 1;
            }
            index += 1;
        }
        Ok(flat)
    }
}

/// Once the relocation of the first segments of a memory has failed, it
/// fails for every longer run of its segments with the same failure.
pub proof fn lemma_relocate_memory_failure(
    memory: MemoryView,
    relocation_table: Seq<usize>,
    failed: int,
    segments: int,
)
    requires
        failed <= segments,
        relocate_memory_spec(memory, relocation_table, failed) is Err,
    ensures
        relocate_memory_spec(memory, relocation_table, segments) == relocate_memory_spec(
            memory,
            relocation_table,
            failed,
        ),
    decreases segments - failed,
{
    if failed < segments {
        lemma_relocate_memory_failure(memory, relocation_table, failed, segments - 1);
    }
}

/// Once the relocation of the cells of a segment has failed, it fails for
/// every longer run of its cells with the same failure.
pub proof fn lemma_relocate_cells_failure(
    segment: Seq<Option<Word>>,
    relocation_table: Seq<usize>,
    failed: int,
    count: int,
)
    requires
        failed <= count,
        relocate_cells_spec(segment, relocation_table, failed) is Err,
    ensures
        relocate_cells_spec(segment, relocation_table, count) == relocate_cells_spec(
            segment,
            relocation_table,
            failed,
        ),
    decreases count - failed,
{
    if failed < count {
        lemma_relocate_cells_failure(segment, relocation_table, failed, count - 1);
    }
}

/// The value that stands for a cell in a relocated memory.
pub open spec fn relocated_cell_spec(cell: Option<Word>, relocation_table: Seq<usize>) -> Option<
    int,
> {
    match cell {
        Some(value) => match relocate_value_spec(value, relocation_table) {
            Ok(relocated) => Some(relocated),
            Err(_) => None,
        },
        None => None,
    }
}

/// The relocated cells of a segment are as many as its cells, and each
/// stands at the offset of its cell.
pub proof fn lemma_relocated_cells(
    segment: Seq<Option<Word>>,
    relocation_table: Seq<usize>,
    count: int,
)
    requires
        0 <= count,
        relocate_cells_spec(segment, relocation_table, count) is Ok,
    ensures
        relocate_cells_spec(segment, relocation_table, count)->Ok_0.len() == count,
        forall|k: int|
            0 <= k < count ==> #[trigger] relocate_cells_spec(
                segment,
                relocation_table,
                count,
            )->Ok_0[k] == relocated_cell_spec(segment[k], relocation_table),
    decreases count,
{
    if count > 0 {
        lemma_relocated_cells(segment, relocation_table, count - 1);
    }
}

/// In a relocated memory, the cell at offset `o` of segment `s` stands at
/// the address `T[s] + o`, where `T` is the relocation table.
pub proof fn lemma_relocated_cell_place(
    memory: MemoryView,
    relocation_table: Seq<usize>,
    segments: int,
    address: Relocatable,
)
    requires
        relocate_memory_spec(memory, relocation_table, segments) is Ok,
        address.segment_index < segments,
        address.offset < memory.data[address.segment_index as int].len(),
    ensures
        address.segment_index < relocation_table.len(),
        ({
            let flat = relocate_memory_spec(memory, relocation_table, segments)->Ok_0;
            let place = relocation_table[address.segment_index as int] + address.offset;
            &&& 0 < place < flat.len()
            &&& flat[place] == relocated_cell_spec(
                memory.data[address.segment_index as int][address.offset as int],
                relocation_table,
            )
        }),
    decreases segments,
{
    let before = relocate_memory_spec(memory, relocation_table, segments - 1)->Ok_0;
    lemma_relocated_memory_grows(memory, relocation_table, segments - 1);
    let segment = memory.data[segments - 1];
    lemma_relocated_cells(segment, relocation_table, segment.len() as int);
    if address.segment_index < segments - 1 {
        lemma_relocated_cell_place(memory, relocation_table, segments - 1, address);
    }
}

/// A relocated memory starts with the empty cell at address 0.
pub proof fn lemma_relocated_memory_grows(
    memory: MemoryView,
    relocation_table: Seq<usize>,
    segments: int,
)
    requires
        relocate_memory_spec(memory, relocation_table, segments) is Ok,
    ensures
        relocate_memory_spec(memory, relocation_table, segments)->Ok_0.len() >= 1,
    decreases segments,
{
    if segments > 0 {
        lemma_relocated_memory_grows(memory, relocation_table, segments - 1);
        let segment = memory.data[segments - 1];
        lemma_relocated_cells(segment, relocation_table, segment.len() as int);
    }
}

} // verus!
