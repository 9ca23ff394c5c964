//! The built-ins that a machine can carry. Each is known to the machine by
//! a name.

use crate::types::field_int::FieldInt;
use crate::types::relocatable::{MaybeRelocatable, Relocatable};
use crate::vm::vm_memory::memory::{Memory, ValidationRule, ValidationRuleView};
use crate::vm::vm_memory::memory_segments::MemorySegmentManager;
use vstd::prelude::*;

verus! {

/// The built-in that checks that the cells of its segment hold integers of
/// at least zero and below a bound.
#[derive(Debug)]
pub struct RangeCheckBuiltinRunner {
    pub base: Option<Relocatable>,
    pub bound: FieldInt,
}

/// The built-in whose segment collects the output of a program.
#[derive(Debug)]
pub struct OutputBuiltinRunner {
    pub base: Option<Relocatable>,
}

/// A built-in of a machine.
#[derive(Debug)]
pub enum BuiltinRunner {
    RangeCheck(RangeCheckBuiltinRunner),
    Output(OutputBuiltinRunner),
}

/// The mathematical value of a [`BuiltinRunner`].
pub enum BuiltinRunnerView {
    RangeCheck { base: Option<Relocatable>, bound: int },
    Output { base: Option<Relocatable> },
}

impl BuiltinRunnerView {
    /// The start of the segment of the built-in, once it has one.
    pub open spec fn base(self) -> Option<Relocatable> {
        match self {
            BuiltinRunnerView::RangeCheck { base, .. } => base,
            BuiltinRunnerView::Output { base } => base,
        }
    }

    /// The built-in with its segment at `to`.
    pub open spec fn with_base(self, to: Option<Relocatable>) -> BuiltinRunnerView {
        match self {
            BuiltinRunnerView::RangeCheck { bound, .. } => BuiltinRunnerView::RangeCheck {
                base: to,
                bound,
            },
            BuiltinRunnerView::Output { .. } => BuiltinRunnerView::Output { base: to },
        }
    }

    /// The rule that the built-in lays on its segment, where it has a rule
    /// and a segment.
    pub open spec fn rule(self) -> Option<(usize, ValidationRuleView)> {
        match self {
            BuiltinRunnerView::RangeCheck { base: Some(base), bound } => Some(
                (base.segment_index, ValidationRuleView::RangeCheck(bound)),
            ),
            _ => None,
        }
    }
}

impl View for BuiltinRunner {
    type V = BuiltinRunnerView;

    open spec fn view(&self) -> BuiltinRunnerView {
        match self {
            BuiltinRunner::RangeCheck(runner) => BuiltinRunnerView::RangeCheck {
                base: runner.base,
                bound: runner.bound@,
            },
            BuiltinRunner::Output(runner) => BuiltinRunnerView::Output { base: runner.base },
        }
    }
}

/// The built-ins with their names.
pub open spec fn builtins_view(builtin_runners: Vec<(String, BuiltinRunner)>) -> Seq<
    (Seq<char>, BuiltinRunnerView),
> {
    Seq::new(builtin_runners@.len(), |i: int| (builtin_runners@[i].0@, builtin_runners@[i].1@))
}

impl RangeCheckBuiltinRunner {
    /// A range check with the given bound, not yet placed in memory.
    pub fn new(bound: FieldInt) -> (r: RangeCheckBuiltinRunner)
        ensures
            r.bound@ == bound@,
            r.base is None,
    {
        RangeCheckBuiltinRunner { base: None, bound }
    }

    /// Lays the rule of the range check on its segment, once it has one.
    pub fn add_validation_rule(&self, memory: &mut Memory)
        ensures
            final(memory)@.data == old(memory)@.data,
            final(memory)@.rules == (match self.base {
                Some(base) => old(memory)@.rules.push(
                    (base.segment_index, ValidationRuleView::RangeCheck(self.bound@)),
                ),
                None => old(memory)@.rules,
            }),
    {
        match self.base {
            Some(base) => {
                memory.add_validation_rule(
                    base.segment_index,
                    ValidationRule::RangeCheck(self.bound.clone()),
                );
            },
            None => {},
        }
    }
}

impl BuiltinRunner {
    /// The start of the segment of the built-in, once it has one.
    pub open spec fn base_spec(&self) -> Option<Relocatable> {
        self@.base()
    }

    /// The start of the segment of the built-in, once it has one.
    #[verifier::when_used_as_spec(base_spec)]
    pub fn base(&self) -> (r: Option<Relocatable>)
        ensures
            r == self.base_spec(),
    {
        match self {
            BuiltinRunner::RangeCheck(runner) => runner.base,
            BuiltinRunner::Output(runner) => runner.base,
        }
    }

    /// Gives the built-in a new segment of its own.
    pub fn initialize_segments(
        &mut self,
        segments: &mut MemorySegmentManager,
        memory: &mut Memory,
    )
        requires
            old(segments).num_segments < usize::MAX,
        ensures
            final(self).base() == Some(
                Relocatable { segment_index: old(segments).num_segments, offset: 0 },
            ),
            final(self)@ == old(self)@.with_base(
                Some(Relocatable { segment_index: old(segments).num_segments, offset: 0 }),
            ),
            final(segments).num_segments == old(segments).num_segments + 1,
            final(segments).segment_used_sizes == old(segments).segment_used_sizes,
            final(memory)@.data == old(memory)@.data.push(Seq::empty()),
            final(memory)@.rules == old(memory)@.rules,
    {
        let base = segments.add(memory, None);
        match self {
            BuiltinRunner::RangeCheck(runner) => {
                runner.base = Some(base);
            },
            BuiltinRunner::Output(runner) => {
                runner.base = Some(base);
            },
        }
    }

    /// Lays the rule of the built-in on its segment.
    pub fn add_validation_rule(&self, memory: &mut Memory)
        ensures
            final(memory)@.data == old(memory)@.data,
            final(memory)@.rules == (match self@.rule() {
                Some(rule) => old(memory)@.rules.push(rule),
                None => old(memory)@.rules,
            }),
    {
        match self {
            BuiltinRunner::RangeCheck(runner) => {
                runner.add_validation_rule(memory);
            },
            BuiltinRunner::Output(_) => {},
        }
    }

    /// What the built-in can tell of the cell at `address`, which was not
    /// written: nothing, for a range check and for the output.
    pub fn deduce_memory_cell(&self, address: &Relocatable, memory: &Memory) -> (r: Option<
        MaybeRelocatable,
    >)
        ensures
            r is None,
    {
        None
    }
}

impl OutputBuiltinRunner {
    /// An output built-in not yet placed in memory.
    pub fn new() -> (r: OutputBuiltinRunner)
        ensures
            r.base is None,
    {
        OutputBuiltinRunner { base: None }
    }
}

} // verus!
