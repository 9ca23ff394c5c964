//! Sets a machine up for a program: lays out its segments, loads the
//! program and the stack of `main`, and places the registers.

use crate::types::field_int::FieldInt;
use crate::types::program::Program;
use crate::types::relocatable::{MaybeRelocatable, Relocatable, Word};
use crate::vm::context::run_context::{RunContext, RunContextView};
use crate::vm::errors::runner_errors::{RunnerError, RunnerErrorView};
use crate::vm::errors::vm_errors::{VirtualMachineError, VmErrorView};
use crate::vm::runners::builtin_runner::{
    builtins_view, BuiltinRunner, BuiltinRunnerView, OutputBuiltinRunner, RangeCheckBuiltinRunner,
};
use crate::vm::vm_core::{hints_view, run_until_pc_spec, VirtualMachine, VirtualMachineView};
use crate::vm::vm_memory::memory::{MemoryView, ValidationRuleView};
use crate::vm::vm_memory::memory_segments::{load_data_spec, words_view};
use vstd::arithmetic::power2::pow2;
use vstd::prelude::*;
use vstd::string::StringExecFns;

verus! {

/// A machine together with the program that it is set up for, and the
/// places that the set-up has chosen.
pub struct CairoRunner {
    pub program_data: Vec<MaybeRelocatable>,
    pub main: Option<usize>,
    pub vm: VirtualMachine,
    pub program_base: Option<Relocatable>,
    pub execution_base: Option<Relocatable>,
    pub initial_ap: Option<Relocatable>,
    pub initial_fp: Option<Relocatable>,
    pub initial_pc: Option<Relocatable>,
    pub final_pc: Option<Relocatable>,
}

/// The mathematical value of a [`CairoRunner`].
pub struct CairoRunnerView {
    pub program_data: Seq<Word>,
    pub main: Option<usize>,
    pub vm: VirtualMachineView,
    pub program_base: Option<Relocatable>,
    pub execution_base: Option<Relocatable>,
    pub initial_ap: Option<Relocatable>,
    pub initial_fp: Option<Relocatable>,
    pub initial_pc: Option<Relocatable>,
    pub final_pc: Option<Relocatable>,
}

/// The start of the segment of each of the built-ins, once it has one.
pub open spec fn bases_of(builtins: Seq<(Seq<char>, BuiltinRunnerView)>) -> Seq<
    Option<Relocatable>,
> {
    Seq::new(builtins.len(), |i: int| builtins[i].1.base())
}

/// The built-ins with the segment of each at the start of the segments from
/// `first` on, in their order.
pub open spec fn placed_builtins(builtins: Seq<(Seq<char>, BuiltinRunnerView)>, first: int) -> Seq<
    (Seq<char>, BuiltinRunnerView),
> {
    Seq::new(
        builtins.len(),
        |i: int| (builtins[i].0, builtins[i].1.with_base(Some(segment_base(first + i)))),
    )
}

impl View for CairoRunner {
    type V = CairoRunnerView;

    open spec fn view(&self) -> CairoRunnerView {
        CairoRunnerView {
            program_data: words_view(self.program_data),
            main: self.main,
            vm: self.vm@,
            program_base: self.program_base,
            execution_base: self.execution_base,
            initial_ap: self.initial_ap,
            initial_fp: self.initial_fp,
            initial_pc: self.initial_pc,
            final_pc: self.final_pc,
        }
    }
}

/// The built-ins that the first `count` of `names` ask for: an output for
/// `output`, a range check with the bound 2^128 for `range_check`, and
/// nothing for any other name. None has a segment yet.
pub open spec fn builtins_of_names(names: Seq<Seq<char>>, count: int) -> Seq<
    (Seq<char>, BuiltinRunnerView),
>
    decreases count,
{
    if count <= 0 {
        Seq::empty()
    } else {
        let before = builtins_of_names(names, count - 1);
        let name = names[count - 1];
        if name == "output"@ {
            before.push((name, BuiltinRunnerView::Output { base: None }))
        } else if name == "range_check"@ {
            before.push(
                (name, BuiltinRunnerView::RangeCheck { base: None, bound: pow2(128) as int }),
            )
        } else {
            before
        }
    }
}

/// The names of a list, each as a sequence of characters.
pub open spec fn names_of_strings(names: Vec<String>) -> Seq<Seq<char>> {
    Seq::new(names@.len(), |i: int| names@[i]@)
}

/// The machine with `count` more segments, all of them empty.
pub open spec fn add_segments(vm: VirtualMachineView, count: nat) -> VirtualMachineView {
    VirtualMachineView {
        num_segments: (vm.num_segments + count) as usize,
        memory: MemoryView {
            data: vm.memory.data + Seq::new(count, |i: int| Seq::<Option<Word>>::empty()),
            rules: vm.memory.rules,
        },
        ..vm
    }
}

/// The start of segment `index`.
pub open spec fn segment_base(index: int) -> Relocatable {
    Relocatable { segment_index: index as usize, offset: 0 }
}

/// What [`CairoRunner::initialize_segments`] leaves: a segment for the
/// program, unless it was given a place, one for the stack, and one for each
/// built-in, in this order.
pub open spec fn initialize_segments_spec(
    runner: CairoRunnerView,
    program_base: Option<Relocatable>,
) -> CairoRunnerView {
    let first = runner.vm.num_segments as int;
    let own = if program_base is None {
        1int
    } else {
        0int
    };
    CairoRunnerView {
        program_base: match program_base {
            Some(base) => Some(base),
            None => Some(segment_base(first)),
        },
        execution_base: Some(segment_base(first + own)),
        vm: add_segments(
            VirtualMachineView {
                builtin_runners: placed_builtins(runner.vm.builtin_runners, first + own + 1),
                ..runner.vm
            },
            (own + 1 + runner.vm.builtin_runners.len()) as nat,
        ),
        ..runner
    }
}

impl CairoRunner {
    /// A runner for `program`, with a machine that has the built-ins of the
    /// program, its hints and its references, and an empty memory.
    pub fn new(program: Program) -> (r: CairoRunner)
        ensures
            r@ == (CairoRunnerView {
                program_data: words_view(program.data),
                main: program.main,
                vm: VirtualMachineView {
                    run_context: RunContextView {
                        pc: Word::Addr(segment_base(0)),
                        ap: Word::Addr(segment_base(0)),
                        fp: Word::Addr(segment_base(0)),
                    },
                    prime: program.prime@,
                    builtin_runners: builtins_of_names(
                        names_of_strings(program.builtins),
                        program.builtins@.len() as int,
                    ),
                    num_segments: 0,
                    segment_used_sizes: None,
                    memory: MemoryView { data: Seq::empty(), rules: Seq::empty() },
                    references: program.references@,
                    trace: Seq::empty(),
                    program_base: None,
                    hints: hints_view(program.hints@),
                },
                program_base: None,
                execution_base: None,
                initial_ap: None,
                initial_fp: None,
                initial_pc: None,
                final_pc: None,
            }),
            program.prime@ > 1 ==> r.vm.wf(),
    {
        let output = String::from_str("output");
        let range_check = String::from_str("range_check");
        let mut builtin_runners: Vec<(String, BuiltinRunner)> = Vec::new();
        let mut i: usize = 0;
        proof {
            vstd::arithmetic::power2::lemma_pow2_pos(128);
            assert(builtins_view(builtin_runners)
                =~= builtins_of_names(names_of_strings(program.builtins), 0));
        }
        while i < program.builtins.len()
            invariant
                i <= program.builtins.len(),
                output@ == "output"@,
                range_check@ == "range_check"@,
                pow2(128) > 0,
                builtins_view(builtin_runners)
                    == builtins_of_names(names_of_strings(program.builtins), i as int),
                forall|k: int|
                    0 <= k < builtin_runners@.len() ==> (
                    #[trigger] builtin_runners@[k].1 matches BuiltinRunner::RangeCheck(runner)
                        ==> runner.bound@ > 0),
            decreases program.builtins.len() - i,
        {
            let ghost before = builtins_view(builtin_runners);
            if program.builtins[i] == output {
                builtin_runners.push(
                    (program.builtins[i].clone(), BuiltinRunner::Output(OutputBuiltinRunner::new())),
                );
                proof {
                    assert(builtins_view(builtin_runners)
                        =~= before.push(
                        (program.builtins@[i as int]@, BuiltinRunnerView::Output { base: None }),
                    ));
                }
            } else if program.builtins[i] == range_check {
                builtin_runners.push(
                    (
                        program.builtins[i].clone(),
                        BuiltinRunner::RangeCheck(
                            RangeCheckBuiltinRunner::new(FieldInt::one().shl(128)),
                        ),
                    ),
                );
                proof {
                    assert(builtins_view(builtin_runners)
                        =~= before.push(
                        (
                            program.builtins@[i as int]@,
                            BuiltinRunnerView::RangeCheck { base: None, bound: pow2(128) as int },
                        ),
                    ));
                }
            }
            i += 1;
        }
        let run_context = RunContext {
            pc: MaybeRelocatable::RelocatableValue(Relocatable { segment_index: 0, offset: 0 }),
            ap: MaybeRelocatable::RelocatableValue(Relocatable { segment_index: 0, offset: 0 }),
            fp: MaybeRelocatable::RelocatableValue(Relocatable { segment_index: 0, offset: 0 }),
        };
        let mut vm = VirtualMachine::new(program.prime, builtin_runners, run_context);
        vm.references = program.references;
        vm.hints = program.hints;
        let r = CairoRunner {
            program_data: program.data,
            main: program.main,
            vm,
            program_base: None,
            execution_base: None,
            initial_ap: None,
            initial_fp: None,
            initial_pc: None,
            final_pc: None,
        };
        proof {
            assert(r@.vm.memory.data =~= Seq::empty());
            assert(r@.vm.memory.rules =~= Seq::empty());
        }
        r
    }

    /// Gives the program, the stack and each built-in a segment, in this
    /// order. The program gets none of its own where `program_base` gives it
    /// a place.
    pub fn initialize_segments(&mut self, program_base: Option<Relocatable>)
        requires
            old(self).vm.segments.num_segments + old(self).vm.builtin_runners.len() + 2
                <= usize::MAX,
        ensures
            final(self)@ == initialize_segments_spec(old(self)@, program_base),
            old(self).vm.wf() ==> final(self).vm.wf(),
    {
        let ghost first = self.vm.segments.num_segments as int;
        let ghost own = if program_base is None {
            1int
        } else {
            0int
        };
        self.program_base = match program_base {
            Some(base) => Some(base),
            None => Some(self.vm.segments.add(&mut self.vm.memory, None)),
        };
        self.execution_base = Some(self.vm.segments.add(&mut self.vm.memory, None));
        let mut i: usize = 0;
        proof {
            assert(self.vm@.memory.data =~= old(self).vm@.memory.data + Seq::new(
                (own + 1) as nat,
                |k: int| Seq::<Option<Word>>::empty(),
            ));
        }
        while i < self.vm.builtin_runners.len()
            invariant
                i <= self.vm.builtin_runners.len(),
                first == old(self).vm.segments.num_segments,
                own == (if program_base is None {
                    1int
                } else {
                    0int
                }),
                first + own + 1 + self.vm.builtin_runners.len() <= usize::MAX,
                self.vm.builtin_runners.len() == old(self).vm.builtin_runners.len(),
                self.vm.segments.num_segments == first + own + 1 + i,
                self.vm.segments.segment_used_sizes == old(self).vm.segments.segment_used_sizes,
                self.vm@.memory.rules == old(self).vm@.memory.rules,
                self.vm@.memory.data == old(self).vm@.memory.data + Seq::new(
                    (own + 1 + i) as nat,
                    |k: int| Seq::<Option<Word>>::empty(),
                ),
                self.program_base == (match program_base {
                    Some(base) => Some(base),
                    None => Some(segment_base(first)),
                }),
                self.execution_base == Some(segment_base(first + own)),
                self.program_data == old(self).program_data,
                self.main == old(self).main,
                self.initial_ap == old(self).initial_ap,
                self.initial_fp == old(self).initial_fp,
                self.initial_pc == old(self).initial_pc,
                self.final_pc == old(self).final_pc,
                self.vm.run_context == old(self).vm.run_context,
                self.vm.prime == old(self).vm.prime,
                self.vm.references == old(self).vm.references,
                self.vm.trace == old(self).vm.trace,
                self.vm.program_base == old(self).vm.program_base,
                self.vm.hints == old(self).vm.hints,
                forall|k: int|
                    0 <= k < self.vm.builtin_runners.len() ==> (
                    #[trigger] self.vm.builtin_runners@[k]).0 == old(self).vm.builtin_runners@[k].0,
                forall|k: int|
                    0 <= k < i ==> (#[trigger] self.vm.builtin_runners@[k]).1@ == old(
                        self,
                    ).vm.builtin_runners@[k].1@.with_base(
                        Some(segment_base(first + own + 1 + k)),
                    ),
                forall|k: int|
                    i <= k < self.vm.builtin_runners.len() ==> (
                    #[trigger] self.vm.builtin_runners@[k]).1@ == old(
                        self,
                    ).vm.builtin_runners@[k].1@,
                old(self).vm.wf() ==> self.vm.wf(),
            decreases self.vm.builtin_runners.len() - i,
        {
            let ghost data_before = self.vm@.memory.data;
            self.vm.builtin_runners[i].1.initialize_segments(
                &mut self.vm.segments,
                &mut self.vm.memory,
            );
            proof {
                assert(self.vm@.memory.data =~= old(self).vm@.memory.data + Seq::new(
                    (own + 1 + i + 1) as nat,
                    |k: int| Seq::<Option<Word>>::empty(),
                ));
            }
            i += 1;
        }
        proof {
            let expected = initialize_segments_spec(old(self)@, program_base);
            assert(self@.vm.builtin_runners =~= expected.vm.builtin_runners);
            assert(self@.vm.memory.data =~= expected.vm.memory.data);
        }
    }
}

/// The value of the result of a step of the set-up.
pub open spec fn runner_result_view(r: Result<(), RunnerError>) -> Result<(), RunnerErrorView> {
    match r {
        Ok(()) => Ok(()),
        Err(e) => Err(e@),
    }
}

/// The value of a set-up that returns the `pc` at which the run ends.
pub open spec fn end_result_view(r: Result<Relocatable, RunnerError>) -> Result<
    Relocatable,
    RunnerErrorView,
> {
    match r {
        Ok(end) => Ok(end),
        Err(e) => Err(e@),
    }
}

/// The runner with `memory` for the memory of its machine.
pub open spec fn runner_with_memory(runner: CairoRunnerView, memory: MemoryView) -> CairoRunnerView {
    CairoRunnerView { vm: VirtualMachineView { memory, ..runner.vm }, ..runner }
}

/// The address `offset` cells after `base`.
pub open spec fn address_after(base: Relocatable, offset: int) -> Relocatable {
    Relocatable { segment_index: base.segment_index, offset: (base.offset + offset) as usize }
}

/// What [`CairoRunner::initialize_state`] returns, and the runner that it
/// leaves: `pc` starts at `entrypoint` in the program, the program is
/// loaded at its base, and `stack` at the base of the stack.
pub open spec fn initialize_state_spec(
    runner: CairoRunnerView,
    entrypoint: usize,
    stack: Seq<Word>,
) -> (Result<(), RunnerErrorView>, CairoRunnerView) {
    match runner.program_base {
        None => (Err(RunnerErrorView::NoProgBase), runner),
        Some(program_base) => {
            let placed = CairoRunnerView {
                initial_pc: Some(address_after(program_base, entrypoint as int)),
                ..runner
            };
            let program = load_data_spec(
                runner.vm.memory,
                Word::Addr(program_base),
                runner.program_data,
                0,
            );
            let with_program = runner_with_memory(placed, program.1);
            match program.0 {
                Err(e) => (Err(RunnerErrorView::MemoryInitializationError(e)), with_program),
                Ok(()) => match runner.execution_base {
                    None => (Err(RunnerErrorView::NoExecBase), with_program),
                    Some(execution_base) => {
                        let loaded = load_data_spec(
                            program.1,
                            Word::Addr(execution_base),
                            stack,
                            0,
                        );
                        let with_stack = runner_with_memory(placed, loaded.1);
                        match loaded.0 {
                            Err(e) => (
                                Err(RunnerErrorView::MemoryInitializationError(e)),
                                with_stack,
                            ),
                            Ok(()) => (Ok(()), with_stack),
                        }
                    },
                },
            }
        },
    }
}

/// What [`CairoRunner::initialize_function_entrypoint`] returns, and the
/// runner that it leaves.
///
/// A new segment stands for the end of the run: the `pc` to return to from
/// the function. `return_fp` and that `pc` go on top of `stack`, `ap` and
/// `fp` start behind them, and the state is set up with this stack.
pub open spec fn initialize_function_entrypoint_spec(
    runner: CairoRunnerView,
    entrypoint: usize,
    stack: Seq<Word>,
    return_fp: Word,
) -> (Result<Relocatable, RunnerErrorView>, CairoRunnerView) {
    let end = segment_base(runner.vm.num_segments as int);
    let with_end = CairoRunnerView { vm: add_segments(runner.vm, 1), ..runner };
    let full_stack = stack.push(return_fp).push(Word::Addr(end));
    match runner.execution_base {
        None => (Err(RunnerErrorView::NoExecBaseForEntrypoint), with_end),
        Some(execution_base) => {
            let frame = address_after(execution_base, full_stack.len() as int);
            let framed = CairoRunnerView {
                initial_fp: Some(frame),
                initial_ap: Some(frame),
                ..with_end
            };
            let state = initialize_state_spec(framed, entrypoint, full_stack);
            match state.0 {
                Err(e) => (Err(e), state.1),
                Ok(()) => (Ok(end), CairoRunnerView { final_pc: Some(end), ..state.1 }),
            }
        },
    }
}

/// The stack that `main` starts with: the start of the segment of each
/// built-in, which each must have.
pub open spec fn initial_stack_spec(bases: Seq<Option<Relocatable>>) -> Result<
    Seq<Word>,
    RunnerErrorView,
> {
    if forall|i: int| 0 <= i < bases.len() ==> (#[trigger] bases[i]) is Some {
        Ok(Seq::new(bases.len(), |i: int| Word::Addr(bases[i]->Some_0)))
    } else {
        Err(RunnerErrorView::UninitializedBase)
    }
}

/// What [`CairoRunner::initialize_main_entrypoint`] returns, and the runner
/// that it leaves: a new segment stands for the frame to return to from
/// `main`, and `main` is set up as a function on the stack of the built-ins.
pub open spec fn initialize_main_entrypoint_spec(runner: CairoRunnerView) -> (
    Result<Relocatable, RunnerErrorView>,
    CairoRunnerView,
) {
    match initial_stack_spec(bases_of(runner.vm.builtin_runners)) {
        Err(e) => (Err(e), runner),
        Ok(stack) => {
            let return_fp = segment_base(runner.vm.num_segments as int);
            let with_frame = CairoRunnerView { vm: add_segments(runner.vm, 1), ..runner };
            match runner.main {
                None => (Err(RunnerErrorView::MissingMain), with_frame),
                Some(main) => initialize_function_entrypoint_spec(
                    with_frame,
                    main,
                    stack,
                    Word::Addr(return_fp),
                ),
            }
        },
    }
}

/// Whether the addresses that the set-up of a function computes are
/// addresses that the machine can hold.
pub open spec fn entrypoint_fits(runner: CairoRunnerView, entrypoint: usize, stack_len: nat)
    -> bool {
    &&& runner.vm.num_segments < usize::MAX
    &&& runner.program_base matches Some(base) ==> base.offset + entrypoint <= usize::MAX
        && base.offset + runner.program_data.len() <= usize::MAX
    &&& runner.execution_base matches Some(base) ==> base.offset + stack_len + 2 <= usize::MAX
}

impl CairoRunner {
    /// Places `pc` at `entrypoint` in the program, and loads the program and
    /// `stack` into memory.
    pub fn initialize_state(&mut self, entrypoint: usize, stack: Vec<MaybeRelocatable>) -> (r:
        Result<(), RunnerError>)
        requires
            old(self).program_base matches Some(base) ==> base.offset + entrypoint <= usize::MAX
                && base.offset + old(self).program_data.len() <= usize::MAX,
            old(self).execution_base matches Some(base) ==> base.offset + stack.len()
                <= usize::MAX,
        ensures
            (runner_result_view(r), final(self)@) == initialize_state_spec(
                old(self)@,
                entrypoint,
                words_view(stack),
            ),
            old(self).vm.wf() ==> final(self).vm.wf(),
    {
        let program_base = match self.program_base {
            Some(base) => base,
            None => {
                return Err(RunnerError::NoProgBase);
            },
        };
        self.initial_pc = Some(
            Relocatable {
                segment_index: program_base.segment_index,
                offset: program_base.offset + entrypoint,
            },
        );
        let data = clone_words(&self.program_data);
        match self.vm.segments.load_data(
            &mut self.vm.memory,
            &MaybeRelocatable::RelocatableValue(program_base),
            data,
        ) {
            Ok(_) => {},
            Err(e) => {
                return Err(RunnerError::MemoryInitializationError(e));
            },
        }
        let execution_base = match self.execution_base {
            Some(base) => base,
            None => {
                return Err(RunnerError::NoExecBase);
            },
        };
        match self.vm.segments.load_data(
            &mut self.vm.memory,
            &MaybeRelocatable::RelocatableValue(execution_base),
            stack,
        ) {
            Ok(_) => Ok(()),
            Err(e) => Err(RunnerError::MemoryInitializationError(e)),
        }
    }

    /// Sets the runner up to run the function at `entrypoint` on `stack`, and
    /// returns the `pc` at which its run ends.
    pub fn initialize_function_entrypoint(
        &mut self,
        entrypoint: usize,
        stack: Vec<MaybeRelocatable>,
        return_fp: MaybeRelocatable,
    ) -> (r: Result<Relocatable, RunnerError>)
        requires
            entrypoint_fits(old(self)@, entrypoint, stack@.len()),
        ensures
            (end_result_view(r), final(self)@) == initialize_function_entrypoint_spec(
                old(self)@,
                entrypoint,
                words_view(stack),
                return_fp@,
            ),
            old(self).vm.wf() ==> final(self).vm.wf(),
    {
        let end = self.vm.segments.add(&mut self.vm.memory, None);
        let ghost lower = words_view(stack);
        let mut stack = stack;
        stack.push(return_fp);
        stack.push(MaybeRelocatable::RelocatableValue(end));
        proof {
            assert(words_view(stack) =~= lower.push(return_fp@).push(Word::Addr(end)));
            assert(self@.vm.memory.data =~= add_segments(old(self)@.vm, 1).memory.data);
        }
        let execution_base = match self.execution_base {
            Some(base) => base,
            None => {
                return Err(RunnerError::NoExecBaseForEntrypoint);
            },
        };
        let frame = Relocatable {
            segment_index: execution_base.segment_index,
            offset: execution_base.offset + stack.len(),
        };
        self.initial_fp = Some(frame);
        self.initial_ap = Some(frame);
        match self.initialize_state(entrypoint, stack) {
            Ok(()) => {},
            Err(e) => {
                return Err(e);
            },
        }
        self.final_pc = Some(end);
        Ok(end)
    }

    /// The stack that `main` starts with.
    fn initial_stack(&self) -> (r: Result<Vec<MaybeRelocatable>, RunnerError>)
        ensures
            match r {
                Ok(stack) => initial_stack_spec(bases_of(self@.vm.builtin_runners)) == Ok::<
                    Seq<Word>,
                    RunnerErrorView,
                >(words_view(stack)) && stack@.len() == self.vm.builtin_runners@.len(),
                Err(e) => initial_stack_spec(bases_of(self@.vm.builtin_runners)) == Err::<
                    Seq<Word>,
                    RunnerErrorView,
                >(e@),
            },
    {
        let mut stack: Vec<MaybeRelocatable> = Vec::new();
        let mut i: usize = 0;
        while i < self.vm.builtin_runners.len()
            invariant
                i <= self.vm.builtin_runners.len(),
                stack@.len() == i,
                forall|k: int| 0 <= k < i ==> (#[trigger] bases_of(self@.vm.builtin_runners)[k]) is Some,
                forall|k: int|
                    0 <= k < i ==> (#[trigger] stack@[k])@ == Word::Addr(
                        bases_of(self@.vm.builtin_runners)[k]->Some_0,
                    ),
            decreases self.vm.builtin_runners.len() - i,
        {
            assert(bases_of(self@.vm.builtin_runners)[i as int]
                == self.vm.builtin_runners@[i as int].1.base_spec());
            match self.vm.builtin_runners[i].1.base() {
                Some(base) => {
                    stack.push(MaybeRelocatable::RelocatableValue(base));
                },
                None => {
                    assert(bases_of(self@.vm.builtin_runners)[i as int] is None);
                    return Err(RunnerError::UninitializedBase);
                },
            }
            i += 1;
        }
        proof {
            let bases = bases_of(self@.vm.builtin_runners);
            assert(words_view(stack) =~= Seq::new(
                bases.len(),
                |i: int| Word::Addr(bases[i]->Some_0),
            ));
        }
        Ok(stack)
    }

    /// Sets the runner up to run `main`, and returns the `pc` at which the
    /// run ends.
    pub fn initialize_main_entrypoint(&mut self) -> (r: Result<Relocatable, RunnerError>)
        requires
            old(self).vm.segments.num_segments + 2 <= usize::MAX,
            old(self).main matches Some(main) ==> (old(self).program_base matches Some(base)
                ==> base.offset + main <= usize::MAX && base.offset + old(
                self,
            ).program_data.len() <= usize::MAX),
            old(self).execution_base matches Some(base) ==> base.offset + old(
                self,
            ).vm.builtin_runners.len() + 2 <= usize::MAX,
        ensures
            (end_result_view(r), final(self)@) == initialize_main_entrypoint_spec(old(self)@),
            old(self).vm.wf() ==> final(self).vm.wf(),
    {
        let stack = match self.initial_stack() {
            Ok(stack) => stack,
            Err(e) => {
                return Err(e);
            },
        };
        let return_fp = self.vm.segments.add(&mut self.vm.memory, None);
        proof {
            assert(self@.vm.memory.data =~= add_segments(old(self)@.vm, 1).memory.data);
        }
        let main = match self.main {
            Some(main) => main,
            None => {
                return Err(RunnerError::MissingMain);
            },
        };
        self.initialize_function_entrypoint(
            main,
            stack,
            MaybeRelocatable::RelocatableValue(return_fp),
        )
    }
}

/// A copy of `words`.
fn clone_words(words: &Vec<MaybeRelocatable>) -> (r: Vec<MaybeRelocatable>)
    ensures
        words_view(r) == words_view(*words),
        r@.len() == words@.len(),
{
    let mut copy: Vec<MaybeRelocatable> = Vec::new();
    let mut i: usize = 0;
    while i < words.len()
        invariant
            i <= words.len(),
            copy@.len() == i,
            forall|k: int| 0 <= k < i ==> (#[trigger] copy@[k])@ == words@[k]@,
        decreases words.len() - i,
    {
        copy.push(words[i].clone());
        i += 1;
    }
    proof {
        assert(words_view(copy) =~= words_view(*words));
    }
    copy
}

/// The rules that the first `count` built-ins lay on their segments.
pub open spec fn builtin_rules(builtins: Seq<(Seq<char>, BuiltinRunnerView)>, count: int) -> Seq<
    (usize, ValidationRuleView),
>
    decreases count,
{
    if count <= 0 {
        Seq::empty()
    } else {
        let before = builtin_rules(builtins, count - 1);
        match builtins[count - 1].1.rule() {
            Some(rule) => before.push(rule),
            None => before,
        }
    }
}

/// The runner with `run_context` for the registers of its machine.
pub open spec fn runner_with_registers(runner: CairoRunnerView, run_context: RunContextView)
    -> CairoRunnerView {
    CairoRunnerView { vm: VirtualMachineView { run_context, ..runner.vm }, ..runner }
}

/// What [`CairoRunner::initialize_vm`] returns, and the runner that it
/// leaves: the registers are placed one by one, the machine is told where the
/// program starts, the rules of the built-ins are laid on the memory, and
/// what the memory holds is held against them.
pub open spec fn initialize_vm_spec(runner: CairoRunnerView) -> (
    Result<(), RunnerErrorView>,
    CairoRunnerView,
) {
    let registers = runner.vm.run_context;
    let rules = builtin_rules(runner.vm.builtin_runners, runner.vm.builtin_runners.len() as int);
    match runner.initial_pc {
        None => (Err(RunnerErrorView::NoPC), runner),
        Some(pc) => {
            let with_pc = RunContextView { pc: Word::Addr(pc), ..registers };
            match runner.initial_ap {
                None => (Err(RunnerErrorView::NoAP), runner_with_registers(runner, with_pc)),
                Some(ap) => {
                    let with_ap = RunContextView { ap: Word::Addr(ap), ..with_pc };
                    match runner.initial_fp {
                        None => (
                            Err(RunnerErrorView::NoFP),
                            runner_with_registers(runner, with_ap),
                        ),
                        Some(fp) => {
                            let with_fp = RunContextView { fp: Word::Addr(fp), ..with_ap };
                            let placed = runner_with_registers(runner, with_fp);
                            match runner.program_base {
                                None => (Err(RunnerErrorView::NoProgBase), placed),
                                Some(base) => {
                                    let memory = MemoryView {
                                        data: runner.vm.memory.data,
                                        rules: runner.vm.memory.rules + rules,
                                    };
                                    let ready = CairoRunnerView {
                                        vm: VirtualMachineView {
                                            program_base: Some(base),
                                            memory,
                                            ..placed.vm
                                        },
                                        ..placed
                                    };
                                    match memory.validate_segments(memory.data.len() as int) {
                                        Err(e) => (
                                            Err(RunnerErrorView::MemoryValidationError(e)),
                                            ready,
                                        ),
                                        Ok(()) => (Ok(()), ready),
                                    }
                                },
                            }
                        },
                    }
                },
            }
        },
    }
}

impl CairoRunner {
    /// Places the registers of the machine, tells it where the program
    /// starts, and lays the rules of the built-ins on the memory.
    pub fn initialize_vm(&mut self) -> (r: Result<(), RunnerError>)
        ensures
            (runner_result_view(r), final(self)@) == initialize_vm_spec(old(self)@),
            final(self).vm.builtin_runners == old(self).vm.builtin_runners,
            old(self).vm.wf() ==> final(self).vm.wf(),
    {
        self.vm.run_context.pc = match self.initial_pc {
            Some(pc) => MaybeRelocatable::RelocatableValue(pc),
            None => {
                return Err(RunnerError::NoPC);
            },
        };
        self.vm.run_context.ap = match self.initial_ap {
            Some(ap) => MaybeRelocatable::RelocatableValue(ap),
            None => {
                return Err(RunnerError::NoAP);
            },
        };
        self.vm.run_context.fp = match self.initial_fp {
            Some(fp) => MaybeRelocatable::RelocatableValue(fp),
            None => {
                return Err(RunnerError::NoFP);
            },
        };
        self.vm.program_base = match self.program_base {
            Some(base) => Some(base),
            None => {
                return Err(RunnerError::NoProgBase);
            },
        };
        let mut i: usize = 0;
        proof {
            assert(self.vm@.memory.rules =~= old(self).vm@.memory.rules + builtin_rules(
                self.vm@.builtin_runners,
                0,
            ));
        }
        while i < self.vm.builtin_runners.len()
            invariant
                i <= self.vm.builtin_runners.len(),
                self.vm.builtin_runners == old(self).vm.builtin_runners,
                self.vm@.memory.data == old(self).vm@.memory.data,
                self.vm@.memory.rules == old(self).vm@.memory.rules + builtin_rules(
                    self.vm@.builtin_runners,
                    i as int,
                ),
                self.program_data == old(self).program_data,
                self.main == old(self).main,
                self.program_base == old(self).program_base,
                self.execution_base == old(self).execution_base,
                self.initial_ap == old(self).initial_ap,
                self.initial_fp == old(self).initial_fp,
                self.initial_pc == old(self).initial_pc,
                self.final_pc == old(self).final_pc,
                self.vm.prime == old(self).vm.prime,
                self.vm.segments == old(self).vm.segments,
                self.vm.references == old(self).vm.references,
                self.vm.trace == old(self).vm.trace,
                self.vm.hints == old(self).vm.hints,
                self.vm.program_base == old(self).program_base,
                old(self).initial_pc is Some,
                old(self).initial_ap is Some,
                old(self).initial_fp is Some,
                old(self).program_base is Some,
                self.vm.run_context@ == (RunContextView {
                    pc: Word::Addr(old(self).initial_pc->Some_0),
                    ap: Word::Addr(old(self).initial_ap->Some_0),
                    fp: Word::Addr(old(self).initial_fp->Some_0),
                }),
            decreases self.vm.builtin_runners.len() - i,
        {
            let ghost rules_before = self.vm@.memory.rules;
            self.vm.builtin_runners[i].1.add_validation_rule(&mut self.vm.memory);
            proof {
                assert(self.vm@.memory.rules =~= old(self).vm@.memory.rules + builtin_rules(
                    self.vm@.builtin_runners,
                    i + 1,
                ));
            }
            i += 1;
        }
        match self.vm.memory.validate_existing_memory() {
            Ok(()) => Ok(()),
            Err(e) => Err(RunnerError::MemoryValidationError(e)),
        }
    }

    /// Runs the machine until `pc` is `address`, but `max_steps` steps at
    /// most, and returns whether `pc` reached `address`.
    pub fn run_until_pc(&mut self, address: &MaybeRelocatable, max_steps: usize) -> (r: Result<
        bool,
        VirtualMachineError,
    >)
        requires
            old(self).vm.wf(),
        ensures
            match r {
                Ok(reached) => run_until_pc_spec(old(self).vm@, address@, max_steps as nat) == (
                    Ok::<bool, VmErrorView>(reached),
                    final(self).vm@,
                ),
                Err(e) => run_until_pc_spec(old(self).vm@, address@, max_steps as nat) == (
                    Err::<bool, VmErrorView>(e@),
                    final(self).vm@,
                ),
            },
            final(self).vm.wf(),
            final(self).vm.builtin_runners == old(self).vm.builtin_runners,
            final(self).vm.prime == old(self).vm.prime,
            final(self).vm.references == old(self).vm.references,
            final(self).vm.hints == old(self).vm.hints,
            final(self).vm.program_base == old(self).vm.program_base,
            final(self).program_data == old(self).program_data,
            final(self).main == old(self).main,
            final(self).program_base == old(self).program_base,
            final(self).execution_base == old(self).execution_base,
            final(self).initial_ap == old(self).initial_ap,
            final(self).initial_fp == old(self).initial_fp,
            final(self).initial_pc == old(self).initial_pc,
            final(self).final_pc == old(self).final_pc,
    {
        self.vm.run_until_pc(address, max_steps)
    }
}

} // verus!
