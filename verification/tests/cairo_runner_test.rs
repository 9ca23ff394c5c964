use cleopatra_cairo::types::field_int::FieldInt;
use cleopatra_cairo::types::instruction::Register;
use cleopatra_cairo::types::program::Program;
use cleopatra_cairo::types::relocatable::{MaybeRelocatable, Relocatable};
use cleopatra_cairo::vm::errors::memory_errors::MemoryError;
use cleopatra_cairo::vm::errors::runner_errors::RunnerError;
use cleopatra_cairo::vm::errors::vm_errors::VirtualMachineError;
use cleopatra_cairo::vm::hints::execute_hint::{ApTracking, HintData, HintIds, HintReference};
use cleopatra_cairo::vm::runners::builtin_runner::BuiltinRunner;
use cleopatra_cairo::vm::runners::cairo_runner::CairoRunner;
use cleopatra_cairo::vm::trace::trace_entry::{relocate_trace, RelocatedTraceEntry};
use std::collections::HashMap;

fn big(v: i64) -> FieldInt {
    FieldInt::from_i64(v)
}

fn num(v: i64) -> MaybeRelocatable {
    MaybeRelocatable::Int(big(v))
}

fn addr(segment_index: usize, offset: usize) -> MaybeRelocatable {
    MaybeRelocatable::from((segment_index, offset))
}

/// 2^251 + 17 * 2^192 + 1
fn cairo_prime() -> FieldInt {
    big(1).shl(251).plus(&big(17).shl(192)).plus(&big(1))
}

fn program(builtins: &[&str], data: Vec<MaybeRelocatable>, main: Option<usize>) -> Program {
    Program {
        builtins: builtins.iter().map(|name| String::from(*name)).collect(),
        prime: cairo_prime(),
        data,
        main,
        hints: HashMap::new(),
        references: HashMap::new(),
    }
}

/// fib(first, second, n): the program calls it with 1, 0 and 10, and asserts that it returns 55.
fn fibonacci() -> Vec<MaybeRelocatable> {
    let p = cairo_prime();
    vec![
        num(0x480680017fff8000),
        num(1),
        num(0x480680017fff8000),
        num(0),
        num(0x480680017fff8000),
        num(10),
        num(0x1104800180018000),
        num(5),
        num(0x400680017fff7fff),
        num(55),
        num(0x208b7fff7fff7ffe),
        num(0x20780017fff7ffd),
        num(5),
        num(0x480a7ffc7fff8000),
        num(0x480a7ffc7fff8000),
        num(0x208b7fff7fff7ffe),
        num(0x482a7ffc7ffb8000),
        num(0x480a7ffc7fff8000),
        num(0x48127ffe7fff8000),
        num(0x482680017ffd8000),
        MaybeRelocatable::Int(p.minus(&big(1))),
        num(0x1104800180018000),
        MaybeRelocatable::Int(p.minus(&big(10))),
        num(0x208b7fff7fff7ffe),
    ]
}

fn ready(program: Program) -> (CairoRunner, Relocatable) {
    let mut runner = CairoRunner::new(program);
    runner.initialize_segments(None);
    let end = runner.initialize_main_entrypoint().unwrap();
    runner.initialize_vm().unwrap();
    (runner, end)
}

#[test]
fn new_runner_has_the_builtins_that_it_knows() {
    let runner = CairoRunner::new(program(
        &["output", "pedersen", "range_check", "output"],
        vec![],
        None,
    ));
    let names: Vec<&str> = runner
        .vm
        .builtin_runners
        .iter()
        .map(|(name, _)| name.as_str())
        .collect();
    assert_eq!(names, vec!["output", "range_check", "output"]);
    match &runner.vm.builtin_runners[1].1 {
        BuiltinRunner::RangeCheck(range_check) => {
            assert_eq!(range_check.bound, big(1).shl(128));
            assert_eq!(range_check.base, None);
        }
        other => panic!("{:?}", other),
    }
    assert!(matches!(
        runner.vm.builtin_runners[0].1,
        BuiltinRunner::Output(_)
    ));
    assert_eq!(runner.vm.prime, cairo_prime());
    assert_eq!(runner.vm.memory.data.len(), 0);
    assert_eq!(runner.program_base, None);
    assert_eq!(runner.execution_base, None);
}

#[test]
fn initialize_segments_gives_each_its_segment() {
    let mut runner = CairoRunner::new(program(&["output", "range_check"], vec![], None));
    runner.initialize_segments(None);
    assert_eq!(runner.program_base, Some(Relocatable::from((0, 0))));
    assert_eq!(runner.execution_base, Some(Relocatable::from((1, 0))));
    assert_eq!(
        runner.vm.builtin_runners[0].1.base(),
        Some(Relocatable::from((2, 0)))
    );
    assert_eq!(
        runner.vm.builtin_runners[1].1.base(),
        Some(Relocatable::from((3, 0)))
    );
    assert_eq!(runner.vm.segments.num_segments, 4);
    assert_eq!(runner.vm.memory.data.len(), 4);
}

#[test]
fn initialize_segments_with_a_place_for_the_program() {
    let mut runner = CairoRunner::new(program(&["output"], vec![], None));
    runner.initialize_segments(Some(Relocatable::from((5, 9))));
    assert_eq!(runner.program_base, Some(Relocatable::from((5, 9))));
    assert_eq!(runner.execution_base, Some(Relocatable::from((0, 0))));
    assert_eq!(
        runner.vm.builtin_runners[0].1.base(),
        Some(Relocatable::from((1, 0)))
    );
    assert_eq!(runner.vm.segments.num_segments, 2);
}

#[test]
fn initialize_state_loads_program_and_stack() {
    let mut runner = CairoRunner::new(program(&[], vec![num(4), num(6)], None));
    runner.initialize_segments(None);
    assert_eq!(runner.initialize_state(1, vec![num(9), addr(1, 0)]), Ok(()));
    assert_eq!(runner.initial_pc, Some(Relocatable::from((0, 1))));
    assert_eq!(runner.vm.memory.get(&addr(0, 0)), Ok(Some(&num(4))));
    assert_eq!(runner.vm.memory.get(&addr(0, 1)), Ok(Some(&num(6))));
    assert_eq!(runner.vm.memory.get(&addr(1, 0)), Ok(Some(&num(9))));
    assert_eq!(runner.vm.memory.get(&addr(1, 1)), Ok(Some(&addr(1, 0))));
}

#[test]
fn initialize_state_without_bases() {
    let mut runner = CairoRunner::new(program(&[], vec![num(4)], None));
    assert_eq!(
        runner.initialize_state(0, vec![]),
        Err(RunnerError::NoProgBase)
    );
    runner.vm.segments.add(&mut runner.vm.memory, None);
    runner.program_base = Some(Relocatable::from((0, 0)));
    assert_eq!(
        runner.initialize_state(0, vec![]),
        Err(RunnerError::NoExecBase)
    );
    assert_eq!(runner.vm.memory.get(&addr(0, 0)), Ok(Some(&num(4))));
}

#[test]
fn initialize_state_into_a_segment_that_is_not_there() {
    let mut runner = CairoRunner::new(program(&[], vec![num(4)], None));
    runner.initialize_segments(Some(Relocatable::from((7, 0))));
    assert_eq!(
        runner.initialize_state(0, vec![]),
        Err(RunnerError::MemoryInitializationError(
            MemoryError::UnallocatedSegment(7, 1)
        ))
    );
    let mut runner = CairoRunner::new(program(&[], vec![num(4)], None));
    runner.initialize_segments(None);
    runner.execution_base = Some(Relocatable::from((7, 0)));
    assert_eq!(
        runner.initialize_state(0, vec![num(1)]),
        Err(RunnerError::MemoryInitializationError(
            MemoryError::UnallocatedSegment(7, 2)
        ))
    );
}

#[test]
fn initialize_function_entrypoint_builds_the_frame() {
    let mut runner = CairoRunner::new(program(&[], vec![num(4), num(6)], None));
    runner.initialize_segments(None);
    let end = runner
        .initialize_function_entrypoint(1, vec![num(9)], addr(8, 8))
        .unwrap();
    assert_eq!(end, Relocatable::from((2, 0)));
    assert_eq!(runner.final_pc, Some(end));
    assert_eq!(runner.initial_fp, Some(Relocatable::from((1, 3))));
    assert_eq!(runner.initial_ap, Some(Relocatable::from((1, 3))));
    assert_eq!(runner.initial_pc, Some(Relocatable::from((0, 1))));
    assert_eq!(runner.vm.memory.get(&addr(1, 0)), Ok(Some(&num(9))));
    assert_eq!(runner.vm.memory.get(&addr(1, 1)), Ok(Some(&addr(8, 8))));
    assert_eq!(runner.vm.memory.get(&addr(1, 2)), Ok(Some(&addr(2, 0))));
}

#[test]
fn initialize_function_entrypoint_without_execution_base() {
    let mut runner = CairoRunner::new(program(&[], vec![], None));
    assert_eq!(
        runner.initialize_function_entrypoint(0, vec![], addr(0, 0)),
        Err(RunnerError::NoExecBaseForEntrypoint)
    );
    assert_eq!(runner.vm.segments.num_segments, 1);
}

#[test]
fn initialize_main_entrypoint_puts_the_builtins_on_the_stack() {
    let mut runner = CairoRunner::new(program(
        &["output", "range_check"],
        vec![num(4)],
        Some(0),
    ));
    runner.initialize_segments(None);
    let end = runner.initialize_main_entrypoint().unwrap();
    assert_eq!(end, Relocatable::from((5, 0)));
    assert_eq!(runner.vm.memory.get(&addr(1, 0)), Ok(Some(&addr(2, 0))));
    assert_eq!(runner.vm.memory.get(&addr(1, 1)), Ok(Some(&addr(3, 0))));
    assert_eq!(runner.vm.memory.get(&addr(1, 2)), Ok(Some(&addr(4, 0))));
    assert_eq!(runner.vm.memory.get(&addr(1, 3)), Ok(Some(&addr(5, 0))));
    assert_eq!(runner.initial_fp, Some(Relocatable::from((1, 4))));
    assert_eq!(runner.initial_pc, Some(Relocatable::from((0, 0))));
}

#[test]
fn initialize_main_entrypoint_without_main() {
    let mut runner = CairoRunner::new(program(&[], vec![num(4)], None));
    runner.initialize_segments(None);
    assert_eq!(
        runner.initialize_main_entrypoint(),
        Err(RunnerError::MissingMain)
    );
}

#[test]
fn initialize_main_entrypoint_before_the_segments() {
    let mut runner = CairoRunner::new(program(&["output"], vec![num(4)], Some(0)));
    assert_eq!(
        runner.initialize_main_entrypoint(),
        Err(RunnerError::UninitializedBase)
    );
    assert_eq!(runner.vm.segments.num_segments, 0);
}

#[test]
fn initialize_vm_places_the_registers() {
    let mut runner = CairoRunner::new(program(&["range_check"], vec![num(4)], Some(0)));
    runner.initialize_segments(None);
    runner.initialize_main_entrypoint().unwrap();
    assert_eq!(runner.initialize_vm(), Ok(()));
    assert_eq!(runner.vm.run_context.pc, addr(0, 0));
    assert_eq!(runner.vm.run_context.ap, addr(1, 3));
    assert_eq!(runner.vm.run_context.fp, addr(1, 3));
    assert_eq!(runner.vm.program_base, Some(Relocatable::from((0, 0))));
    // the rule of the range check is laid on its segment
    assert_eq!(
        runner.vm.memory.insert(&addr(2, 0), &num(-1)),
        Err(MemoryError::NumOutOfBounds)
    );
    assert_eq!(runner.vm.memory.insert(&addr(2, 1), &num(1)), Ok(()));
    assert_eq!(runner.vm.memory.insert(&addr(1, 9), &num(-1)), Ok(()));
}

#[test]
fn initialize_vm_without_registers() {
    let mut runner = CairoRunner::new(program(&[], vec![], None));
    assert_eq!(runner.initialize_vm(), Err(RunnerError::NoPC));
    runner.initial_pc = Some(Relocatable::from((0, 1)));
    assert_eq!(runner.initialize_vm(), Err(RunnerError::NoAP));
    assert_eq!(runner.vm.run_context.pc, addr(0, 1));
    runner.initial_ap = Some(Relocatable::from((1, 2)));
    assert_eq!(runner.initialize_vm(), Err(RunnerError::NoFP));
    runner.initial_fp = Some(Relocatable::from((1, 2)));
    assert_eq!(runner.initialize_vm(), Err(RunnerError::NoProgBase));
    assert_eq!(runner.vm.run_context.fp, addr(1, 2));
    runner.program_base = Some(Relocatable::from((0, 0)));
    assert_eq!(runner.initialize_vm(), Ok(()));
}

#[test]
fn initialize_vm_finds_a_value_that_a_rule_refuses() {
    let mut runner = CairoRunner::new(program(&["range_check"], vec![num(4)], Some(0)));
    runner.initialize_segments(None);
    runner.initialize_main_entrypoint().unwrap();
    runner.vm.memory.insert(&addr(2, 0), &num(1)).unwrap();
    runner.vm.memory.insert(&addr(2, 3), &addr(0, 0)).unwrap();
    assert_eq!(
        runner.initialize_vm(),
        Err(RunnerError::MemoryValidationError(MemoryError::FoundNonInt))
    );
}

#[test]
fn fibonacci_through_the_runner() {
    let (mut runner, end) = ready(program(&[], fibonacci(), Some(0)));
    assert_eq!(end, Relocatable::from((3, 0)));
    assert_eq!(
        runner.run_until_pc(&MaybeRelocatable::from(end), 1000),
        Ok(true)
    );
    assert_eq!(runner.vm.trace.len(), 80);
    let ap = match &runner.vm.run_context.ap {
        MaybeRelocatable::RelocatableValue(ap) => *ap,
        other => panic!("{:?}", other),
    };
    assert_eq!(
        runner.vm.memory.get(&addr(1, ap.offset - 1)),
        Ok(Some(&num(55)))
    );
}

#[test]
fn fibonacci_relocated() {
    let (mut runner, end) = ready(program(&[], fibonacci(), Some(0)));
    runner
        .run_until_pc(&MaybeRelocatable::from(end), 1000)
        .unwrap();
    runner.vm.segments.compute_effective_sizes(&runner.vm.memory);
    let table = runner.vm.segments.relocate_segments().unwrap();
    let program_size = 24;
    let stack_size = runner.vm.memory.data[1].len();
    assert_eq!(
        table,
        vec![
            1,
            1 + program_size,
            1 + program_size + stack_size,
            1 + program_size + stack_size
        ]
    );
    let memory = runner.vm.memory.relocate_memory(&table).unwrap();
    assert_eq!(memory.len(), 1 + program_size + stack_size);
    assert_eq!(memory[0], None);
    assert_eq!(memory[1], Some(big(0x480680017fff8000)));
    assert_eq!(memory[10], Some(big(55)));
    // the frame and the pc that main returns to, relocated
    assert_eq!(
        memory[1 + program_size],
        Some(FieldInt::from_usize(1 + program_size + stack_size))
    );
    assert_eq!(
        memory[2 + program_size],
        Some(FieldInt::from_usize(1 + program_size + stack_size))
    );
    let trace = relocate_trace(&runner.vm.trace, &table).unwrap();
    assert_eq!(trace.len(), 80);
    assert_eq!(
        trace[0],
        RelocatedTraceEntry {
            ap: 3 + program_size,
            fp: 3 + program_size,
            pc: 1
        }
    );
    assert_eq!(trace[1].pc, 3);
    assert_eq!(trace[1].ap, 4 + program_size);
    assert_eq!(trace[79].pc, 11);
}

/// `[ap] = value; ap++; ret`, with the hint `assert_nn` on what was stored before the `ret`.
fn assert_nn_program(value: FieldInt) -> Program {
    let mut p = program(
        &["range_check"],
        vec![
            num(0x480680017fff8000),
            MaybeRelocatable::Int(value),
            num(0x208b7fff7fff7ffe),
        ],
        Some(0),
    );
    let mut ids = HintIds::new();
    ids.insert(String::from("a"), big(0));
    p.hints.insert(
        2,
        vec![HintData {
            hint_code: String::from("assert_nn"),
            ids,
            ap_tracking_data: ApTracking {
                group: 0,
                offset: 1,
            },
        }],
    );
    p.references.insert(
        0,
        HintReference {
            register: Register::AP,
            offset1: -1,
            offset2: 0,
            inner_dereference: false,
            ap_tracking_data: Some(ApTracking {
                group: 0,
                offset: 1,
            }),
        },
    );
    p
}

#[test]
fn program_with_assert_nn_of_five() {
    let (mut runner, end) = ready(assert_nn_program(big(5)));
    let cells_before = runner.vm.memory.data[1].len();
    assert_eq!(
        runner.run_until_pc(&MaybeRelocatable::from(end), 100),
        Ok(true)
    );
    assert_eq!(runner.vm.trace.len(), 2);
    // the program wrote one cell, and the hint none
    assert_eq!(runner.vm.memory.data[1].len(), cells_before + 1);
}

#[test]
fn program_with_assert_nn_of_the_largest_field_element() {
    let largest = cairo_prime().minus(&big(1));
    let (mut runner, end) = ready(assert_nn_program(largest.clone()));
    assert_eq!(
        runner.run_until_pc(&MaybeRelocatable::from(end), 100),
        Err(VirtualMachineError::ValueOutOfRange(largest))
    );
    assert_eq!(runner.vm.trace.len(), 1);
}

#[test]
fn program_that_runs_out_of_steps() {
    let (mut runner, end) = ready(program(&[], fibonacci(), Some(0)));
    assert_eq!(
        runner.run_until_pc(&MaybeRelocatable::from(end), 79),
        Ok(false)
    );
    assert_eq!(
        runner.run_until_pc(&MaybeRelocatable::from(end), 1),
        Ok(true)
    );
}
