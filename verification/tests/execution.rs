use rune::budget::Budget;
use rune::generator::{Generator, GeneratorState, Stream};
use rune::unit::{Call, Function, Inst, Unit};
use rune::value::Value;
use rune::vm::Vm;
use rune::vm_error::{CallFrame, VmError, VmErrorKind, VmHaltInfo};
use rune::vm_execution::{Driven, ExecutionState, Head, Turn, VmExecution, VmSendExecution};
use std::sync::Arc;

fn unit_of(functions: Vec<Function>) -> Arc<Unit> {
    Arc::new(Unit::new(functions))
}

fn plain(code: Vec<Inst>) -> Function {
    Function::new(Call::Immediate, 0, code)
}

/// `fn main() { yield 1; yield 2; 3 }`
fn two_yields() -> Arc<Unit> {
    unit_of(vec![plain(vec![
        Inst::Integer(1),
        Inst::Yield,
        Inst::Pop,
        Inst::Integer(2),
        Inst::Yield,
        Inst::Pop,
        Inst::Integer(3),
        Inst::Return,
    ])])
}

/// `inner() = 7`, `middle() = inner() + 1`, `outer() = middle() + 10`
fn three_deep() -> Arc<Unit> {
    unit_of(vec![
        plain(vec![Inst::Integer(7), Inst::Return]),
        plain(vec![
            Inst::Call { function: 0, args: 0 },
            Inst::Integer(1),
            Inst::Add,
            Inst::Return,
        ]),
        plain(vec![
            Inst::Call { function: 1, args: 0 },
            Inst::Integer(10),
            Inst::Add,
            Inst::Return,
        ]),
    ])
}

/// An error bound to the last of the given call frames, each a function
/// and an instruction pointer, outermost first.
fn bound(kind: VmErrorKind, frames: &[(usize, usize)]) -> VmError {
    VmError {
        kind,
        ip: Some(frames[frames.len() - 1].1),
        frames: frames.iter().map(|&(function, ip)| CallFrame { function, ip }).collect(),
    }
}

fn halted(halt: VmHaltInfo, frames: &[(usize, usize)]) -> VmError {
    bound(VmErrorKind::Halted { halt }, frames)
}

fn finished() -> VmError {
    VmError::new(VmErrorKind::Finished)
}

#[test]
fn yields_one_then_two_then_completes_with_three() {
    let mut execution = VmExecution::new(Vm::new(two_yields(), 0));
    assert_eq!(execution.resume(), Ok(GeneratorState::Yielded(Value::Integer(1))));
    assert_eq!(
        execution.resume_with(Value::Unit),
        Ok(GeneratorState::Yielded(Value::Integer(2)))
    );
    assert_eq!(execution.resume(), Ok(GeneratorState::Complete(Value::Integer(3))));
}

#[test]
fn resumed_value_reaches_the_script() {
    // `fn main() { let x = yield 1; x + 5 }`
    let unit = unit_of(vec![plain(vec![
        Inst::Integer(1),
        Inst::Yield,
        Inst::Integer(5),
        Inst::Add,
        Inst::Return,
    ])]);
    let mut execution = VmExecution::new(Vm::new(unit, 0));
    assert_eq!(execution.resume(), Ok(GeneratorState::Yielded(Value::Integer(1))));
    assert_eq!(
        execution.resume_with(Value::Integer(37)),
        Ok(GeneratorState::Complete(Value::Integer(42)))
    );
}

#[test]
fn complete_gives_what_the_function_returns() {
    let mut execution = VmExecution::new(Vm::new(three_deep(), 2));
    assert_eq!(execution.complete(), Ok(Value::Integer(18)));
    assert!(execution.frames.is_empty());
    assert_eq!(execution.vm().ip, 4);
    assert!(execution.vm().stack.is_empty());
}

#[test]
fn complete_fails_on_a_yield() {
    let mut execution = VmExecution::new(Vm::new(two_yields(), 0));
    assert_eq!(execution.complete(), Err(halted(VmHaltInfo::Yielded, &[(0, 2)])));
    // The execution stands at its yield, and can go on from there.
    assert!(!execution.is_finished());
    assert_eq!(execution.resume(), Ok(GeneratorState::Yielded(Value::Integer(2))));
}

#[test]
fn a_finished_execution_goes_no_further() {
    // Code goes on after the return: a second run would reach it.
    let unit = unit_of(vec![plain(vec![
        Inst::Integer(1),
        Inst::Return,
        Inst::Integer(2),
        Inst::Return,
    ])]);
    let mut execution = VmExecution::new(Vm::new(unit.clone(), 0));
    assert!(!execution.is_finished());
    assert_eq!(execution.resume(), Ok(GeneratorState::Complete(Value::Integer(1))));
    assert!(execution.is_finished());
    let after = (execution.vm().ip, execution.vm().stack.len(), execution.is_resumed());
    let mut budget = Budget::limited(3);
    assert_eq!(execution.resume(), Err(finished()));
    assert_eq!(execution.resume_with(Value::Integer(5)), Err(finished()));
    assert_eq!(execution.complete(), Err(finished()));
    assert_eq!(execution.step(), Err(finished()));
    assert_eq!(execution.drive(true), Err(finished()));
    assert_eq!(execution.drive(false), Err(finished()));
    assert_eq!(execution.turn(&mut budget, true), Err(finished()));
    assert_eq!(execution.start_resume(), Err(finished()));
    assert_eq!(execution.start_resume_with(Value::Unit), Err(finished()));
    assert_eq!(execution.step_turn(true), Err(finished()));
    // Nothing was pushed, nothing was run, and no budget was spent.
    assert_eq!(
        (execution.vm().ip, execution.vm().stack.len(), execution.is_resumed()),
        after
    );
    assert_eq!(budget.remaining(), Some(3));

    let mut execution = VmExecution::new(Vm::new(unit.clone(), 0));
    assert_eq!(execution.complete(), Ok(Value::Integer(1)));
    assert_eq!(execution.complete(), Err(finished()));

    let mut execution = VmExecution::new(Vm::new(unit, 0));
    assert_eq!(execution.step(), Ok(None));
    assert_eq!(execution.step(), Ok(Some(Value::Integer(1))));
    assert_eq!(execution.step(), Err(finished()));
}

#[test]
fn resume_with_tests_the_state_before_the_finish() {
    let mismatch = VmError::new(VmErrorKind::ExpectedExecutionState {
        expected: ExecutionState::Resumed,
        actual: ExecutionState::Initial,
    });
    // Stepped to its end, an execution is finished and was never resumed.
    let unit = unit_of(vec![plain(vec![Inst::Integer(3), Inst::Return])]);
    let mut execution = VmExecution::new(Vm::new(unit.clone(), 0));
    assert_eq!(execution.step(), Ok(None));
    assert_eq!(execution.step(), Ok(Some(Value::Integer(3))));
    assert!(execution.is_finished() && !execution.is_resumed());
    assert_eq!(execution.resume_with(Value::Unit), Err(mismatch.clone()));
    assert_eq!(execution.start_resume_with(Value::Unit), Err(mismatch.clone()));
    assert!(execution.vm().stack.is_empty());
    assert_eq!(execution.vm().ip, 2);
    // Without a value it is told that it has finished.
    assert_eq!(execution.resume(), Err(finished()));

    // So is one that was ended by hand.
    let mut execution = VmExecution::new(Vm::new(unit.clone(), 0));
    execution.vm_mut().push(Value::Integer(1));
    assert_eq!(execution.end(), Ok(Value::Integer(1)));
    assert_eq!(execution.resume_with(Value::Unit), Err(mismatch.clone()));

    // And one that failed inside a function that it called at once.
    let failing = unit_of(vec![
        plain(vec![Inst::Pop]),
        plain(vec![Inst::Call { function: 0, args: 0 }, Inst::Return]),
    ]);
    let mut execution = VmExecution::new(Vm::new(failing, 1));
    assert_eq!(
        execution.resume(),
        Err(bound(VmErrorKind::StackEmpty, &[(1, 0), (0, 0)]))
    );
    assert!(execution.is_finished() && !execution.is_resumed());
    assert_eq!(execution.resume_with(Value::Unit), Err(mismatch));

    // Resumed before and finished, it is told that it has finished.
    let mut execution = VmExecution::new(Vm::new(unit, 0));
    assert_eq!(execution.resume(), Ok(GeneratorState::Complete(Value::Integer(3))));
    assert!(execution.is_finished() && execution.is_resumed());
    assert_eq!(execution.resume_with(Value::Unit), Err(finished()));
}

#[test]
fn a_step_turn_has_a_budget_of_one_instruction() {
    let unit = unit_of(vec![
        Function::new(Call::Async, 0, vec![Inst::Integer(1), Inst::Return]),
        plain(vec![Inst::Call { function: 0, args: 0 }, Inst::Await, Inst::Return]),
    ]);
    let mut execution = VmExecution::new(Vm::new(unit.clone(), 1));
    assert_eq!(execution.step_turn(true), Ok(Turn::Continue));
    assert_eq!(execution.vm().ip, 1);
    let awaited = match execution.step_turn(true) {
        Ok(Turn::Awaited(awaited)) => awaited,
        other => panic!("expected an await, got {:?}", other),
    };
    assert_eq!(awaited.future, Vm::new(unit.clone(), 0));
    execution.vm_mut().push(Value::Integer(1));
    assert_eq!(execution.step_turn(true), Ok(Turn::Complete(Value::Integer(1))));
    assert_eq!(execution.step_turn(true), Err(finished()));

    let mut execution = VmExecution::new(Vm::new(three_deep(), 2));
    let mut stepped = VmExecution::new(Vm::new(three_deep(), 2));
    assert_eq!(execution.step_turn(false), Ok(Turn::Continue));
    assert_eq!(stepped.step(), Ok(None));
    assert_eq!(execution, stepped);
}

#[test]
fn a_driver_s_error_finishes_the_execution() {
    let unit = unit_of(vec![
        Function::new(Call::Async, 0, vec![Inst::Pop]),
        plain(vec![
            Inst::Call { function: 0, args: 0 },
            Inst::Await,
            Inst::Integer(9),
            Inst::Return,
        ]),
    ]);
    let mut execution = VmExecution::new(Vm::new(unit.clone(), 1));
    assert_eq!(execution.start_resume(), Ok(()));
    let awaited = match execution.drive(true) {
        Ok(Turn::Awaited(awaited)) => awaited,
        other => panic!("expected an await, got {:?}", other),
    };
    // The future fails. Its error is bound to it, and stays so.
    let error = VmExecution::new(awaited.future).complete().unwrap_err();
    assert_eq!(error, bound(VmErrorKind::StackEmpty, &[(0, 0)]));
    assert_eq!(execution.fail(error.clone()), error);
    assert!(execution.is_finished());
    // Nothing runs past the await.
    assert_eq!(execution.resume(), Err(finished()));
    assert_eq!(execution.vm().ip, 2);
    assert!(execution.vm().stack.is_empty());

    // An error that is bound to nothing is bound to where the execution
    // stands.
    let mut execution = VmExecution::new(Vm::new(three_deep(), 2));
    assert_eq!(execution.step(), Ok(None));
    assert_eq!(
        execution.fail(VmError::new(VmErrorKind::Overflow)),
        bound(VmErrorKind::Overflow, &[(2, 0), (1, 0)])
    );

    let mut stream = Stream::new(Vm::new(unit.clone(), 1));
    assert_eq!(stream.begin(Value::Unit), Ok(()));
    assert!(matches!(stream.poll(), Ok(Turn::Awaited(_))));
    assert_eq!(stream.fail(error.clone()), error);
    assert_eq!(stream.begin(Value::Unit), Err(finished()));
    assert_eq!(stream.poll(), Err(finished()));
    let mut done = Stream::new(Vm::new(unit_of(vec![plain(vec![Inst::Unit, Inst::Return])]), 0));
    assert_eq!(done.begin(Value::Unit), Ok(()));
    assert_eq!(done.poll(), Ok(Turn::Complete(Value::Unit)));
    assert_eq!(done.fail(error.clone()), error);

    let mut send = VmSendExecution::new(VmExecution::new(Vm::new(unit, 1)));
    assert_eq!(send.begin(), Ok(()));
    assert!(matches!(send.poll(), Ok(Driven::Awaited(_))));
    assert_eq!(send.fail(error.clone()), error);
    assert_eq!(send.poll(), Err(finished()));
}

#[test]
fn a_failed_execution_goes_no_further() {
    let unit = unit_of(vec![plain(vec![Inst::Pop, Inst::Integer(1), Inst::Return])]);
    let mut execution = VmExecution::new(Vm::new(unit, 0));
    assert_eq!(execution.resume(), Err(bound(VmErrorKind::StackEmpty, &[(0, 0)])));
    assert!(execution.is_finished());
    assert_eq!(execution.resume(), Err(finished()));
    assert_eq!(execution.step(), Err(finished()));
    assert_eq!(execution.vm().ip, 0);
    assert!(execution.vm().stack.is_empty());
}

#[test]
fn resume_with_needs_a_resumed_execution() {
    let mut execution = VmExecution::new(Vm::new(two_yields(), 0));
    assert!(!execution.is_resumed());
    assert_eq!(
        execution.resume_with(Value::Integer(9)),
        Err(VmError::new(VmErrorKind::ExpectedExecutionState {
            expected: ExecutionState::Resumed,
            actual: ExecutionState::Initial,
        }))
    );
    // Nothing was pushed and nothing was run.
    assert_eq!(execution.vm().ip, 0);
    assert!(execution.vm().stack.is_empty());
    assert!(!execution.is_resumed());
    // Without a value the same execution starts.
    assert_eq!(execution.resume(), Ok(GeneratorState::Yielded(Value::Integer(1))));
    assert!(execution.is_resumed());
}

#[test]
fn nested_results_return_last_in_first_out() {
    let mut execution = VmExecution::new(Vm::new(three_deep(), 2));
    // outer calls middle
    assert_eq!(execution.step(), Ok(None));
    assert_eq!(execution.frames.len(), 1);
    assert_eq!(execution.vm().function, 1);
    // middle calls inner
    assert_eq!(execution.step(), Ok(None));
    assert_eq!(execution.frames.len(), 2);
    assert_eq!(execution.vm().function, 0);
    // inner pushes 7 and returns: the 7 lands on middle, not on outer
    assert_eq!(execution.step(), Ok(None));
    assert_eq!(execution.step(), Ok(None));
    assert_eq!(execution.frames.len(), 1);
    assert_eq!(execution.vm().function, 1);
    assert_eq!(execution.vm().stack, vec![Value::Integer(7)]);
    assert_eq!(execution.vm().ip, 1);
    match &execution.head {
        Head::Owned(outer) => {
            assert!(outer.stack.is_empty());
            assert_eq!(outer.ip, 0);
        }
        Head::Borrowed(_) => panic!("the head is owned"),
    }
    // middle adds 1 and returns: the 8 lands on outer
    assert_eq!(execution.step(), Ok(None));
    assert_eq!(execution.step(), Ok(None));
    assert_eq!(execution.step(), Ok(None));
    assert!(execution.frames.is_empty());
    assert_eq!(execution.vm().function, 2);
    assert_eq!(execution.vm().stack, vec![Value::Integer(8)]);
    assert_eq!(execution.vm().ip, 1);
    // outer adds 10 and returns
    assert_eq!(execution.step(), Ok(None));
    assert_eq!(execution.step(), Ok(None));
    assert_eq!(execution.step(), Ok(Some(Value::Integer(18))));
}

#[test]
fn arguments_move_to_the_called_machine() {
    let unit = unit_of(vec![
        Function::new(Call::Immediate, 2, vec![Inst::Add, Inst::Return]),
        plain(vec![
            Inst::Integer(2),
            Inst::Integer(3),
            Inst::Call { function: 0, args: 2 },
            Inst::Return,
        ]),
    ]);
    let mut execution = VmExecution::new(Vm::new(unit, 1));
    assert_eq!(execution.complete(), Ok(Value::Integer(5)));
}

#[test]
fn async_call_is_not_run_at_the_call() {
    let unit = unit_of(vec![
        Function::new(Call::Async, 1, vec![Inst::Integer(1), Inst::Add, Inst::Return]),
        plain(vec![
            Inst::Integer(41),
            Inst::Call { function: 0, args: 1 },
            Inst::Return,
        ]),
    ]);
    let mut execution = VmExecution::new(Vm::new(unit.clone(), 1));
    let mut budget = Budget::unlimited();
    // The turn that serves the call nests nothing and moves the caller on.
    assert_eq!(execution.turn(&mut budget, false), Ok(Turn::Continue));
    assert!(execution.frames.is_empty());
    assert_eq!(execution.vm().ip, 2);
    let handle = Value::Future(Box::new(Vm::with_stack(unit.clone(), 0, vec![Value::Integer(41)])));
    assert_eq!(execution.vm().stack, vec![handle]);
    // The caller returns the future itself: a machine that has not started.
    let future = match execution.turn(&mut budget, false) {
        Ok(Turn::Complete(Value::Future(future))) => future,
        other => panic!("expected a future, got {:?}", other),
    };
    assert_eq!(future.ip, 0);
    assert_eq!(future.stack, vec![Value::Integer(41)]);
    // Run later, it gives the function's result.
    assert_eq!(VmExecution::new(*future).complete(), Ok(Value::Integer(42)));
}

#[test]
fn generator_and_stream_calls_are_wrapped_unstarted() {
    let unit = unit_of(vec![
        Function::new(Call::Generator, 0, vec![Inst::Integer(1), Inst::Yield, Inst::Return]),
        Function::new(Call::Stream, 0, vec![Inst::Integer(2), Inst::Yield, Inst::Return]),
        plain(vec![
            Inst::Call { function: 0, args: 0 },
            Inst::Call { function: 1, args: 0 },
            Inst::Tuple { count: 2 },
            Inst::Return,
        ]),
    ]);
    let mut execution = VmExecution::new(Vm::new(unit.clone(), 2));
    let tuple = match execution.complete() {
        Ok(Value::Tuple(tuple)) => tuple,
        other => panic!("expected a tuple, got {:?}", other),
    };
    assert_eq!(
        tuple.into_inner(),
        vec![
            Value::Generator(Box::new(Vm::new(unit.clone(), 0))),
            Value::Stream(Box::new(Vm::new(unit.clone(), 1))),
        ]
    );
}

#[test]
fn await_is_an_error_without_a_driver() {
    let unit = unit_of(vec![
        Function::new(Call::Async, 0, vec![Inst::Integer(1), Inst::Return]),
        plain(vec![Inst::Call { function: 0, args: 0 }, Inst::Await, Inst::Return]),
    ]);
    let mut execution = VmExecution::new(Vm::new(unit.clone(), 1));
    assert_eq!(execution.resume(), Err(halted(VmHaltInfo::Awaited, &[(1, 2)])));
    assert!(execution.is_finished());
    let mut execution = VmExecution::new(Vm::new(unit.clone(), 1));
    assert_eq!(execution.step(), Ok(None));
    assert_eq!(execution.step(), Err(halted(VmHaltInfo::Awaited, &[(1, 2)])));
}

#[test]
fn await_is_handed_to_a_driver() {
    let unit = unit_of(vec![
        Function::new(Call::Async, 0, vec![Inst::Integer(1), Inst::Return]),
        plain(vec![
            Inst::Call { function: 0, args: 0 },
            Inst::Await,
            Inst::Integer(1),
            Inst::Add,
            Inst::Return,
        ]),
    ]);
    let mut execution = VmExecution::new(Vm::new(unit.clone(), 1));
    let mut budget = Budget::unlimited();
    assert_eq!(execution.start_resume(), Ok(()));
    assert_eq!(execution.turn(&mut budget, true), Ok(Turn::Continue));
    let awaited = match execution.turn(&mut budget, true) {
        Ok(Turn::Awaited(awaited)) => awaited,
        other => panic!("expected an await, got {:?}", other),
    };
    assert_eq!(awaited.future, Vm::new(unit.clone(), 0));
    // The machine is past the await and waits for the result on its stack.
    assert_eq!(execution.vm().ip, 2);
    assert!(execution.vm().stack.is_empty());
    let resolved = VmExecution::new(awaited.future).complete().unwrap();
    execution.vm_mut().push(resolved);
    assert_eq!(
        execution.turn(&mut budget, true),
        Ok(Turn::Complete(Value::Integer(2)))
    );
}

#[test]
fn drive_goes_on_until_an_await_or_a_result() {
    let unit = unit_of(vec![
        Function::new(Call::Async, 1, vec![Inst::Return]),
        plain(vec![Inst::Integer(2), Inst::Return]),
        plain(vec![
            Inst::Call { function: 1, args: 0 },
            Inst::Call { function: 0, args: 1 },
            Inst::Await,
            Inst::Yield,
            Inst::Integer(1),
            Inst::Add,
            Inst::Return,
        ]),
    ]);
    let mut execution = VmExecution::new(Vm::new(unit.clone(), 2));
    assert_eq!(execution.start_resume(), Ok(()));
    let awaited = match execution.drive(true) {
        Ok(Turn::Awaited(awaited)) => awaited,
        other => panic!("expected an await, got {:?}", other),
    };
    assert_eq!(awaited.future.stack, vec![Value::Integer(2)]);
    assert_eq!(execution.vm().ip, 3);
    execution.vm_mut().push(VmExecution::new(awaited.future).complete().unwrap());
    assert_eq!(execution.drive(true), Ok(Turn::Yielded(Value::Integer(2))));
    assert_eq!(execution.start_resume_with(Value::Integer(4)), Ok(()));
    assert_eq!(execution.drive(true), Ok(Turn::Complete(Value::Integer(5))));
    assert_eq!(execution.drive(true), Err(finished()));

    // A driver that cannot wait fails at the await, in the same place.
    let mut waiting = VmExecution::new(Vm::new(unit.clone(), 2));
    let mut failing = VmExecution::new(Vm::new(unit.clone(), 2));
    assert!(matches!(waiting.drive(true), Ok(Turn::Awaited(_))));
    assert_eq!(failing.drive(false), Err(halted(VmHaltInfo::Awaited, &[(2, 3)])));
    assert!(failing.is_finished() && !waiting.is_finished());
    waiting.finished = true;
    assert_eq!(waiting, failing);

    // Without an await, driving is resuming.
    let mut driven = VmExecution::new(Vm::new(three_deep(), 2));
    assert_eq!(driven.start_resume(), Ok(()));
    let mut resumed = VmExecution::new(Vm::new(three_deep(), 2));
    assert_eq!(driven.drive(true), Ok(Turn::Complete(Value::Integer(18))));
    assert_eq!(resumed.resume(), Ok(GeneratorState::Complete(Value::Integer(18))));
    assert_eq!(driven, resumed);
}

#[test]
fn stepping_ends_as_one_resume_does() {
    let mut resumed = VmExecution::new(Vm::new(three_deep(), 2));
    let expected = resumed.resume();
    assert_eq!(expected, Ok(GeneratorState::Complete(Value::Integer(18))));

    let mut stepped = VmExecution::new(Vm::new(three_deep(), 2));
    let mut steps = 0;
    let value = loop {
        steps += 1;
        match stepped.step() {
            Ok(Some(value)) => break value,
            Ok(None) => continue,
            Err(error) => panic!("a step failed: {:?}", error),
        }
    };
    assert_eq!(value, Value::Integer(18));
    // One step for each of the ten instructions that are executed.
    assert_eq!(steps, 10);
    assert_eq!(stepped.head, resumed.head);
    assert_eq!(stepped.frames, resumed.frames);
}

#[test]
fn stepping_fails_as_one_resume_does() {
    let unit = unit_of(vec![plain(vec![Inst::Integer(1), Inst::Pop, Inst::Pop, Inst::Return])]);
    let mut resumed = VmExecution::new(Vm::new(unit.clone(), 0));
    let expected = bound(VmErrorKind::StackEmpty, &[(0, 2)]);
    assert_eq!(resumed.resume(), Err(expected.clone()));
    let mut stepped = VmExecution::new(Vm::new(unit, 0));
    assert_eq!(stepped.step(), Ok(None));
    assert_eq!(stepped.step(), Ok(None));
    assert_eq!(stepped.step(), Err(expected));
    assert_eq!(stepped.head, resumed.head);
    assert!(stepped.is_finished() && resumed.is_finished());
}

#[test]
fn step_drops_a_yielded_value_and_marks_the_execution_resumed() {
    let mut execution = VmExecution::new(Vm::new(two_yields(), 0));
    assert_eq!(execution.step(), Ok(None));
    assert_eq!(execution.vm().stack, vec![Value::Integer(1)]);
    assert!(!execution.is_resumed());
    // The yield: nothing is handed out, the value is gone.
    assert_eq!(execution.step(), Ok(None));
    assert!(execution.vm().stack.is_empty());
    assert_eq!(execution.vm().ip, 2);
    assert!(execution.is_resumed());
    // A resume goes on from there, with the unit value for the script to drop.
    assert_eq!(execution.resume(), Ok(GeneratorState::Yielded(Value::Integer(2))));
}

#[test]
fn generator_yields_in_order_then_completes_then_fails() {
    let mut generator = VmExecution::new(Vm::new(two_yields(), 0)).into_generator().unwrap();
    assert_eq!(generator.next(), Ok(Some(Value::Integer(1))));
    assert_eq!(generator.next(), Ok(Some(Value::Integer(2))));
    assert!(generator.execution.is_some());
    assert_eq!(generator.next(), Ok(None));
    assert!(generator.execution.is_none());
    assert_eq!(generator.next(), Err(VmError::new(VmErrorKind::GeneratorComplete)));
    assert_eq!(
        generator.resume(Value::Integer(1)),
        Err(VmError::new(VmErrorKind::GeneratorComplete))
    );
}

#[test]
fn generator_without_yields_completes_on_the_first_pull() {
    let unit = unit_of(vec![plain(vec![Inst::Integer(5), Inst::Return])]);
    let mut generator = Generator::new(Vm::new(unit, 0));
    assert_eq!(
        generator.resume(Value::Integer(9)),
        Ok(GeneratorState::Complete(Value::Integer(5)))
    );
    assert_eq!(generator.next(), Err(VmError::new(VmErrorKind::GeneratorComplete)));
}

#[test]
fn generator_keeps_its_execution_after_an_error() {
    let unit = unit_of(vec![plain(vec![Inst::Pop, Inst::Return])]);
    let mut generator = Generator::new(Vm::new(unit, 0));
    assert_eq!(generator.next(), Err(bound(VmErrorKind::StackEmpty, &[(0, 0)])));
    assert!(generator.execution.is_some());
    assert_eq!(generator.next(), Err(finished()));
}

#[test]
fn stream_is_driven_from_await_to_await() {
    let unit = unit_of(vec![
        Function::new(Call::Async, 0, vec![Inst::Integer(20), Inst::Return]),
        plain(vec![
            Inst::Call { function: 0, args: 0 },
            Inst::Await,
            Inst::Yield,
            Inst::Return,
        ]),
    ]);
    let mut stream = VmExecution::new(Vm::new(unit, 1)).into_stream().unwrap();
    assert_eq!(stream.begin(Value::Unit), Ok(()));
    let awaited = match stream.poll() {
        Ok(Turn::Awaited(awaited)) => awaited,
        other => panic!("expected an await, got {:?}", other),
    };
    let resolved = VmExecution::new(awaited.future).complete().unwrap();
    assert_eq!(stream.supply(resolved), Ok(()));
    assert_eq!(stream.poll(), Ok(Turn::Yielded(Value::Integer(20))));
    // The second pull hands the script a value, which it returns.
    assert_eq!(stream.begin(Value::Integer(3)), Ok(()));
    assert_eq!(stream.poll(), Ok(Turn::Complete(Value::Integer(3))));
    assert!(stream.execution.is_none());
    let complete = VmError::new(VmErrorKind::GeneratorComplete);
    assert_eq!(stream.begin(Value::Unit), Err(complete.clone()));
    assert_eq!(stream.poll(), Err(complete.clone()));
    assert_eq!(stream.supply(Value::Unit), Err(complete));
}

#[test]
fn stream_from_a_machine_starts_fresh() {
    let unit = unit_of(vec![plain(vec![Inst::Integer(5), Inst::Return])]);
    let mut stream = Stream::new(Vm::new(unit, 0));
    assert_eq!(stream.begin(Value::Integer(1)), Ok(()));
    assert_eq!(stream.poll(), Ok(Turn::Complete(Value::Integer(5))));
}

#[test]
fn dropping_a_suspended_execution_runs_nothing() {
    let mut vm = Vm::new(two_yields(), 0);
    {
        let mut execution = VmExecution::borrowed(&mut vm);
        assert_eq!(execution.resume(), Ok(GeneratorState::Yielded(Value::Integer(1))));
    }
    // The machine stands where the yield left it.
    assert_eq!(vm.ip, 2);
    assert!(vm.stack.is_empty());

    let mut vm = Vm::new(three_deep(), 2);
    {
        let mut execution = VmExecution::borrowed(&mut vm);
        assert_eq!(execution.step(), Ok(None));
        assert_eq!(execution.step(), Ok(None));
        assert_eq!(execution.frames.len(), 2);
        execution.release();
    }
    assert_eq!(vm.ip, 0);
    assert!(vm.stack.is_empty());
}

#[test]
fn borrowed_execution_works_on_the_lender_s_machine() {
    let mut vm = Vm::new(two_yields(), 0);
    let mut execution = VmExecution::borrowed(&mut vm);
    assert_eq!(execution.resume(), Ok(GeneratorState::Yielded(Value::Integer(1))));
    assert_eq!(execution.resume(), Ok(GeneratorState::Yielded(Value::Integer(2))));
    assert_eq!(execution.resume(), Ok(GeneratorState::Complete(Value::Integer(3))));
    assert_eq!(vm.ip, 8);
}

#[test]
fn into_owned_takes_the_work_and_leaves_an_empty_stack() {
    let mut vm = Vm::new(two_yields(), 0);
    vm.push(Value::Integer(99));
    let mut owned = {
        let mut execution = VmExecution::borrowed(&mut vm);
        assert_eq!(execution.resume(), Ok(GeneratorState::Yielded(Value::Integer(1))));
        execution.into_owned()
    };
    assert!(vm.stack.is_empty());
    assert_eq!(vm.ip, 2);
    assert!(owned.is_resumed());
    assert_eq!(owned.vm().stack, vec![Value::Integer(99)]);
    assert_eq!(owned.vm().ip, 2);
    assert_eq!(owned.resume_with(Value::Unit), Ok(GeneratorState::Yielded(Value::Integer(2))));
    // The lender's machine is no longer touched.
    assert_eq!(vm.ip, 2);

    let execution = VmExecution::new(Vm::new(two_yields(), 0));
    let same = execution.into_owned();
    assert_eq!(same.vm().ip, 0);
}

fn sendable<T: Send + 'static>(value: T) -> T {
    value
}

#[test]
fn send_execution_can_be_handed_over_and_driven() {
    let execution = VmExecution::new(Vm::new(three_deep(), 2));
    let mut execution = sendable(VmSendExecution::new(execution));
    assert_eq!(execution.begin(), Ok(()));
    assert_eq!(execution.poll(), Ok(Driven::Complete(Value::Integer(18))));
    assert_eq!(execution.poll(), Err(finished()));
    assert_eq!(execution.begin(), Err(finished()));
}

#[test]
fn send_execution_hands_out_awaits_and_refuses_yields() {
    let unit = unit_of(vec![
        Function::new(Call::Async, 0, vec![Inst::Integer(20), Inst::Return]),
        plain(vec![
            Inst::Call { function: 0, args: 0 },
            Inst::Await,
            Inst::Integer(1),
            Inst::Add,
            Inst::Return,
        ]),
        plain(vec![Inst::Integer(1), Inst::Yield, Inst::Return]),
    ]);
    let mut execution = VmSendExecution::new(VmExecution::new(Vm::new(unit.clone(), 1)));
    assert_eq!(execution.begin(), Ok(()));
    let awaited = match execution.poll() {
        Ok(Driven::Awaited(awaited)) => awaited,
        other => panic!("expected an await, got {:?}", other),
    };
    let mut future = VmSendExecution::new(VmExecution::new(awaited.future));
    assert_eq!(future.begin(), Ok(()));
    assert_eq!(future.poll(), Ok(Driven::Complete(Value::Integer(20))));
    execution.supply(Value::Integer(20));
    assert_eq!(execution.poll(), Ok(Driven::Complete(Value::Integer(21))));

    // It takes over an execution as it stands.
    let mut started = VmExecution::new(Vm::new(unit.clone(), 1));
    assert_eq!(started.step(), Ok(None));
    let mut execution = VmSendExecution::new(started);
    assert!(matches!(execution.poll(), Ok(Driven::Awaited(_))));

    let mut execution = VmSendExecution::new(VmExecution::new(Vm::new(unit, 2)));
    assert_eq!(execution.begin(), Ok(()));
    assert_eq!(execution.poll(), Err(halted(VmHaltInfo::Yielded, &[(2, 2)])));
}

#[test]
fn pop_vm_and_end_report_what_is_wrong() {
    let unit = unit_of(vec![plain(vec![Inst::Return])]);
    let mut execution = VmExecution::new(Vm::new(unit.clone(), 0));
    assert_eq!(execution.pop_vm(), Err(VmError::new(VmErrorKind::NoRunningVm)));
    assert_eq!(execution.end(), Err(VmError::new(VmErrorKind::StackEmpty)));

    execution.push_vm(Vm::new(unit.clone(), 0));
    assert_eq!(execution.end(), Err(VmError::new(VmErrorKind::RunningVm)));
    assert_eq!(execution.pop_vm(), Err(VmError::new(VmErrorKind::StackEmpty)));
    assert_eq!(execution.frames.len(), 1);

    execution.vm_mut().push(Value::Integer(1));
    execution.vm_mut().push(Value::Integer(2));
    assert_eq!(execution.pop_vm(), Err(VmError::new(VmErrorKind::StackNotClean)));
    assert_eq!(execution.frames.len(), 1);

    assert_eq!(execution.vm_mut().pop(), Ok(Value::Integer(2)));
    assert_eq!(execution.pop_vm(), Ok(()));
    assert!(execution.frames.is_empty());
    assert_eq!(execution.vm().stack, vec![Value::Integer(1)]);
    assert_eq!(execution.vm().ip, 1);
    assert_eq!(execution.end(), Ok(Value::Integer(1)));
}

#[test]
fn push_vm_keeps_the_calling_state_for_the_machine_beneath() {
    let unit = unit_of(vec![plain(vec![Inst::Integer(1), Inst::Yield, Inst::Return])]);
    let mut execution = VmExecution::new(Vm::new(unit.clone(), 0));
    assert_eq!(execution.start_resume(), Ok(()));
    assert!(execution.is_resumed());
    let mut nested = Vm::new(unit.clone(), 0);
    nested.push(Value::Integer(4));
    execution.push_vm(nested);
    assert!(!execution.is_resumed());
    assert_eq!(execution.frames[0].1, ExecutionState::Resumed);
    assert_eq!(execution.pop_vm(), Ok(()));
    assert!(execution.is_resumed());
}

#[test]
fn a_yield_in_a_nested_machine_marks_the_execution_resumed() {
    let unit = unit_of(vec![
        plain(vec![Inst::Integer(1), Inst::Yield, Inst::Return]),
        plain(vec![Inst::Call { function: 0, args: 0 }, Inst::Return]),
    ]);
    let mut execution = VmExecution::new(Vm::new(unit, 1));
    assert_eq!(execution.resume(), Ok(GeneratorState::Yielded(Value::Integer(1))));
    assert!(execution.is_resumed());
    assert_eq!(execution.frames.len(), 1);
    assert_eq!(
        execution.resume_with(Value::Integer(6)),
        Ok(GeneratorState::Complete(Value::Integer(6)))
    );
}

#[test]
fn a_failing_nested_machine_fails_the_execution() {
    let unit = unit_of(vec![
        plain(vec![Inst::Integer(1), Inst::Integer(2), Inst::Return]),
        plain(vec![Inst::Call { function: 0, args: 0 }, Inst::Return]),
        plain(vec![Inst::Unit, Inst::Pop, Inst::Add, Inst::Return]),
        plain(vec![Inst::Call { function: 2, args: 0 }, Inst::Return]),
    ]);
    let mut execution = VmExecution::new(Vm::new(unit.clone(), 1));
    assert_eq!(
        execution.resume(),
        Err(bound(VmErrorKind::StackNotClean, &[(1, 0), (0, 3)]))
    );
    let mut execution = VmExecution::new(Vm::new(unit, 3));
    assert_eq!(
        execution.resume(),
        Err(bound(VmErrorKind::StackEmpty, &[(3, 0), (2, 2)]))
    );
}

#[test]
fn run_binds_an_error_to_its_instruction() {
    let unit = unit_of(vec![plain(vec![Inst::Unit, Inst::Integer(1), Inst::Add])]);
    let mut vm = Vm::new(unit, 0);
    let mut budget = Budget::unlimited();
    assert_eq!(
        VmExecution::run(&mut vm, &mut budget),
        Err(bound(VmErrorKind::ExpectedInteger, &[(0, 2)]))
    );
}
