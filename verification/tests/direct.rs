use rune::direct::{evaluate_directly, Evaluated};
use rune::generator::{Generator, GeneratorState};
use rune::unit::{Call, Function, Inst, Unit};
use rune::value::Value;
use rune::vm::Vm;
use rune::vm_error::{CallFrame, VmError, VmErrorKind, VmHaltInfo};
use rune::vm_execution::VmExecution;
use std::sync::Arc;

/// An error bound to the last of the given call frames, each a function
/// and an instruction pointer, outermost first.
fn bound(kind: VmErrorKind, frames: &[(usize, usize)]) -> VmError {
    VmError {
        kind,
        ip: Some(frames[frames.len() - 1].1),
        frames: frames.iter().map(|&(function, ip)| CallFrame { function, ip }).collect(),
    }
}

fn plain(args: usize, code: Vec<Inst>) -> Function {
    Function::new(Call::Immediate, args, code)
}

/// `sum(a, b) = a + b`, `twice(a) = sum(a, a)`, `main() = twice(4) + sum(1, twice(2))`,
/// and functions that fail or stop on the way.
fn program() -> Arc<Unit> {
    Arc::new(Unit::new(vec![
        plain(2, vec![Inst::Add, Inst::Return]),
        plain(
            1,
            vec![
                Inst::Integer(0),
                Inst::Add,
                Inst::Integer(0),
                Inst::Call { function: 0, args: 2 },
                Inst::Integer(2),
                Inst::Tuple { count: 1 },
                Inst::Pop,
                Inst::Return,
            ],
        ),
        plain(
            0,
            vec![
                Inst::Integer(4),
                Inst::Call { function: 1, args: 1 },
                Inst::Integer(1),
                Inst::Integer(2),
                Inst::Call { function: 1, args: 1 },
                Inst::Call { function: 0, args: 2 },
                Inst::Add,
                Inst::Return,
            ],
        ),
        // returns nothing
        plain(0, vec![Inst::Return]),
        plain(0, vec![Inst::Call { function: 3, args: 0 }, Inst::Return]),
        // returns two values
        plain(0, vec![Inst::Unit, Inst::Unit, Inst::Return]),
        plain(0, vec![Inst::Call { function: 5, args: 0 }, Inst::Return]),
        // fails two calls deep
        plain(0, vec![Inst::Unit, Inst::Unit, Inst::Add, Inst::Return]),
        plain(0, vec![Inst::Integer(1), Inst::Call { function: 7, args: 0 }, Inst::Return]),
        plain(0, vec![Inst::Call { function: 8, args: 0 }, Inst::Return]),
        // yields one call deep
        plain(0, vec![Inst::Integer(5), Inst::Yield, Inst::Return]),
        plain(0, vec![Inst::Call { function: 10, args: 0 }, Inst::Return]),
        // makes a future and waits for it
        Function::new(Call::Async, 0, vec![Inst::Integer(5), Inst::Return]),
        plain(0, vec![Inst::Call { function: 12, args: 0 }, Inst::Return]),
        plain(0, vec![Inst::Call { function: 12, args: 0 }, Inst::Await, Inst::Return]),
        // yields with nothing to yield
        plain(0, vec![Inst::Yield]),
    ]))
}

#[test]
fn twice_of_four_plus_sum() {
    // `twice` adds zero to its argument and leaves a stray tuple behind that
    // it drops again; `twice(4)` is 4 and `sum(1, twice(2))` is 3.
    let mut vm = Vm::new(program(), 2);
    assert_eq!(evaluate_directly(&mut vm), Ok(Evaluated::Returned));
    assert_eq!(vm.stack, vec![Value::Integer(7)]);
    let mut execution = VmExecution::new(Vm::new(program(), 2));
    assert_eq!(execution.complete(), Ok(Value::Integer(7)));
}

#[test]
fn trampoline_and_direct_evaluation_agree() {
    let unit = program();
    for function in 0..unit.len() + 1 {
        let mut vm = Vm::new(unit.clone(), function);
        if function < 2 {
            vm.push(Value::Integer(20));
            vm.push(Value::Integer(22));
        }
        let mut direct = vm.duplicate();
        let evaluated = evaluate_directly(&mut direct);
        let mut execution = VmExecution::new(vm);
        let completed = execution.complete();
        let expected = match evaluated {
            Ok(Evaluated::Returned) => match direct.stack.last() {
                Some(value) => Ok(value.duplicate()),
                None => Err(bound(VmErrorKind::StackEmpty, &[(function, direct.ip)])),
            },
            Ok(Evaluated::Yielded(_)) | Ok(Evaluated::YieldedInCall(_)) => {
                // Where the function yields, running to the end fails for it.
                let kind = VmErrorKind::Halted { halt: VmHaltInfo::Yielded };
                assert_eq!(completed.as_ref().map_err(|error| error.kind), Err(kind));
                continue;
            }
            Err(error) => Err(error),
        };
        assert_eq!(completed, expected, "function {}", function);
        if completed.is_ok() {
            direct.stack.pop();
            assert_eq!(execution.vm(), &direct, "function {}", function);
        }
    }
}

#[test]
fn direct_evaluation_of_each_ending() {
    let unit = program();
    let evaluate = |function: usize| {
        let mut vm = Vm::new(unit.clone(), function);
        let result = evaluate_directly(&mut vm);
        (result, vm.ip, vm.stack.len())
    };
    assert_eq!(evaluate(3), (Ok(Evaluated::Returned), 1, 0));
    assert_eq!(evaluate(4), (Err(bound(VmErrorKind::StackEmpty, &[(4, 0), (3, 1)])), 0, 0));
    assert_eq!(evaluate(6), (Err(bound(VmErrorKind::StackNotClean, &[(6, 0), (5, 3)])), 0, 0));
    assert_eq!(
        evaluate(9),
        (Err(bound(VmErrorKind::ExpectedInteger, &[(9, 0), (8, 1), (7, 2)])), 0, 0)
    );
    assert_eq!(evaluate(10), (Ok(Evaluated::Yielded(Value::Integer(5))), 2, 0));
    assert_eq!(evaluate(11), (Ok(Evaluated::YieldedInCall(Value::Integer(5))), 0, 0));
    assert_eq!(evaluate(13), (Ok(Evaluated::Returned), 2, 1));
    assert_eq!(
        evaluate(14),
        (Err(bound(VmErrorKind::Halted { halt: VmHaltInfo::Awaited }, &[(14, 2)])), 2, 0)
    );
    assert_eq!(evaluate(15), (Err(bound(VmErrorKind::StackEmpty, &[(15, 1)])), 1, 0));
    assert_eq!(
        evaluate(16),
        (Err(bound(VmErrorKind::MissingFunction { function: 16 }, &[(16, 0)])), 0, 0)
    );
}

#[test]
fn call_frames_trace_the_calls_that_led_to_an_error() {
    let mut execution = VmExecution::new(Vm::new(program(), 9));
    assert_eq!(execution.call_frames(), vec![CallFrame { function: 9, ip: 0 }]);
    let error = execution.resume().unwrap_err();
    assert_eq!(error, bound(VmErrorKind::ExpectedInteger, &[(9, 0), (8, 1), (7, 2)]));
    // The error carries the call frames of the execution as they stand.
    assert_eq!(error.frames(), &execution.call_frames());
    assert_eq!(error.ip(), Some(execution.vm().ip));
}

/// `inc(a) = a + 1`, `inc2(a) = inc(inc(a))`, and a generator that yields
/// `inc2(6)`, then `inc(4 + 14)`, and returns 7.
fn computing_generator() -> Arc<Unit> {
    Arc::new(Unit::new(vec![
        plain(1, vec![Inst::Integer(1), Inst::Add, Inst::Return]),
        plain(
            1,
            vec![
                Inst::Call { function: 0, args: 1 },
                Inst::Call { function: 0, args: 1 },
                Inst::Return,
            ],
        ),
        plain(
            0,
            vec![
                Inst::Integer(6),
                Inst::Call { function: 1, args: 1 },
                Inst::Yield,
                Inst::Pop,
                Inst::Integer(4),
                Inst::Integer(14),
                Inst::Add,
                Inst::Call { function: 0, args: 1 },
                Inst::Yield,
                Inst::Pop,
                Inst::Integer(7),
                Inst::Return,
            ],
        ),
    ]))
}

#[test]
fn resuming_follows_direct_evaluation_pull_by_pull() {
    let mut direct = Vm::new(computing_generator(), 2);
    let mut execution = VmExecution::new(Vm::new(computing_generator(), 2));
    let mut yields = Vec::new();
    loop {
        match evaluate_directly(&mut direct) {
            Ok(Evaluated::Yielded(value)) => {
                assert_eq!(execution.resume(), Ok(GeneratorState::Yielded(value.duplicate())));
                // The execution is suspended where the function stands.
                assert!(execution.frames.is_empty() && execution.is_resumed());
                assert!(!execution.is_finished());
                assert_eq!(execution.vm(), &direct);
                yields.push(value);
                direct.push(Value::Unit);
            }
            Ok(Evaluated::Returned) => {
                let last = direct.stack.pop().unwrap();
                assert_eq!(execution.resume(), Ok(GeneratorState::Complete(last)));
                assert!(execution.frames.is_empty() && execution.is_finished());
                assert_eq!(execution.vm(), &direct);
                break;
            }
            other => panic!("the function yields or returns, got {:?}", other),
        }
    }
    assert_eq!(yields, vec![Value::Integer(8), Value::Integer(19)]);
    assert_eq!(direct.ip, 12);

    // A generator on the same function pulls the same values.
    let mut generator = Generator::new(Vm::new(computing_generator(), 2));
    assert_eq!(generator.next(), Ok(Some(Value::Integer(8))));
    assert_eq!(generator.next(), Ok(Some(Value::Integer(19))));
    assert_eq!(generator.next(), Ok(None));
}
