//! What a machine computes when its calls are followed by native recursion,
//! and the proof that the trampoline computes the same.

use crate::budget::Budget;
use crate::execution_view::{
    deferred, lemma_turn_weight, lemma_weight_with_current, ExecutionView, Outcome, TurnView,
};
use crate::generator::GeneratorStateView;
use crate::unit::Call;
use crate::value::{Value, ValueView, VmView};
use crate::vm::{lemma_run_error, Effect, Vm, VmHalt, VmHaltView};
use crate::vm_error::{CallFrame, VmError, VmErrorKind, VmErrorView, VmHaltInfo};
use crate::vm_execution::VmExecution;
use crate::weight::{lemma_run_weight, lemma_weight_advanced};
use vstd::prelude::*;

verus! {

/// How the direct evaluation of a machine ended, as plain mathematical
/// data.
pub enum EvaluatedView {
    Returned,
    Yielded(ValueView),
    YieldedInCall(ValueView),
}

/// How the direct evaluation of a machine ended.
#[derive(Debug, PartialEq)]
pub enum Evaluated {
    /// The function returned. What it returns is on the machine's stack.
    Returned,
    /// The function itself yielded this value. The machine stands past the
    /// yield, and goes on from there once it has a value to take up.
    Yielded(Value),
    /// A function that was called at once yielded this value. Its machine
    /// is gone, so that nothing can go on from here.
    YieldedInCall(Value),
}

impl View for Evaluated {
    type V = EvaluatedView;

    open spec fn view(&self) -> EvaluatedView {
        match self {
            Evaluated::Returned => EvaluatedView::Returned,
            Evaluated::Yielded(value) => EvaluatedView::Yielded(value@),
            Evaluated::YieldedInCall(value) => EvaluatedView::YieldedInCall(value@),
        }
    }
}

/// The result of a direct evaluation as plain mathematical data.
pub open spec fn evaluated_result_view(result: Result<Evaluated, VmError>) -> Result<
    EvaluatedView,
    VmErrorView,
> {
    match result {
        Ok(evaluated) => Ok(evaluated@),
        Err(error) => Err(error@),
    }
}

/// A machine after its direct evaluation, with how that ended.
pub struct Evaluation {
    pub vm: VmView,
    pub result: Result<EvaluatedView, VmErrorView>,
}

/// The error of the kind `kind` that the machine `vm` fails with: bound to
/// its instruction pointer, with its call frame as the trace.
pub open spec fn failure(vm: VmView, kind: VmErrorKind) -> VmErrorView {
    VmErrorView::of(kind).unwound(vm.ip, seq![vm.frame()])
}

/// Evaluates a machine directly: the machine is run, and where it calls a
/// function at once, that function's machine is evaluated first, by
/// recursion, and its one result is handed to the caller, which goes on past
/// the call. A call that is not run at once leaves its value with the
/// caller, which goes on likewise.
///
/// The evaluation ends where the function returns, and where it yields.
/// It also ends, with nothing to go on from, where a called function
/// yields, where a function waits for a future or fails, and where a called
/// function returns with no value or more than one. An error is bound to the machine that failed, and on its way up it
/// takes the call frame of each caller before its own.
pub open spec fn evaluate(vm: VmView) -> Evaluation
    decreases vm.weight(),
{
    let run = vm.run(None);
    match run.result {
        Err(error) => Evaluation { vm: run.vm, result: Err(failure(run.vm, error.kind)) },
        Ok(VmHaltView::Exited) => Evaluation { vm: run.vm, result: Ok(EvaluatedView::Returned) },
        Ok(VmHaltView::Yielded) => if run.vm.stack.len() == 0 {
            Evaluation { vm: run.vm, result: Err(failure(run.vm, VmErrorKind::StackEmpty)) }
        } else {
            Evaluation {
                vm: run.vm.with_stack(run.vm.stack.drop_last()),
                result: Ok(EvaluatedView::Yielded(run.vm.stack.last())),
            }
        },
        Ok(VmHaltView::Awaited(_)) => Evaluation {
            vm: run.vm,
            result: Err(failure(run.vm, VmErrorKind::Halted { halt: VmHaltInfo::Awaited })),
        },
        Ok(VmHaltView::Limited) => Evaluation {
            vm: run.vm,
            result: Err(failure(run.vm, VmErrorKind::Halted { halt: VmHaltInfo::Limited })),
        },
        Ok(VmHaltView::VmCall(request)) => {
            proof {
                lemma_run_weight(vm, None);
                lemma_weight_advanced(run.vm);
            }
            if request.call is Immediate {
                let inner = evaluate(request.vm);
                match inner.result {
                    Ok(EvaluatedView::Returned) => if inner.vm.stack.len() == 0 {
                        Evaluation {
                            vm: run.vm,
                            result: Err(
                                failure(inner.vm, VmErrorKind::StackEmpty).beneath(
                                    seq![run.vm.frame()],
                                ),
                            ),
                        }
                    } else if inner.vm.stack.len() > 1 {
                        Evaluation {
                            vm: run.vm,
                            result: Err(
                                failure(inner.vm, VmErrorKind::StackNotClean).beneath(
                                    seq![run.vm.frame()],
                                ),
                            ),
                        }
                    } else {
                        evaluate(run.vm.pushed(inner.vm.stack[0]).advanced())
                    },
                    Ok(EvaluatedView::Yielded(value)) | Ok(EvaluatedView::YieldedInCall(value)) =>
                        Evaluation { vm: run.vm, result: Ok(EvaluatedView::YieldedInCall(value)) },
                    Err(error) => Evaluation {
                        vm: run.vm,
                        result: Err(error.beneath(seq![run.vm.frame()])),
                    },
                }
            } else {
                evaluate(run.vm.pushed(deferred(request)).advanced())
            }
        },
    }
}

/// Whether a direct evaluation ended at a yield.
pub open spec fn yielded(evaluation: Evaluation) -> bool {
    evaluation.result matches Ok(EvaluatedView::Yielded(_)) || evaluation.result matches Ok(
        EvaluatedView::YieldedInCall(_),
    )
}

/// The final value of a direct evaluation that did not yield: what is on
/// top of the stack of the function that returned, or the error.
pub open spec fn final_value(evaluation: Evaluation) -> Result<ValueView, VmErrorView> {
    match evaluation.result {
        Ok(_) => if evaluation.vm.stack.len() == 0 {
            Err(failure(evaluation.vm, VmErrorKind::StackEmpty))
        } else {
            Ok(evaluation.vm.stack.last())
        },
        Err(error) => Err(error),
    }
}

/// What the trampoline does with an execution whose running machine has just
/// returned: the result is handed down and the loop goes on, or the
/// execution finishes.
pub open spec fn after_return(execution: ExecutionView) -> Outcome<GeneratorStateView> {
    let served = execution.serve(VmHaltView::Exited, false);
    match served.result {
        Ok(TurnView::Continue) => served.execution.run_to_suspension(),
        Ok(turn) => Outcome {
            execution: served.execution,
            result: ExecutionView::suspended(Ok(turn)),
        },
        Err(error) => Outcome { execution: served.execution, result: Err(error) },
    }
}

/// A run without a budget never stops for want of budget.
pub proof fn lemma_unlimited_run(vm: VmView)
    ensures
        !(vm.run(None).result matches Ok(VmHaltView::Limited)),
        vm.run(None).budget == None::<nat>,
    decreases vm.code_left(),
{
    match vm.fetch() {
        Err(_) => {},
        Ok(inst) => match vm.effect(inst) {
            Effect::Next(stack) => {
                lemma_unlimited_run(vm.with_stack(stack).advanced());
            },
            _ => {},
        },
    }
}

/// The machine that was put last in the place of the running one is the one
/// that stands there.
pub proof fn lemma_with_current_twice(execution: ExecutionView, first: VmView, second: VmView)
    ensures
        execution.with_current(first).with_current(second) == execution.with_current(second),
{
    if execution.frames.len() > 0 {
        assert(execution.with_current(first).with_current(second).frames
            =~= execution.with_current(second).frames);
    }
}

/// The callers of the machine that runs: the call frames of the machines
/// beneath it, outermost first.
pub open spec fn callers(execution: ExecutionView) -> Seq<CallFrame> {
    execution.call_frames().drop_last()
}

/// The call frames of an execution are those of the callers and then that
/// of the machine that runs. Putting another machine in its place keeps the
/// callers, and nesting a machine makes the one that ran a caller.
pub proof fn lemma_call_frames(execution: ExecutionView, vm: VmView)
    ensures
        execution.call_frames() == callers(execution).push(execution.current().frame()),
        callers(execution.with_current(vm)) == callers(execution),
        callers(execution.push_vm(vm)) == execution.call_frames(),
        callers(execution.finish()) == callers(execution),
{
    assert(execution.call_frames() =~= callers(execution).push(execution.current().frame()));
    assert(callers(execution.with_current(vm)) =~= callers(execution));
    assert(callers(execution.push_vm(vm)) =~= execution.call_frames());
    assert(callers(execution.finish()) =~= callers(execution));
}

/// Whether the trampoline's loop does to the running machine of
/// `execution` what its direct evaluation does.
///
/// Where the evaluation returns, the loop reaches the execution in which the
/// running machine is the evaluated one and has just returned. Where the
/// evaluation yields, so does the loop, with the same value; and where the
/// machine itself yields, the loop leaves the execution resumed, with the
/// evaluated machine in the place of the running one. Where the evaluation
/// fails, so does the loop, with the same error, which has taken the frames
/// of the callers before its own.
pub open spec fn loop_evaluates(execution: ExecutionView) -> bool {
    match evaluate(execution.current()).result {
        Ok(EvaluatedView::Returned) => execution.run_to_suspension() == after_return(
            execution.with_current(evaluate(execution.current()).vm),
        ),
        Ok(EvaluatedView::Yielded(value)) => execution.run_to_suspension() == (Outcome {
            execution: execution.with_current(evaluate(execution.current()).vm).with_state(
                crate::vm_execution::ExecutionState::Resumed,
            ),
            result: Ok::<GeneratorStateView, VmErrorView>(GeneratorStateView::Yielded(value)),
        }),
        Ok(EvaluatedView::YieldedInCall(value)) => execution.run_to_suspension().result == Ok::<
            GeneratorStateView,
            VmErrorView,
        >(GeneratorStateView::Yielded(value)),
        Err(error) => execution.run_to_suspension().result == Err::<
            GeneratorStateView,
            VmErrorView,
        >(error.beneath(callers(execution))),
    }
}

/// The loop evaluates where the running machine stops by itself: at a
/// return, a yield or an await, or with an error.
proof fn lemma_loop_evaluates_to_a_stop(execution: ExecutionView)
    requires
        !execution.finished,
        !(execution.current().run(None).result matches Ok(VmHaltView::VmCall(_))),
    ensures
        loop_evaluates(execution),
{
    let vm = execution.current();
    let run = vm.run(None);
    let ran = execution.with_current(run.vm);
    let above = callers(execution);
    lemma_unlimited_run(vm);
    lemma_run_error(vm, None);
    lemma_call_frames(execution, run.vm);
    lemma_call_frames(ran, run.vm);
    assert(above.push(run.vm.frame()) =~= above + seq![run.vm.frame()]);
    match run.result {
        Ok(_) => {
            assert(failure(run.vm, VmErrorKind::StackEmpty).beneath(above).frames
                =~= ran.call_frames());
            lemma_with_current_twice(
                execution,
                run.vm,
                run.vm.with_stack(run.vm.stack.drop_last()),
            );
        },
        Err(error) => {
            assert(failure(run.vm, error.kind).beneath(above).frames =~= ran.call_frames());
        },
    }
}

/// The loop evaluates where the running machine makes a call that is not
/// run at once, if it evaluates from the caller's next instruction on.
proof fn lemma_loop_evaluates_past_a_deferred_call(execution: ExecutionView)
    requires
        !execution.finished,
        execution.current().run(None).result matches Ok(VmHaltView::VmCall(request))
            && !(request.call is Immediate) && loop_evaluates(
            execution.with_current(
                execution.current().run(None).vm.pushed(deferred(request)).advanced(),
            ),
        ),
    ensures
        loop_evaluates(execution),
{
    let vm = execution.current();
    let run = vm.run(None);
    let request = run.result->Ok_0->VmCall_0;
    let landed = run.vm.pushed(deferred(request)).advanced();
    lemma_with_current_twice(execution, run.vm, landed);
    lemma_call_frames(execution, landed);
    lemma_with_current_twice(execution, landed, evaluate(landed).vm);
}

/// The loop evaluates where the running machine calls a function at once,
/// if it evaluates the called machine and, where that returns its one
/// value, evaluates from the caller's next instruction on.
proof fn lemma_loop_evaluates_through_a_call(execution: ExecutionView)
    requires
        !execution.finished,
        execution.current().run(None).result matches Ok(VmHaltView::VmCall(request))
            && request.call is Immediate && loop_evaluates(
            execution.with_current(execution.current().run(None).vm).push_vm(request.vm),
        ) && (evaluate(request.vm).result matches Ok(EvaluatedView::Returned) && evaluate(
            request.vm,
        ).vm.stack.len() == 1 ==> loop_evaluates(
            execution.with_current(
                execution.current().run(None).vm.pushed(evaluate(request.vm).vm.stack[0]).advanced(),
            ),
        )),
    ensures
        loop_evaluates(execution),
{
    let vm = execution.current();
    let run = vm.run(None);
    let request = run.result->Ok_0->VmCall_0;
    let ran = execution.with_current(run.vm);
    let above = callers(execution);
    let nested = ran.push_vm(request.vm);
    let inner = evaluate(request.vm);
    lemma_call_frames(execution, run.vm);
    lemma_call_frames(ran, request.vm);
    assert(ran.call_frames() == above.push(run.vm.frame()));
    assert(above.push(run.vm.frame()) =~= above + seq![run.vm.frame()]);
    assert(nested == execution.turn(None, false).execution);
    assert(nested.current() == request.vm);
    assert(callers(nested) == ran.call_frames());
    match inner.result {
        Ok(EvaluatedView::Returned) => {
            let returned = nested.with_current(inner.vm);
            assert(returned.frames.last().0 == inner.vm);
            assert(returned.frames.drop_last() =~= ran.frames);
            lemma_call_frames(nested, inner.vm);
            lemma_call_frames(returned, inner.vm);
            assert(returned.call_frames() == ran.call_frames().push(inner.vm.frame()));
            if inner.vm.stack.len() == 1 {
                let beneath = ExecutionView {
                    frames: returned.frames.drop_last(),
                    state: returned.frames.last().1,
                    ..returned
                };
                assert(beneath == ran);
                let landed = run.vm.pushed(inner.vm.stack[0]).advanced();
                assert(returned.pop_vm().execution == ran.with_current(landed));
                lemma_with_current_twice(execution, run.vm, landed);
                lemma_call_frames(execution, landed);
                lemma_with_current_twice(execution, landed, evaluate(landed).vm);
            } else {
                let kind = if inner.vm.stack.len() == 0 {
                    VmErrorKind::StackEmpty
                } else {
                    VmErrorKind::StackNotClean
                };
                assert(failure(inner.vm, kind).beneath(seq![run.vm.frame()]).beneath(above).frames
                    =~= returned.call_frames());
            }
        },
        Ok(_) => {},
        Err(error) => {
            assert(error.beneath(seq![run.vm.frame()]).beneath(above).frames =~= error.beneath(
                ran.call_frames(),
            ).frames);
        },
    }
}

/// The trampoline's loop does to the running machine what its direct
/// evaluation does.
pub proof fn lemma_loop_evaluates(execution: ExecutionView)
    requires
        !execution.finished,
    ensures
        loop_evaluates(execution),
    decreases execution.weight(),
{
    let vm = execution.current();
    let run = vm.run(None);
    let ran = execution.with_current(run.vm);
    lemma_run_weight(vm, None);
    lemma_weight_with_current(execution, run.vm);
    match run.result {
        Ok(VmHaltView::VmCall(request)) => {
            lemma_weight_advanced(run.vm);
            if request.call is Immediate {
                let nested = ran.push_vm(request.vm);
                lemma_turn_weight(execution, None, false);
                assert(nested == execution.turn(None, false).execution);
                lemma_loop_evaluates(nested);
                let inner = evaluate(request.vm);
                if inner.result matches Ok(EvaluatedView::Returned) && inner.vm.stack.len() == 1 {
                    let landed = run.vm.pushed(inner.vm.stack[0]).advanced();
                    lemma_weight_with_current(execution, landed);
                    lemma_loop_evaluates(execution.with_current(landed));
                }
                lemma_loop_evaluates_through_a_call(execution);
            } else {
                let landed = run.vm.pushed(deferred(request)).advanced();
                lemma_weight_with_current(execution, landed);
                lemma_loop_evaluates(execution.with_current(landed));
                lemma_loop_evaluates_past_a_deferred_call(execution);
            }
        },
        _ => {
            lemma_loop_evaluates_to_a_stop(execution);
        },
    }
}

/// Running a machine to its end on the trampoline gives what the direct
/// evaluation of the machine gives, wherever that does not yield: the same
/// final value, or the same error with the same trace. Where the machine
/// returns a value, it is left as the direct evaluation leaves it, less the
/// value. Where the direct evaluation yields, running to the end fails for
/// the yield.
pub proof fn law_complete_is_direct_evaluation(head: VmView)
    ensures
        !yielded(evaluate(head)) ==> ExecutionView::new(head).complete().result == final_value(
            evaluate(head),
        ),
        final_value(evaluate(head)) is Ok && !yielded(evaluate(head)) ==> ExecutionView::new(
            head,
        ).complete().execution.head == evaluate(head).vm.with_stack(
            evaluate(head).vm.stack.drop_last(),
        ),
        yielded(evaluate(head)) ==> ExecutionView::new(head).complete().result is Err
            && ExecutionView::new(head).complete().result->Err_0.kind == (VmErrorKind::Halted {
            halt: VmHaltInfo::Yielded,
        }),
{
    let execution = ExecutionView::new(head).resumed();
    lemma_loop_evaluates(execution);
    let evaluated = evaluate(head);
    lemma_call_frames(execution, evaluated.vm);
    lemma_call_frames(execution.with_current(evaluated.vm), evaluated.vm);
    assert(callers(execution) =~= Seq::<CallFrame>::empty());
    match evaluated.result {
        Err(error) => {
            assert(error.beneath(callers(execution)).frames =~= error.frames);
        },
        Ok(_) => {
            assert(execution.with_current(evaluated.vm).call_frames() =~= seq![
                evaluated.vm.frame(),
            ]);
        },
    }
}

/// Evaluates a machine directly, by native recursion: a function that is
/// called at once is evaluated to its end before its caller goes on. This is
/// what the trampoline does without recursion; it serves to hold the
/// trampoline against.
pub fn evaluate_directly(vm: &mut Vm) -> (result: Result<Evaluated, VmError>)
    ensures
        final(vm)@ == evaluate(old(vm)@).vm,
        evaluated_result_view(result) == evaluate(old(vm)@).result,
    decreases old(vm)@.weight(),
{
    proof {
        lemma_run_weight(vm@, None);
        lemma_weight_advanced(vm@.run(None).vm);
        lemma_run_error(vm@, None);
    }
    let mut budget = Budget::unlimited();
    match VmExecution::run(vm, &mut budget) {
        Err(error) => Err(error),
        Ok(VmHalt::Exited) => Ok(Evaluated::Returned),
        Ok(VmHalt::Yielded) => match vm.pop() {
            Ok(value) => Ok(Evaluated::Yielded(value)),
            Err(_) => Err(fail(vm, VmErrorKind::StackEmpty)),
        },
        Ok(VmHalt::Awaited(_)) => Err(
            fail(vm, VmErrorKind::Halted { halt: VmHaltInfo::Awaited }),
        ),
        Ok(VmHalt::Limited) => Err(fail(vm, VmErrorKind::Halted { halt: VmHaltInfo::Limited })),
        Ok(VmHalt::VmCall(request)) => {
            match request.call() {
                Call::Immediate => {
                    let mut inner = request.into_vm();
                    match evaluate_directly(&mut inner) {
                        Ok(Evaluated::Returned) => {
                            let left = inner.stack().len();
                            if left == 0 {
                                return Err(
                                    fail(&inner, VmErrorKind::StackEmpty).into_beneath(caller(vm)),
                                );
                            }
                            if left > 1 {
                                return Err(
                                    fail(&inner, VmErrorKind::StackNotClean).into_beneath(
                                        caller(vm),
                                    ),
                                );
                            }
                            match inner.pop() {
                                Ok(value) => {
                                    vm.push(value);
                                    vm.advance();
                                    evaluate_directly(vm)
                                },
                                Err(error) => Err(error),
                            }
                        },
                        Ok(Evaluated::Yielded(value)) | Ok(Evaluated::YieldedInCall(value)) => Ok(
                            Evaluated::YieldedInCall(value),
                        ),
                        Err(error) => Err(error.into_beneath(caller(vm))),
                    }
                },
                _ => {
                    vm.push(request.into_value());
                    vm.advance();
                    evaluate_directly(vm)
                },
            }
        },
    }
}

/// The error of the kind `kind` that the machine `vm` fails with.
fn fail(vm: &Vm, kind: VmErrorKind) -> (error: VmError)
    ensures
        error@ == failure(vm@, kind),
{
    VmError::new(kind).into_unwinded(vm.ip(), caller(vm))
}

/// The call frame of `vm`, as the one frame of a trace.
fn caller(vm: &Vm) -> (frames: Vec<CallFrame>)
    ensures
        frames@ == seq![vm@.frame()],
{
    let mut frames: Vec<CallFrame> = Vec::new();
    frames.push(vm.frame());
    assert(frames@ =~= seq![vm@.frame()]);
    frames
}

} // verus!
