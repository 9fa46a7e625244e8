//! Laws of the trampoline that relate several of its operations.

use crate::direct::{
    callers, evaluate, final_value, lemma_call_frames, lemma_loop_evaluates, EvaluatedView,
};
use crate::execution_view::{deferred, lemma_turn_weight, ExecutionView, Outcome, TurnView};
use crate::generator::{generator_resume, pulled, GeneratorStateView};
use crate::unit::Inst;
use crate::value::{ValueView, VmView};
use crate::vm::{Effect, VmHaltView};
use crate::vm_call::VmCallView;
use crate::vm_error::{VmErrorView, VmErrorKind};
use crate::vm_execution::ExecutionState;
use vstd::prelude::*;

verus! {

/// What a run hands out where it stops at a call: a machine that has not
/// started, in the unit of the caller. And no run fails for the state of an
/// execution, of which a machine knows nothing, nor binds its error to an
/// instruction.
pub proof fn lemma_run_results(vm: VmView, budget: Option<nat>)
    ensures
        vm.run(budget).result matches Ok(VmHaltView::VmCall(request)) ==> request.vm.ip == 0
            && request.vm.unit == vm.unit,
        vm.run(budget).result matches Err(error) ==> !(error.kind is ExpectedExecutionState)
            && error.ip is None,
    decreases vm.code_left(),
{
    if crate::budget::Budget::allows(budget) {
        match vm.fetch() {
            Err(_) => {},
            Ok(inst) => match vm.effect(inst) {
                Effect::Next(stack) => {
                    lemma_run_results(
                        vm.with_stack(stack).advanced(),
                        crate::budget::Budget::taken(budget),
                    );
                },
                _ => {},
            },
        }
    }
}

/// The trampoline's loop never fails for the state of the execution.
pub proof fn lemma_loop_never_asks_for_a_state(execution: ExecutionView)
    ensures
        execution.run_to_suspension().result matches Err(error) ==> !(error.kind
            is ExpectedExecutionState),
    decreases execution.weight(),
{
    lemma_run_results(execution.current(), None);
    lemma_turn_weight(execution, None, false);
    if execution.turn(None, false).result == Ok::<TurnView, VmErrorView>(TurnView::Continue) {
        lemma_loop_never_asks_for_a_state(execution.turn(None, false).execution);
    }
}

/// An execution that was never resumed takes no value: resuming it with one
/// fails for its state, and leaves it as it was, finished or not.
pub proof fn law_resume_with_needs_a_resumed_execution(execution: ExecutionView, value: ValueView)
    requires
        execution.state is Initial,
    ensures
        execution.resume_with(value).result == Err::<GeneratorStateView, VmErrorView>(
            VmErrorView::of(
                VmErrorKind::ExpectedExecutionState {
                    expected: ExecutionState::Resumed,
                    actual: ExecutionState::Initial,
                },
            ),
        ),
        execution.resume_with(value).execution == execution,
{
}

/// An execution in any state can be resumed without a value: that never
/// fails for the state. On one that was never resumed, and has not finished,
/// nothing is pushed: its machines run as they are.
pub proof fn law_resume_needs_no_value(execution: ExecutionView)
    ensures
        execution.resume().result matches Err(error) ==> !(error.kind is ExpectedExecutionState),
        execution.state is Initial && !execution.finished ==> execution.resume()
            == execution.with_state(ExecutionState::Resumed).run_to_suspension(),
{
    lemma_loop_never_asks_for_a_state(execution.resumed());
}

/// Nested machines return last in, first out: the result of the innermost
/// one lands on the stack of the machine right beneath it, which moves past
/// its call and takes the calling state that was kept for it. Every other
/// machine stays as it is.
pub proof fn law_result_lands_on_the_caller(execution: ExecutionView)
    requires
        execution.frames.len() > 0,
        execution.frames.last().0.stack.len() == 1,
    ensures
        execution.pop_vm().result is Ok,
        execution.pop_vm().execution.frames.len() == execution.frames.len() - 1,
        execution.pop_vm().execution.state == execution.frames.last().1,
        execution.frames.len() == 1 ==> execution.pop_vm().execution.head == execution.head.pushed(
            execution.frames.last().0.stack[0],
        ).advanced(),
        execution.frames.len() > 1 ==> {
            &&& execution.pop_vm().execution.head == execution.head
            &&& execution.pop_vm().execution.frames.last().0 == execution.frames[execution.frames.len()
                - 2].0.pushed(execution.frames.last().0.stack[0]).advanced()
            &&& execution.pop_vm().execution.frames.last().1 == execution.frames[
                execution.frames.len() - 2].1
        },
        forall|i: int|
            0 <= i < execution.frames.len() - 2 ==> execution.pop_vm().execution.frames[i]
                == execution.frames[i],
{
}

/// A call that is not immediate does not run the function: the turn in which
/// a machine makes it leaves no machine nested, and the caller goes on past
/// the call with one more value on its stack, which holds the machine that
/// was made for the call, not started.
pub proof fn law_deferred_call_is_not_run(
    execution: ExecutionView,
    budget: Option<nat>,
    may_await: bool,
    request: VmCallView,
)
    requires
        !execution.finished,
        execution.current().run(budget).result == Ok::<VmHaltView, VmErrorView>(
            VmHaltView::VmCall(request),
        ),
        !(request.call is Immediate),
    ensures
        request.vm.ip == 0,
        execution.turn(budget, may_await).result == Ok::<TurnView, VmErrorView>(TurnView::Continue),
        execution.turn(budget, may_await).execution == execution.with_current(
            execution.current().run(budget).vm.pushed(deferred(request)).advanced(),
        ),
        execution.turn(budget, may_await).execution.frames.len() == execution.frames.len(),
        request.call is Async ==> deferred(request) == ValueView::Future(Box::new(request.vm)),
{
    lemma_run_results(execution.current(), budget);
    crate::direct::lemma_with_current_twice(
        execution,
        execution.current().run(budget).vm,
        execution.current().run(budget).vm.pushed(deferred(request)).advanced(),
    );
}

/// The error of a turn that may not wait, at an await: it is bound to the
/// machine that waits, and carries the call frames of the execution.
pub open spec fn await_refused(execution: ExecutionView) -> VmErrorView {
    VmErrorView::of(VmErrorKind::Halted { halt: crate::vm_error::VmHaltInfo::Awaited }).unwound(
        execution.current().ip,
        execution.call_frames(),
    )
}

/// A turn that may wait and a turn that may not differ at an await only:
/// there the first hands out the future, and the second fails and finishes
/// the execution, which is the same but for that. Everywhere else they are
/// one.
pub proof fn law_waiting_changes_awaits_only(execution: ExecutionView, budget: Option<nat>)
    ensures
        execution.turn(budget, true).budget == execution.turn(budget, false).budget,
        execution.turn(budget, true).result matches Ok(TurnView::Awaited(_)) ==> {
            &&& execution.turn(budget, false).execution == execution.turn(
                budget,
                true,
            ).execution.finish()
            &&& execution.turn(budget, false).result == Err::<TurnView, VmErrorView>(
                await_refused(execution.turn(budget, true).execution),
            )
        },
        !(execution.turn(budget, true).result matches Ok(TurnView::Awaited(_))) ==> {
            &&& execution.turn(budget, true).execution == execution.turn(budget, false).execution
            &&& execution.turn(budget, true).result == execution.turn(budget, false).result
        },
{
    let ran = execution.with_current(execution.current().run(budget).vm);
    assert(ran.finish().call_frames() =~= ran.call_frames());
}

/// A driver that can wait goes as one that cannot, up to the first await:
/// where it yields, finishes or fails, so does the other, with the same
/// value or error and in the same execution. Where it is handed a future,
/// the other fails for the await and finishes the execution, which is the
/// same but for that. And resuming an execution is driving it after the
/// start of the resumption, wherever no future is awaited.
pub proof fn law_driving_is_resuming_until_an_await(execution: ExecutionView)
    ensures
        execution.drive(true).result matches Ok(TurnView::Awaited(_)) ==> {
            &&& execution.drive(false).execution == execution.drive(true).execution.finish()
            &&& execution.drive(false).result == Err::<TurnView, VmErrorView>(
                await_refused(execution.drive(true).execution),
            )
        },
        !(execution.drive(true).result matches Ok(TurnView::Awaited(_))) ==> execution.drive(true)
            == execution.drive(false),
        !execution.finished && !(execution.resumed().drive(true).result matches Ok(
            TurnView::Awaited(_),
        )) ==> {
            &&& execution.resume().execution == execution.resumed().drive(true).execution
            &&& execution.resume().result == ExecutionView::suspended(
                execution.resumed().drive(true).result,
            )
        },
        forall|may_await: bool|
            !(#[trigger] execution.drive(may_await).result matches Ok(TurnView::Continue)) && !(
            execution.drive(may_await).result matches Ok(TurnView::Limited)),
{
    lemma_drive_waits_at_awaits_only(execution);
    lemma_drive_waits_at_awaits_only(execution.resumed());
    crate::execution_view::lemma_loop_is_drive(execution.resumed());
    lemma_drive_ends(execution, true);
    lemma_drive_ends(execution, false);
}

/// No drive ends with a turn that would go on, nor for want of budget.
pub proof fn lemma_drive_ends(execution: ExecutionView, may_await: bool)
    ensures
        !(execution.drive(may_await).result matches Ok(TurnView::Continue)),
        !(execution.drive(may_await).result matches Ok(TurnView::Limited)),
    decreases execution.weight(),
{
    lemma_turn_weight(execution, None, may_await);
    crate::direct::lemma_unlimited_run(execution.current());
    if execution.turn(None, may_await).result == Ok::<TurnView, VmErrorView>(TurnView::Continue) {
        lemma_drive_ends(execution.turn(None, may_await).execution, may_await);
    }
}

/// A drive that may wait and one that may not differ at an await only.
pub proof fn lemma_drive_waits_at_awaits_only(execution: ExecutionView)
    ensures
        execution.drive(true).result matches Ok(TurnView::Awaited(_)) ==> {
            &&& execution.drive(false).execution == execution.drive(true).execution.finish()
            &&& execution.drive(false).result == Err::<TurnView, VmErrorView>(
                await_refused(execution.drive(true).execution),
            )
        },
        !(execution.drive(true).result matches Ok(TurnView::Awaited(_))) ==> execution.drive(true)
            == execution.drive(false),
    decreases execution.weight(),
{
    law_waiting_changes_awaits_only(execution, None);
    lemma_turn_weight(execution, None, true);
    if execution.turn(None, true).result == Ok::<TurnView, VmErrorView>(TurnView::Continue) {
        lemma_drive_waits_at_awaits_only(execution.turn(None, true).execution);
    }
}

/// An execution finishes once: after it has handed out its final value, and
/// after a turn of it has failed, it is finished, and every operation that
/// would make it go on fails with the one error that says so, runs nothing
/// and leaves the execution as it was. A resumption with a value says so
/// only where the execution could else take a value: where it was never
/// resumed, the error is the one for its state.
pub proof fn law_finished_execution_goes_no_further(
    execution: ExecutionView,
    value: ValueView,
    budget: Option<nat>,
    may_await: bool,
)
    ensures
        execution.resume().result matches Ok(GeneratorStateView::Complete(_))
            ==> execution.resume().execution.finished,
        execution.resume_with(value).result matches Ok(GeneratorStateView::Complete(_))
            ==> execution.resume_with(value).execution.finished,
        execution.complete().result is Ok ==> execution.complete().execution.finished,
        execution.step().result matches Ok(Some(_)) ==> execution.step().execution.finished,
        execution.turn(budget, may_await).result is Err ==> execution.turn(
            budget,
            may_await,
        ).execution.finished,
        execution.drive(may_await).result is Err ==> execution.drive(may_await).execution.finished,
        execution.run_to_suspension().result is Err
            ==> execution.run_to_suspension().execution.finished,
        execution.finished ==> {
            &&& execution.resume() == execution.refused::<GeneratorStateView>()
            &&& execution.state is Resumed ==> execution.resume_with(value) == execution.refused::<
                GeneratorStateView,
            >()
            &&& !(execution.state is Resumed) ==> execution.resume_with(value) == (Outcome {
                execution,
                result: Err::<GeneratorStateView, VmErrorView>(
                    VmErrorView::of(
                        VmErrorKind::ExpectedExecutionState {
                            expected: ExecutionState::Resumed,
                            actual: execution.state,
                        },
                    ),
                ),
            })
            &&& execution.complete() == execution.refused::<ValueView>()
            &&& execution.step() == execution.refused::<Option<ValueView>>()
            &&& execution.drive(may_await) == execution.refused::<TurnView>()
            &&& execution.turn(budget, may_await).execution == execution
            &&& execution.turn(budget, may_await).budget == budget
            &&& execution.turn(budget, may_await).result == execution.refused::<TurnView>().result
        },
{
    lemma_loop_finishes(execution);
    lemma_loop_finishes(execution.resumed());
    lemma_loop_finishes(execution.with_current(execution.current().pushed(value)));
    lemma_drive_finishes(execution, may_await);
}

/// Where the trampoline's loop ends with the final value or with an error,
/// the execution is finished.
pub proof fn lemma_loop_finishes(execution: ExecutionView)
    ensures
        execution.run_to_suspension().result matches Ok(GeneratorStateView::Complete(_))
            ==> execution.run_to_suspension().execution.finished,
        execution.run_to_suspension().result is Err
            ==> execution.run_to_suspension().execution.finished,
    decreases execution.weight(),
{
    lemma_turn_weight(execution, None, false);
    crate::direct::lemma_unlimited_run(execution.current());
    if execution.turn(None, false).result == Ok::<TurnView, VmErrorView>(TurnView::Continue) {
        lemma_loop_finishes(execution.turn(None, false).execution);
    }
}

/// Where a drive ends with the final value or with an error, the execution
/// is finished.
pub proof fn lemma_drive_finishes(execution: ExecutionView, may_await: bool)
    ensures
        execution.drive(may_await).result matches Ok(TurnView::Complete(_)) ==> execution.drive(
            may_await,
        ).execution.finished,
        execution.drive(may_await).result is Err ==> execution.drive(may_await).execution.finished,
    decreases execution.weight(),
{
    lemma_turn_weight(execution, None, may_await);
    if execution.turn(None, may_await).result == Ok::<TurnView, VmErrorView>(TurnView::Continue) {
        lemma_drive_finishes(execution.turn(None, may_await).execution, may_await);
    }
}

/// A generator completes once: after the pull on which its execution
/// finished, every pull fails. Until then it holds its execution.
pub proof fn law_generator_completes_once(
    execution: Option<ExecutionView>,
    value: ValueView,
    again: ValueView,
)
    ensures
        generator_resume(execution, value).result matches Ok(GeneratorStateView::Complete(_))
            ==> generator_resume(generator_resume(execution, value).execution, again).result
            == Err::<GeneratorStateView, VmErrorView>(VmErrorView::of(VmErrorKind::GeneratorComplete)),
        generator_resume(execution, value).result matches Ok(GeneratorStateView::Yielded(_))
            ==> generator_resume(execution, value).execution is Some,
{
}

/// The code of a function that yields `values` one by one, drops what it
/// is resumed with each time, and at last returns `last`.
pub open spec fn yielding_code(values: Seq<i64>, last: i64) -> Seq<Inst> {
    Seq::new(
        3 * values.len() + 2,
        |i: int|
            if i < 3 * values.len() {
                if i % 3 == 0 {
                    Inst::Integer(values[i / 3])
                } else if i % 3 == 1 {
                    Inst::Yield
                } else {
                    Inst::Pop
                }
            } else if i == 3 * values.len() {
                Inst::Integer(last)
            } else {
                Inst::Return
            },
    )
}

/// Whether `vm` is at the start of a function with the code
/// `yielding_code(values, last)`, with an empty stack.
pub open spec fn yields_in_turn(vm: VmView, values: Seq<i64>, last: i64) -> bool {
    &&& vm.function < vm.unit.len()
    &&& vm.unit[vm.function as int].code == yielding_code(values, last)
    &&& 3 * values.len() + 2 < usize::MAX
    &&& vm.ip == 0
    &&& vm.stack.len() == 0
}

/// A generator after `pulls` pulls without a value.
pub open spec fn pulled_times(execution: Option<ExecutionView>, pulls: nat) -> Option<
    ExecutionView,
>
    decreases pulls,
{
    if pulls == 0 {
        execution
    } else {
        generator_resume(pulled_times(execution, (pulls - 1) as nat), ValueView::Unit).execution
    }
}

/// The execution of a function that yields in turn, between its yield
/// number `pulls` and the pull that follows.
pub open spec fn between_yields(vm: VmView, pulls: nat) -> ExecutionView {
    if pulls == 0 {
        ExecutionView::new(vm)
    } else {
        ExecutionView {
            head: VmView { ip: (3 * pulls - 1) as nat, ..vm },
            state: ExecutionState::Resumed,
            frames: Seq::empty(),
            finished: false,
        }
    }
}

/// One pull on a function that yields in turn: after `pulls` yields, the
/// next pull yields the next value, or finishes with the last one.
pub proof fn lemma_next_pull(vm: VmView, values: Seq<i64>, last: i64, pulls: nat)
    requires
        yields_in_turn(vm, values, last),
        pulls <= values.len(),
    ensures
        pulls < values.len() ==> generator_resume(
            Some(between_yields(vm, pulls)),
            ValueView::Unit,
        ).result == Ok::<GeneratorStateView, VmErrorView>(
            GeneratorStateView::Yielded(ValueView::Integer(values[pulls as int])),
        ) && generator_resume(Some(between_yields(vm, pulls)), ValueView::Unit).execution == Some(
            between_yields(vm, pulls + 1),
        ),
        pulls == values.len() ==> generator_resume(
            Some(between_yields(vm, pulls)),
            ValueView::Unit,
        ).result == Ok::<GeneratorStateView, VmErrorView>(
            GeneratorStateView::Complete(ValueView::Integer(last)),
        ) && generator_resume(Some(between_yields(vm, pulls)), ValueView::Unit).execution
            is None,
{
    let code = yielding_code(values, last);
    let n = values.len() as int;
    let p = pulls as int;
    let empty = Seq::<ValueView>::empty();
    let value = if p < n {
        ValueView::Integer(values[p])
    } else {
        ValueView::Integer(last)
    };
    // The machine at the instruction that pushes the next value.
    let at_push = VmView { ip: (3 * p) as nat, ..vm };
    let pushed = VmView { ip: (3 * p + 1) as nat, stack: empty.push(value), ..vm };
    let stopped = VmView { ip: (3 * p + 2) as nat, stack: empty.push(value), ..vm };
    assert(at_push.stack =~= empty);
    assert(code[3 * p] == (if p < n {
        Inst::Integer(values[p])
    } else {
        Inst::Integer(last)
    })) by {
        if p < n {
            assert((3 * p) % 3 == 0);
            assert((3 * p) / 3 == pulls);
        }
    }
    assert(code[3 * p + 1] == (if p < n {
        Inst::Yield
    } else {
        Inst::Return
    })) by {
        if p < n {
            assert((3 * p + 1) % 3 == 1);
        }
    }
    assert(at_push.with_stack(empty.push(value)).advanced() == pushed);
    assert(pushed.with_stack(pushed.stack).advanced() == stopped);
    assert(pushed.run(None).vm == stopped);
    assert(at_push.run(None) == pushed.run(None));
    assert(at_push.run(None).vm == stopped);
    assert(stopped.stack.drop_last() =~= empty);
    assert(stopped.stack.last() == value);
    let start = if p == 0 {
        between_yields(vm, 0).resumed()
    } else {
        between_yields(vm, pulls).with_current(
            between_yields(vm, pulls).current().pushed(ValueView::Unit),
        )
    };
    if p > 0 {
        let resumed = VmView { ip: (3 * p - 1) as nat, stack: empty.push(ValueView::Unit), ..vm };
        assert(start.current() == resumed);
        assert(code[3 * p - 1] == Inst::Pop) by {
            assert((3 * p - 1) % 3 == 2);
        }
        assert(resumed.stack.drop_last() =~= empty);
        assert(resumed.with_stack(empty).advanced() == at_push);
        assert(resumed.run(None) == at_push.run(None));
    } else {
        assert(start.current() == at_push);
    }
    assert(start.current().run(None).vm == stopped);
    let ran = start.with_current(stopped);
    assert(ran.frames.len() == 0);
    if p < n {
        assert(start.turn(None, false).execution == between_yields(vm, pulls + 1));
    }
}

/// Pulling on a function that yields in turn hands out its values in the
/// order in which it yields them: the pull number `pulls`, counted from
/// zero, yields `values[pulls]`; the pull after the last value finishes the
/// execution, and is told so with `None`; every pull after that fails.
pub proof fn law_generator_yields_in_order(vm: VmView, values: Seq<i64>, last: i64, pulls: nat)
    requires
        yields_in_turn(vm, values, last),
    ensures
        pulls <= values.len() ==> pulled_times(Some(ExecutionView::new(vm)), pulls) == Some(
            between_yields(vm, pulls),
        ),
        pulls > values.len() ==> pulled_times(Some(ExecutionView::new(vm)), pulls) is None,
        pulls < values.len() ==> pulled(
            generator_resume(
                pulled_times(Some(ExecutionView::new(vm)), pulls),
                ValueView::Unit,
            ).result,
        ) == Ok::<Option<ValueView>, VmErrorView>(Some(ValueView::Integer(values[pulls as int]))),
        pulls == values.len() ==> pulled(
            generator_resume(
                pulled_times(Some(ExecutionView::new(vm)), pulls),
                ValueView::Unit,
            ).result,
        ) == Ok::<Option<ValueView>, VmErrorView>(None),
        pulls > values.len() ==> generator_resume(
            pulled_times(Some(ExecutionView::new(vm)), pulls),
            ValueView::Unit,
        ).result == Err::<GeneratorStateView, VmErrorView>(
            VmErrorView::of(VmErrorKind::GeneratorComplete),
        ),
    decreases pulls,
{
    if pulls > 0 {
        law_generator_yields_in_order(vm, values, last, (pulls - 1) as nat);
        if pulls - 1 <= values.len() {
            lemma_next_pull(vm, values, last, (pulls - 1) as nat);
        }
    }
    if pulls <= values.len() {
        lemma_next_pull(vm, values, last, pulls);
    }
}

/// The machine of a function at the start of its pull number `pull`,
/// counted from zero, where every pull before ended at a yield of the
/// function: the machine as the direct evaluation of the pull before left
/// it at the yield, with the unit value to take up in the yield's place.
pub open spec fn pull_start(head: VmView, pull: nat) -> VmView
    decreases pull,
{
    if pull == 0 {
        head
    } else {
        evaluate(pull_start(head, (pull - 1) as nat)).vm.pushed(ValueView::Unit)
    }
}

/// Whether each of the first `pulls` pulls of a function ends at a yield of
/// the function itself, when the function is evaluated directly.
pub open spec fn yields_on_each_of(head: VmView, pulls: nat) -> bool
    decreases pulls,
{
    pulls == 0 || (yields_on_each_of(head, (pulls - 1) as nat) && evaluate(
        pull_start(head, (pulls - 1) as nat),
    ).result matches Ok(EvaluatedView::Yielded(_)))
}

/// An execution after `times` resumptions without a value.
pub open spec fn resumed_times(execution: ExecutionView, times: nat) -> ExecutionView
    decreases times,
{
    if times == 0 {
        execution
    } else {
        resumed_times(execution, (times - 1) as nat).resume().execution
    }
}

/// The execution of a function after `pulls` pulls that each ended at a
/// yield of the function: fresh before the first, and then resumed, with no
/// machine nested, and with the function's machine as the last yield left
/// it.
pub open spec fn suspended_after(head: VmView, pulls: nat) -> ExecutionView {
    if pulls == 0 {
        ExecutionView::new(head)
    } else {
        ExecutionView {
            head: evaluate(pull_start(head, (pulls - 1) as nat)).vm,
            state: ExecutionState::Resumed,
            frames: Seq::empty(),
            finished: false,
        }
    }
}

/// Resuming a function again and again gives what the function gives when
/// it is evaluated directly, pull by pull and in that order.
///
/// After `pulls` pulls that the function itself ended with a yield, the
/// execution is suspended with no machine nested. The resumption that
/// follows yields what the next direct evaluation yields, none skipped and
/// none repeated; or, where that returns, it completes with the value that
/// the function returns, finishes the execution and leaves no machine
/// nested; or, where that fails, it fails with the same error.
pub proof fn law_resume_follows_the_function(head: VmView, pulls: nat)
    requires
        yields_on_each_of(head, pulls),
    ensures
        resumed_times(ExecutionView::new(head), pulls) == suspended_after(head, pulls),
        match evaluate(pull_start(head, pulls)).result {
            Ok(EvaluatedView::Yielded(value)) => {
                &&& suspended_after(head, pulls).resume().result == Ok::<
                    GeneratorStateView,
                    VmErrorView,
                >(GeneratorStateView::Yielded(value))
                &&& suspended_after(head, pulls).resume().execution == suspended_after(
                    head,
                    pulls + 1,
                )
            },
            Ok(EvaluatedView::YieldedInCall(value)) => suspended_after(head, pulls).resume().result
                == Ok::<GeneratorStateView, VmErrorView>(GeneratorStateView::Yielded(value)),
            Ok(EvaluatedView::Returned) => {
                &&& suspended_after(head, pulls).resume().result == (match final_value(
                    evaluate(pull_start(head, pulls)),
                ) {
                    Ok(value) => Ok(GeneratorStateView::Complete(value)),
                    Err(error) => Err(error),
                })
                &&& suspended_after(head, pulls).resume().execution.finished
                &&& suspended_after(head, pulls).resume().execution.frames.len() == 0
            },
            Err(error) => {
                &&& suspended_after(head, pulls).resume().result == Err::<
                    GeneratorStateView,
                    VmErrorView,
                >(error)
                &&& suspended_after(head, pulls).resume().execution.finished
            },
        },
    decreases pulls,
{
    if pulls > 0 {
        law_resume_follows_the_function(head, (pulls - 1) as nat);
    }
    let suspended = suspended_after(head, pulls);
    let started = suspended.resumed();
    let evaluated = evaluate(pull_start(head, pulls));
    assert(started.frames =~= Seq::empty());
    assert(started.current() == pull_start(head, pulls));
    lemma_loop_evaluates(started);
    lemma_loop_finishes(started);
    lemma_call_frames(started, evaluated.vm);
    lemma_call_frames(started.with_current(evaluated.vm), evaluated.vm);
    assert(callers(started) =~= Seq::<crate::vm_error::CallFrame>::empty());
    match evaluated.result {
        Err(error) => {
            assert(error.beneath(callers(started)).frames =~= error.frames);
        },
        Ok(EvaluatedView::Returned) => {
            assert(started.with_current(evaluated.vm).call_frames() =~= seq![
                evaluated.vm.frame(),
            ]);
        },
        Ok(EvaluatedView::Yielded(_)) => {
            assert(started.with_current(evaluated.vm).with_state(ExecutionState::Resumed)
                == suspended_after(head, pulls + 1));
        },
        Ok(_) => {},
    }
}

/// A pull on a generator without a value is a resumption of its execution
/// without a value: it comes to the same result, and the generator keeps
/// the execution as the resumption left it, until that has completed.
pub proof fn law_pulling_is_resuming(execution: ExecutionView)
    ensures
        generator_resume(Some(execution), ValueView::Unit).result == execution.resume().result,
        generator_resume(Some(execution), ValueView::Unit).execution == (if execution.resume().result
            matches Ok(GeneratorStateView::Complete(_)) {
            None
        } else {
            Some(execution.resume().execution)
        }),
{
}

} // verus!
