//! What budgets and single steps do to a run: a budget bounds the
//! instructions of one run and leaves the machine ready to go on, and an
//! execution that is stepped to its end ends as one that is resumed once.

use crate::budget::Budget;
use crate::direct::lemma_with_current_twice;
use crate::execution_view::{
    lemma_turn_weight, lemma_weight_with_current, ExecutionView, TurnView,
};
use crate::generator::GeneratorStateView;
use crate::value::{ValueView, VmView};
use crate::vm::{Effect, VmHaltView};
use crate::vm_error::VmErrorView;
use crate::weight::{lemma_run_weight, lemma_weight_advanced};
use vstd::prelude::*;

verus! {

/// A budget with `more` instructions added. No bound stays no bound.
pub open spec fn extended(budget: Option<nat>, more: nat) -> Option<nat> {
    match budget {
        Some(n) => Some(n + more),
        None => None,
    }
}

/// A run under a budget of `k` instructions executes at most `k`: each
/// instruction is paid for from the budget, and the instruction pointer
/// moves by no more than was paid.
pub proof fn law_budget_bounds_run(vm: VmView, k: nat)
    ensures
        vm.run(Some(k)).budget is Some,
        vm.run(Some(k)).budget->Some_0 <= k,
        vm.run(Some(k)).vm.ip - vm.ip <= k - vm.run(Some(k)).budget->Some_0,
        vm.run(Some(k)).vm.ip >= vm.ip,
    decreases vm.code_left(),
{
    if k > 0 {
        match vm.fetch() {
            Err(_) => {},
            Ok(inst) => match vm.effect(inst) {
                Effect::Next(stack) => {
                    law_budget_bounds_run(vm.with_stack(stack).advanced(), (k - 1) as nat);
                },
                _ => {},
            },
        }
    }
}

/// A run that its budget of `k` instructions stopped leaves the machine
/// ready to go on: a second run, under any budget, ends as one run from the
/// start would have ended under both budgets together. A run that stopped
/// for another reason ends the same under any larger budget.
pub proof fn law_limited_run_goes_on(vm: VmView, k: nat, rest: Option<nat>)
    ensures
        vm.run(Some(k)).result == Ok::<VmHaltView, VmErrorView>(VmHaltView::Limited) ==> vm.run(
            Some(k),
        ).vm.run(rest) == vm.run(extended(rest, k)),
        vm.run(Some(k)).result != Ok::<VmHaltView, VmErrorView>(VmHaltView::Limited) ==> {
            &&& vm.run(extended(rest, k)).vm == vm.run(Some(k)).vm
            &&& vm.run(extended(rest, k)).result == vm.run(Some(k)).result
            &&& vm.run(extended(rest, k)).budget == extended(rest, vm.run(Some(k)).budget->Some_0)
        },
    decreases vm.code_left(),
{
    if k > 0 {
        assert(Budget::taken(extended(rest, k)) == extended(rest, (k - 1) as nat));
        match vm.fetch() {
            Err(_) => {},
            Ok(inst) => match vm.effect(inst) {
                Effect::Next(stack) => {
                    law_limited_run_goes_on(vm.with_stack(stack).advanced(), (k - 1) as nat, rest);
                },
                _ => {},
            },
        }
    } else {
        assert(extended(rest, k) == rest);
    }
}

/// An execution after it was stepped to its end, with the result of the last
/// step and the number of steps that it took.
pub struct Stepped {
    pub execution: ExecutionView,
    pub result: Result<Option<ValueView>, VmErrorView>,
    pub steps: nat,
}

/// A step that went well without finishing the execution has taken weight
/// off it.
pub proof fn lemma_step_weight(execution: ExecutionView)
    ensures
        execution.step().result == Ok::<Option<ValueView>, VmErrorView>(None)
            ==> execution.step().execution.weight() < execution.weight(),
{
    let vm = execution.current();
    let run = vm.run(Some(1nat));
    lemma_run_weight(vm, Some(1nat));
    lemma_weight_with_current(execution, run.vm);
    lemma_turn_weight(execution, Some(1nat), false);
    lemma_weight_advanced(vm);
    match run.result {
        Ok(VmHaltView::Yielded) => {
            let ran = execution.with_current(run.vm);
            if run.vm.stack.len() > 0 {
                lemma_weight_with_current(ran, run.vm.with_stack(run.vm.stack.drop_last()));
            }
        },
        Ok(VmHaltView::Limited) => {
            match vm.fetch() {
                Ok(inst) => match vm.effect(inst) {
                    Effect::Next(stack) => {
                        let next = vm.with_stack(stack).advanced();
                        lemma_weight_advanced(vm.with_stack(stack));
                        assert(Budget::taken(Some(1nat)) == Some(0nat));
                        assert(next.run(Some(0nat)).vm == next);
                        assert(run.vm == next);
                    },
                    _ => {},
                },
                Err(_) => {},
            }
        },
        _ => {},
    }
}

impl ExecutionView {
    /// Steps the execution until a step does not return `None`: until the
    /// execution finishes or a step fails.
    pub open spec fn step_to_end(self) -> Stepped
        decreases self.weight(),
    {
        let step = self.step();
        if step.result == Ok::<Option<ValueView>, VmErrorView>(None) {
            proof {
                lemma_step_weight(self);
            }
            Stepped { steps: step.execution.step_to_end().steps + 1, ..step.execution.step_to_end() }
        } else {
            Stepped { execution: step.execution, result: step.result, steps: 1 }
        }
    }
}

/// What stepping to the end makes of what the trampoline's loop comes to.
pub open spec fn stepped_result(result: Result<GeneratorStateView, VmErrorView>) -> Result<
    Option<ValueView>,
    VmErrorView,
> {
    match result {
        Ok(GeneratorStateView::Complete(value)) => Ok(Some(value)),
        Ok(GeneratorStateView::Yielded(_)) => Ok(None),
        Err(error) => Err(error),
    }
}

/// Stepping an execution to its end, one instruction for each step, ends as
/// the trampoline's loop ends on it, wherever the loop does not yield: in
/// the same execution, with the same final value or the same error. Where
/// the execution finishes, the steps are no more than its weight.
pub proof fn lemma_steps_follow_loop(execution: ExecutionView)
    ensures
        !(execution.run_to_suspension().result matches Ok(GeneratorStateView::Yielded(_))) ==> {
            &&& execution.step_to_end().execution == execution.run_to_suspension().execution
            &&& execution.step_to_end().result == stepped_result(
                execution.run_to_suspension().result,
            )
        },
        execution.step_to_end().result matches Ok(Some(_)) ==> execution.step_to_end().steps
            <= execution.weight(),
    decreases execution.weight(),
{
    if !execution.finished {
        let vm = execution.current();
        let one = vm.run(Some(1nat));
        let full = vm.run(None);
        law_limited_run_goes_on(vm, 1, None);
        lemma_step_weight(execution);
        lemma_turn_weight(execution, None, false);
        lemma_turn_weight(execution, Some(1nat), false);
        lemma_run_weight(vm, Some(1nat));
        lemma_weight_with_current(execution, one.vm);
        if one.result == Ok::<VmHaltView, VmErrorView>(VmHaltView::Limited) {
            let next = execution.with_current(one.vm);
            assert(execution.step().execution == next);
            assert(execution.step().result == Ok::<Option<ValueView>, VmErrorView>(None));
            lemma_with_current_twice(execution, one.vm, full.vm);
            assert(next.turn(None, false) == execution.turn(None, false));
            lemma_steps_follow_loop(next);
            assert(execution.step_to_end().steps == next.step_to_end().steps + 1);
        } else {
            assert(execution.turn(Some(1nat), false).execution == execution.turn(None, false).execution);
            assert(execution.turn(Some(1nat), false).result == execution.turn(None, false).result);
            let turned = execution.turn(None, false);
            if turned.result == Ok::<TurnView, VmErrorView>(TurnView::Continue) {
                lemma_steps_follow_loop(turned.execution);
                assert(execution.step().result == Ok::<Option<ValueView>, VmErrorView>(None));
                assert(execution.step_to_end().steps == turned.execution.step_to_end().steps + 1);
            } else if turned.result matches Ok(TurnView::Complete(_)) {
                assert(one.vm.weight() < vm.weight());
                assert(execution.weight() >= 1);
                assert(execution.step_to_end().steps == 1);
            } else if turned.result matches Ok(TurnView::Yielded(_)) {
                let yielded = execution.step().execution;
                lemma_steps_follow_loop(yielded);
                assert(execution.step_to_end().steps == yielded.step_to_end().steps + 1);
            }
        }
    }
}

/// Whether two executions hold the same machines in the same places and
/// have both finished or both not, whatever their calling states are.
pub open spec fn same_machines(a: ExecutionView, b: ExecutionView) -> bool {
    &&& a.finished == b.finished
    &&& a.head == b.head
    &&& a.frames.len() == b.frames.len()
    &&& forall|i: int| 0 <= i < a.frames.len() ==> a.frames[i].0 == b.frames[i].0
}

/// The weight of the machines beneath the running one does not depend on
/// the calling states that are kept with them.
pub proof fn lemma_rest_weight_ignores_state(
    a: Seq<(VmView, crate::vm_execution::ExecutionState)>,
    b: Seq<(VmView, crate::vm_execution::ExecutionState)>,
)
    requires
        a.len() == b.len(),
        forall|i: int| 0 <= i < a.len() ==> a[i].0 == b[i].0,
    ensures
        crate::execution_view::frames_rest_weight(a) == crate::execution_view::frames_rest_weight(
            b,
        ),
    decreases a.len(),
{
    if a.len() > 0 {
        lemma_rest_weight_ignores_state(a.drop_last(), b.drop_last());
    }
}

/// A turn does to the machines of an execution what it does to the same
/// machines under other calling states, and comes to the same result.
pub proof fn lemma_turn_ignores_state(
    a: ExecutionView,
    b: ExecutionView,
    budget: Option<nat>,
    may_await: bool,
)
    requires
        same_machines(a, b),
    ensures
        a.turn(budget, may_await).result == b.turn(budget, may_await).result,
        a.turn(budget, may_await).budget == b.turn(budget, may_await).budget,
        same_machines(a.turn(budget, may_await).execution, b.turn(budget, may_await).execution),
        a.weight() == b.weight(),
{
    if a.frames.len() > 0 {
        lemma_rest_weight_ignores_state(a.frames.drop_last(), b.frames.drop_last());
    }
    let ran_a = a.with_current(a.current().run(budget).vm);
    let ran_b = b.with_current(b.current().run(budget).vm);
    assert(ran_a.call_frames() =~= ran_b.call_frames());
}

/// The trampoline's loop does to the machines of an execution what it does
/// to the same machines under other calling states, and comes to the same
/// result.
pub proof fn lemma_loop_ignores_state(a: ExecutionView, b: ExecutionView)
    requires
        same_machines(a, b),
    ensures
        a.run_to_suspension().result == b.run_to_suspension().result,
        same_machines(a.run_to_suspension().execution, b.run_to_suspension().execution),
    decreases a.weight(),
{
    lemma_turn_ignores_state(a, b, None, false);
    lemma_turn_weight(a, None, false);
    if a.turn(None, false).result == Ok::<TurnView, VmErrorView>(TurnView::Continue) {
        lemma_loop_ignores_state(a.turn(None, false).execution, b.turn(None, false).execution);
    }
}

/// Stepping a fresh execution to its end, one instruction for each step,
/// gives what resuming it once gives, wherever that does not yield: the same
/// final value or the same error, and the same machines. Where the
/// execution finishes, the steps are no more than the weight of its machine,
/// which for a function without calls is the number of its instructions.
pub proof fn law_stepping_is_resuming(head: VmView)
    ensures
        !(ExecutionView::new(head).resume().result matches Ok(GeneratorStateView::Yielded(_)))
            ==> {
            &&& ExecutionView::new(head).step_to_end().result == stepped_result(
                ExecutionView::new(head).resume().result,
            )
            &&& same_machines(
                ExecutionView::new(head).step_to_end().execution,
                ExecutionView::new(head).resume().execution,
            )
        },
        ExecutionView::new(head).step_to_end().result matches Ok(Some(_)) ==> ExecutionView::new(
            head,
        ).step_to_end().steps <= head.weight(),
{
    let fresh = ExecutionView::new(head);
    lemma_loop_ignores_state(fresh, fresh.resumed());
    lemma_steps_follow_loop(fresh);
}

} // verus!
