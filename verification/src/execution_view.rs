//! What an execution does, stated on plain mathematical data: the trampoline
//! as a function from one state of an execution to the next.

use crate::generator::GeneratorStateView;
use crate::unit::Call;
use crate::value::{ValueView, VmView};
use crate::vm::VmHaltView;
use crate::vm_call::VmCallView;
use crate::vm_error::{CallFrame, VmErrorKind, VmErrorView, VmHaltInfo};
use crate::vm_execution::ExecutionState;
use crate::weight::lemma_run_weight;
use vstd::prelude::*;

verus! {

/// An execution as plain mathematical data.
pub struct ExecutionView {
    /// The outermost machine.
    pub head: VmView,
    /// The calling state of the machine that runs.
    pub state: ExecutionState,
    /// The nested machines, innermost last, each with the calling state that
    /// the machine beneath it gets back once it is taken off.
    pub frames: Seq<(VmView, ExecutionState)>,
    /// Whether the execution has finished: it has handed out its final value
    /// or a turn of it has failed. A finished execution does not go on.
    pub finished: bool,
}

/// What one turn of the trampoline comes to, as plain mathematical data.
pub enum TurnView {
    /// The execution goes on with the machine that now runs.
    Continue,
    /// The execution yielded this value.
    Yielded(ValueView),
    /// The execution finished with this value.
    Complete(ValueView),
    /// The machine that runs waits for this future.
    Awaited(VmView),
    /// The budget ran out.
    Limited,
}

/// How far a driver that wants the final value has come, as plain
/// mathematical data.
pub enum DrivenView {
    /// The execution finished with this value.
    Complete(ValueView),
    /// The machine that runs waits for this future.
    Awaited(VmView),
}

/// An execution after an operation, with the operation's result.
pub struct Outcome<T> {
    pub execution: ExecutionView,
    pub result: Result<T, VmErrorView>,
}

/// An execution and a budget after a turn, with the turn's result.
pub struct TurnOutcome {
    pub execution: ExecutionView,
    pub budget: Option<nat>,
    pub result: Result<TurnView, VmErrorView>,
}

/// A bound on the instructions that the machines beneath the running one can
/// still execute once they get their results.
pub open spec fn frames_rest_weight(frames: Seq<(VmView, ExecutionState)>) -> nat
    decreases frames.len(),
{
    if frames.len() == 0 {
        0
    } else {
        frames_rest_weight(frames.drop_last()) + frames.last().0.rest_weight()
    }
}

/// The value that stands for a call that is not run at once: the machine
/// that was made for it, as it is, in the wrapping that the calling
/// convention asks for.
pub open spec fn deferred(request: VmCallView) -> ValueView {
    match request.call {
        Call::Stream => ValueView::Stream(Box::new(request.vm)),
        Call::Generator => ValueView::Generator(Box::new(request.vm)),
        _ => ValueView::Future(Box::new(request.vm)),
    }
}

impl ExecutionView {
    /// A fresh execution of `head`.
    pub open spec fn new(head: VmView) -> ExecutionView {
        ExecutionView {
            head,
            state: ExecutionState::Initial,
            frames: Seq::empty(),
            finished: false,
        }
    }

    /// The machine that runs: the innermost nested one, or the head where
    /// none is nested.
    pub open spec fn current(self) -> VmView {
        if self.frames.len() > 0 {
            self.frames.last().0
        } else {
            self.head
        }
    }

    /// This execution with `vm` in the place of the machine that runs.
    pub open spec fn with_current(self, vm: VmView) -> ExecutionView {
        if self.frames.len() > 0 {
            ExecutionView {
                frames: self.frames.update(self.frames.len() - 1, (vm, self.frames.last().1)),
                ..self
            }
        } else {
            ExecutionView { head: vm, ..self }
        }
    }

    /// The call frames of the execution, outermost first: for each machine,
    /// the function that it runs and its instruction pointer. A machine
    /// beneath the running one stands at the call that it waits for.
    pub open spec fn call_frames(self) -> Seq<CallFrame> {
        seq![self.head.frame()] + self.frames.map_values(
            |frame: (VmView, ExecutionState)| frame.0.frame(),
        )
    }

    /// What a turn that fails with `error` comes to: the execution is
    /// finished, and the error is bound to the instruction pointer of the
    /// machine that runs and carries the call frames of the execution as
    /// they stand.
    pub open spec fn fail<T>(self, error: VmErrorView) -> Outcome<T> {
        Outcome {
            execution: self.finish(),
            result: Err(error.unwound(self.current().ip, self.call_frames())),
        }
    }

    /// Serves the reason `halt` for which the machine that runs has stopped,
    /// as a turn does: what `dispatch` decides, and where that is an error,
    /// the failure of the turn.
    pub open spec fn serve(self, halt: VmHaltView, may_await: bool) -> Outcome<TurnView> {
        match self.dispatch(halt, may_await).result {
            Err(error) => self.dispatch(halt, may_await).execution.fail(error),
            Ok(_) => self.dispatch(halt, may_await),
        }
    }

    /// This execution, finished.
    pub open spec fn finish(self) -> ExecutionView {
        ExecutionView { finished: true, ..self }
    }

    /// What an operation that a finished execution refuses comes to: the
    /// execution as it was, and the one error that says so.
    pub open spec fn refused<T>(self) -> Outcome<T> {
        Outcome { execution: self, result: Err(VmErrorView::of(VmErrorKind::Finished)) }
    }

    /// This execution in another calling state.
    pub open spec fn with_state(self, state: ExecutionState) -> ExecutionView {
        ExecutionView { state, ..self }
    }

    /// A bound on the instructions that this execution can still execute.
    pub open spec fn weight(self) -> nat {
        if self.frames.len() > 0 {
            self.head.rest_weight() + frames_rest_weight(self.frames.drop_last())
                + self.frames.last().0.weight()
        } else {
            self.head.weight()
        }
    }

    /// This execution with `vm` nested innermost. The calling state is kept
    /// with it for the machine that ran so far, and starts anew.
    pub open spec fn push_vm(self, vm: VmView) -> ExecutionView {
        ExecutionView {
            frames: self.frames.push((vm, self.state)),
            state: ExecutionState::Initial,
            ..self
        }
    }

    /// Takes the innermost nested machine off and hands its result to the
    /// machine beneath it, which moves past its call and gets its calling
    /// state back.
    ///
    /// It is an error where no machine is nested, where the innermost has no
    /// result on its stack, and where it has more on its stack than the
    /// result. An error leaves the execution as it was.
    pub open spec fn pop_vm(self) -> Outcome<()> {
        if self.frames.len() == 0 {
            Outcome { execution: self, result: Err(VmErrorView::of(VmErrorKind::NoRunningVm)) }
        } else if self.frames.last().0.stack.len() == 0 {
            Outcome { execution: self, result: Err(VmErrorView::of(VmErrorKind::StackEmpty)) }
        } else if self.frames.last().0.stack.len() > 1 {
            Outcome { execution: self, result: Err(VmErrorView::of(VmErrorKind::StackNotClean)) }
        } else {
            let beneath = ExecutionView {
                frames: self.frames.drop_last(),
                state: self.frames.last().1,
                ..self
            };
            Outcome {
                execution: beneath.with_current(
                    beneath.current().pushed(self.frames.last().0.stack[0]).advanced(),
                ),
                result: Ok(()),
            }
        }
    }

    /// Ends the execution: takes the final value off the head's stack and
    /// marks the execution as finished.
    ///
    /// It is an error where a machine is still nested and where the head's
    /// stack is empty. An error leaves the execution as it was.
    pub open spec fn end(self) -> Outcome<ValueView> {
        if self.frames.len() > 0 {
            Outcome { execution: self, result: Err(VmErrorView::of(VmErrorKind::RunningVm)) }
        } else if self.head.stack.len() == 0 {
            Outcome { execution: self, result: Err(VmErrorView::of(VmErrorKind::StackEmpty)) }
        } else {
            Outcome {
                execution: ExecutionView {
                    head: self.head.with_stack(self.head.stack.drop_last()),
                    finished: true,
                    ..self
                },
                result: Ok(self.head.stack.last()),
            }
        }
    }

    /// Serves a request for a nested call.
    ///
    /// An immediate call nests the machine, which runs next. Any other call
    /// does not run the machine: the machine is wrapped, as it is, into a
    /// future, a generator or a stream, which is pushed onto the stack of the
    /// machine that made the call, and that machine moves past its call.
    pub open spec fn call(self, request: VmCallView) -> ExecutionView {
        if request.call is Immediate {
            self.push_vm(request.vm)
        } else {
            self.with_current(self.current().pushed(deferred(request)).advanced())
        }
    }

    /// What the trampoline does once the machine that runs has stopped for
    /// the reason `halt`.
    pub open spec fn dispatch(self, halt: VmHaltView, may_await: bool) -> Outcome<TurnView> {
        match halt {
            VmHaltView::Exited => if self.frames.len() == 0 {
                match self.end().result {
                    Ok(value) => Outcome {
                        execution: self.end().execution,
                        result: Ok(TurnView::Complete(value)),
                    },
                    Err(error) => Outcome { execution: self.end().execution, result: Err(error) },
                }
            } else {
                match self.pop_vm().result {
                    Ok(_) => Outcome {
                        execution: self.pop_vm().execution,
                        result: Ok(TurnView::Continue),
                    },
                    Err(error) => Outcome { execution: self.pop_vm().execution, result: Err(error) },
                }
            },
            VmHaltView::Awaited(future) => if may_await {
                Outcome { execution: self, result: Ok(TurnView::Awaited(future)) }
            } else {
                Outcome {
                    execution: self,
                    result: Err(VmErrorView::of(VmErrorKind::Halted { halt: VmHaltInfo::Awaited })),
                }
            },
            VmHaltView::VmCall(request) => Outcome {
                execution: self.call(request),
                result: Ok(TurnView::Continue),
            },
            VmHaltView::Yielded => if self.current().stack.len() == 0 {
                Outcome { execution: self, result: Err(VmErrorView::of(VmErrorKind::StackEmpty)) }
            } else {
                Outcome {
                    execution: self.with_current(
                        self.current().with_stack(self.current().stack.drop_last()),
                    ).with_state(ExecutionState::Resumed),
                    result: Ok(TurnView::Yielded(self.current().stack.last())),
                }
            },
            VmHaltView::Limited => Outcome { execution: self, result: Ok(TurnView::Limited) },
        }
    }

    /// One turn of the trampoline: the machine that runs is run under
    /// `budget` until it stops, and the reason for which it stopped is
    /// served.
    ///
    /// A turn that fails finishes the execution, and its error tells where:
    /// it carries the instruction pointer of the machine that ran and the
    /// call frames of the execution. A finished execution takes no turn:
    /// nothing is run, the budget is untouched, and the turn is an error.
    pub open spec fn turn(self, budget: Option<nat>, may_await: bool) -> TurnOutcome {
        let run = self.current().run(budget);
        let ran = self.with_current(run.vm);
        if self.finished {
            TurnOutcome { execution: self, budget, result: Err(VmErrorView::of(VmErrorKind::Finished)) }
        } else {
            match run.result {
                Err(error) => TurnOutcome {
                    execution: ran.fail::<TurnView>(error).execution,
                    budget: run.budget,
                    result: ran.fail::<TurnView>(error).result,
                },
                Ok(halt) => TurnOutcome {
                    execution: ran.serve(halt, may_await).execution,
                    budget: run.budget,
                    result: ran.serve(halt, may_await).result,
                },
            }
        }
    }
}

/// Putting a machine in the place of the running one changes the weight of
/// the execution by the difference of the two machines' weights.
pub proof fn lemma_weight_with_current(execution: ExecutionView, vm: VmView)
    ensures
        execution.with_current(vm).weight() + execution.current().weight() == execution.weight()
            + vm.weight(),
        execution.with_current(vm).current() == vm,
        execution.with_current(vm).frames.len() == execution.frames.len(),
{
    if execution.frames.len() > 0 {
        let frames = execution.frames;
        let after = execution.with_current(vm).frames;
        assert(after.drop_last() =~= frames.drop_last());
    }
}

/// A turn that lets the execution go on has taken weight off it.
pub proof fn lemma_turn_weight(execution: ExecutionView, budget: Option<nat>, may_await: bool)
    ensures
        execution.turn(budget, may_await).result == Ok::<TurnView, VmErrorView>(TurnView::Continue)
            ==> execution.turn(budget, may_await).execution.weight() < execution.weight(),
{
    let current = execution.current();
    let run = current.run(budget);
    let ran = execution.with_current(run.vm);
    lemma_run_weight(current, budget);
    lemma_weight_with_current(execution, run.vm);
    if execution.turn(budget, may_await).result == Ok::<TurnView, VmErrorView>(TurnView::Continue) {
        match run.result {
            Ok(VmHaltView::Exited) => {
                let popped = ran.pop_vm().execution;
                let frames = ran.frames;
                let beneath = ExecutionView {
                    frames: frames.drop_last(),
                    state: frames.last().1,
                    ..ran
                };
                let landed = beneath.current().pushed(frames.last().0.stack[0]).advanced();
                lemma_weight_with_current(beneath, landed);
                assert(landed.weight() == beneath.current().rest_weight());
                if beneath.frames.len() > 0 {
                    assert(frames_rest_weight(frames.drop_last()) == frames_rest_weight(
                        frames.drop_last().drop_last(),
                    ) + beneath.current().rest_weight());
                }
            },
            Ok(VmHaltView::VmCall(request)) => {
                if request.call is Immediate {
                    let pushed = ran.push_vm(request.vm);
                    assert(pushed.frames.drop_last() =~= ran.frames);
                    if ran.frames.len() > 0 {
                        assert(frames_rest_weight(ran.frames) == frames_rest_weight(
                            ran.frames.drop_last(),
                        ) + ran.frames.last().0.rest_weight());
                    }
                } else {
                    let landed = ran.current().pushed(deferred(request)).advanced();
                    lemma_weight_with_current(ran, landed);
                }
            },
            _ => {},
        }
    }
}

impl ExecutionView {
    /// The trampoline's loop: turn follows turn, without a budget and
    /// without waiting for futures, until the execution yields, finishes or
    /// fails.
    pub open spec fn run_to_suspension(self) -> Outcome<GeneratorStateView>
        decreases self.weight(),
    {
        let turn = self.turn(None, false);
        match turn.result {
            Err(error) => Outcome { execution: turn.execution, result: Err(error) },
            Ok(TurnView::Yielded(value)) => Outcome {
                execution: turn.execution,
                result: Ok(GeneratorStateView::Yielded(value)),
            },
            Ok(TurnView::Complete(value)) => Outcome {
                execution: turn.execution,
                result: Ok(GeneratorStateView::Complete(value)),
            },
            Ok(TurnView::Awaited(_)) => Outcome {
                execution: turn.execution,
                result: Err(VmErrorView::of(VmErrorKind::Halted { halt: VmHaltInfo::Awaited })),
            },
            Ok(TurnView::Limited) => Outcome {
                execution: turn.execution,
                result: Err(VmErrorView::of(VmErrorKind::Halted { halt: VmHaltInfo::Limited })),
            },
            Ok(TurnView::Continue) => {
                proof {
                    lemma_turn_weight(self, None, false);
                }
                turn.execution.run_to_suspension()
            },
        }
    }

    /// The trampoline's loop as a driver sees it: turn follows turn, without
    /// a budget, until the execution yields, finishes or fails, or until the
    /// machine that runs waits for a future, which is handed out where
    /// `may_await` holds and is an error where it does not.
    pub open spec fn drive(self, may_await: bool) -> Outcome<TurnView>
        decreases self.weight(),
    {
        let turn = self.turn(None, may_await);
        if turn.result == Ok::<TurnView, VmErrorView>(TurnView::Continue) {
            proof {
                lemma_turn_weight(self, None, may_await);
            }
            turn.execution.drive(may_await)
        } else {
            Outcome { execution: turn.execution, result: turn.result }
        }
    }

    /// What a resumption makes of what the trampoline's loop comes to. A
    /// loop that ends at an await or for want of budget has failed.
    pub open spec fn suspended(result: Result<TurnView, VmErrorView>) -> Result<
        GeneratorStateView,
        VmErrorView,
    > {
        match result {
            Ok(TurnView::Yielded(value)) => Ok(GeneratorStateView::Yielded(value)),
            Ok(TurnView::Complete(value)) => Ok(GeneratorStateView::Complete(value)),
            Ok(TurnView::Awaited(_)) => Err(
                VmErrorView::of(VmErrorKind::Halted { halt: VmHaltInfo::Awaited }),
            ),
            Ok(_) => Err(VmErrorView::of(VmErrorKind::Halted { halt: VmHaltInfo::Limited })),
            Err(error) => Err(error),
        }
    }

    /// This execution as a resumption without a value finds it before it
    /// runs: where it was resumed before, the unit value is pushed for the
    /// machine that runs; else it is marked as resumed.
    pub open spec fn resumed(self) -> ExecutionView {
        if self.state is Resumed {
            self.with_current(self.current().pushed(ValueView::Unit))
        } else {
            self.with_state(ExecutionState::Resumed)
        }
    }

    /// Makes the execution ready to be resumed without a value. A finished
    /// execution refuses.
    pub open spec fn start_resume(self) -> Outcome<()> {
        if self.finished {
            self.refused()
        } else {
            Outcome { execution: self.resumed(), result: Ok(()) }
        }
    }

    /// Makes the execution ready to be resumed with `value`: the machine
    /// that runs gets the value on its stack.
    ///
    /// Only an execution that was resumed before can take a value: any
    /// other fails for its state, finished or not. One that was resumed
    /// before and has finished refuses.
    pub open spec fn start_resume_with(self, value: ValueView) -> Outcome<()> {
        if !(self.state is Resumed) {
            Outcome {
                execution: self,
                result: Err(
                    VmErrorView::of(
                        VmErrorKind::ExpectedExecutionState {
                            expected: ExecutionState::Resumed,
                            actual: self.state,
                        },
                    ),
                ),
            }
        } else if self.finished {
            self.refused()
        } else {
            Outcome {
                execution: self.with_current(self.current().pushed(value)),
                result: Ok(()),
            }
        }
    }

    /// Resumes the execution without a value. A finished execution refuses,
    /// and stays as it was.
    pub open spec fn resume(self) -> Outcome<GeneratorStateView> {
        match self.start_resume().result {
            Ok(_) => self.start_resume().execution.run_to_suspension(),
            Err(error) => Outcome { execution: self.start_resume().execution, result: Err(error) },
        }
    }

    /// Resumes the execution with `value`. Only an execution that was
    /// resumed before can take a value: any other fails for its state,
    /// finished or not. One that was resumed before and has finished
    /// refuses. Either way the execution stays as it was.
    pub open spec fn resume_with(self, value: ValueView) -> Outcome<GeneratorStateView> {
        match self.start_resume_with(value).result {
            Ok(_) => self.start_resume_with(value).execution.run_to_suspension(),
            Err(error) => Outcome {
                execution: self.start_resume_with(value).execution,
                result: Err(error),
            },
        }
    }

    /// The error of one who wants the final value only, at a yield. It
    /// tells where the execution stands: it carries the instruction pointer
    /// of the machine that yielded and the call frames of the execution.
    pub open spec fn yield_refused(self) -> VmErrorView {
        VmErrorView::of(VmErrorKind::Halted { halt: VmHaltInfo::Yielded }).unwound(
            self.current().ip,
            self.call_frames(),
        )
    }

    /// What is left of a resumption for one who wants the final value only:
    /// a yield is an error.
    pub open spec fn completed(self, state: GeneratorStateView) -> Result<ValueView, VmErrorView> {
        match state {
            GeneratorStateView::Complete(value) => Ok(value),
            GeneratorStateView::Yielded(_) => Err(self.yield_refused()),
        }
    }

    /// Runs the execution to its end.
    pub open spec fn complete(self) -> Outcome<ValueView> {
        Outcome {
            execution: self.resume().execution,
            result: match self.resume().result {
                Ok(state) => self.resume().execution.completed(state),
                Err(error) => Err(error),
            },
        }
    }

    /// Drives the execution towards its final value: until it finishes or
    /// fails, or until the machine that runs waits for a future, which is
    /// handed out. A yield on the way is an error, as it is for `complete`.
    pub open spec fn drive_to_end(self) -> Outcome<DrivenView> {
        Outcome {
            execution: self.drive(true).execution,
            result: match self.drive(true).result {
                Ok(TurnView::Complete(value)) => Ok(DrivenView::Complete(value)),
                Ok(TurnView::Awaited(future)) => Ok(DrivenView::Awaited(future)),
                Ok(TurnView::Yielded(_)) => Err(self.drive(true).execution.yield_refused()),
                Ok(_) => Err(VmErrorView::of(VmErrorKind::Halted { halt: VmHaltInfo::Limited })),
                Err(error) => Err(error),
            },
        }
    }

    /// What a step makes of a turn: the final value where the execution
    /// finished, and nothing for every other way in which the turn went well.
    pub open spec fn stepped(result: Result<TurnView, VmErrorView>) -> Result<
        Option<ValueView>,
        VmErrorView,
    > {
        match result {
            Ok(TurnView::Complete(value)) => Ok(Some(value)),
            Ok(_) => Ok(None),
            Err(error) => Err(error),
        }
    }

    /// One step: a turn with a budget of one instruction, without waiting
    /// for futures.
    pub open spec fn step(self) -> Outcome<Option<ValueView>> {
        Outcome {
            execution: self.turn(Some(1nat), false).execution,
            result: ExecutionView::stepped(self.turn(Some(1nat), false).result),
        }
    }
}

/// The trampoline's loop is the driver's loop without waiting.
pub proof fn lemma_loop_is_drive(execution: ExecutionView)
    ensures
        execution.run_to_suspension().execution == execution.drive(false).execution,
        execution.run_to_suspension().result == ExecutionView::suspended(
            execution.drive(false).result,
        ),
    decreases execution.weight(),
{
    lemma_turn_weight(execution, None, false);
    if execution.turn(None, false).result == Ok::<TurnView, VmErrorView>(TurnView::Continue) {
        lemma_loop_is_drive(execution.turn(None, false).execution);
    }
}

} // verus!
