use crate::budget::Budget;
use crate::execution_view::{
    lemma_loop_is_drive, lemma_turn_weight, DrivenView, ExecutionView, TurnView,
};
use crate::generator::{Generator, GeneratorState, GeneratorStateView, Stream};
use crate::value::{Value, ValueView, VmView};
use crate::vm::{halt_result_view, lemma_run_error, Awaited, Vm, VmHalt};
use crate::vm_error::{
    unit_result_view, CallFrame, VmError, VmErrorKind, VmErrorView, VmHaltInfo,
};
use vstd::prelude::*;

verus! {

/// Whether the next resumption of an execution must be handed a value.
#[derive(Clone, Copy, Debug, PartialEq, Eq, Structural)]
pub enum ExecutionState {
    /// Nothing has been resumed yet: the machine is simply run.
    Initial,
    /// The machine is resumed with a value pushed onto its stack.
    Resumed,
}

impl ExecutionState {
    /// The word that messages use for this state.
    pub open spec fn spec_name(self) -> Seq<char> {
        match self {
            ExecutionState::Initial => "initial"@,
            ExecutionState::Resumed => "resumed"@,
        }
    }

    /// The word that messages use for this state.
    pub fn name(self) -> (name: &'static str)
        ensures
            name@ == self.spec_name(),
    {
        match self {
            ExecutionState::Initial => "initial",
            ExecutionState::Resumed => "resumed",
        }
    }
}

/// The outermost machine of an execution: one that the execution owns, or
/// one that it has borrowed for as long as it lives.
#[derive(Debug, PartialEq)]
pub enum Head<'a> {
    Owned(Vm),
    Borrowed(&'a mut Vm),
}

impl<'a> Head<'a> {
    /// The machine.
    pub open spec fn vm(self) -> Vm {
        match self {
            Head::Owned(vm) => vm,
            Head::Borrowed(vm) => *vm,
        }
    }
}

/// The execution of a machine: the machine, the machines nested on it for
/// calls that are under way, and the calling state.
///
/// Dropping an execution drops its machines as they are. Nothing of them is
/// run for it.
#[derive(Debug, PartialEq)]
pub struct VmExecution<'a> {
    /// The outermost machine.
    pub head: Head<'a>,
    /// The calling state of the machine that runs.
    pub state: ExecutionState,
    /// The nested machines, innermost last, each with the calling state that
    /// the machine beneath it gets back once it is taken off.
    pub frames: Vec<(Vm, ExecutionState)>,
    /// Whether the execution has finished: it has handed out its final value
    /// or a turn of it has failed. A finished execution does not go on.
    pub finished: bool,
}

/// Nested machines as mathematical data, in order.
pub open spec fn frames_view(frames: Seq<(Vm, ExecutionState)>) -> Seq<(VmView, ExecutionState)> {
    frames.map_values(|frame: (Vm, ExecutionState)| (frame.0@, frame.1))
}

/// Putting a machine in the place of a nested one puts its model in the
/// place of that one's model.
pub proof fn lemma_frames_update(frames: Seq<(Vm, ExecutionState)>, i: int, vm: Vm)
    requires
        0 <= i < frames.len(),
    ensures
        frames_view(frames.update(i, (vm, frames[i].1))) == frames_view(frames).update(
            i,
            (vm@, frames[i].1),
        ),
{
    assert(frames_view(frames.update(i, (vm, frames[i].1))) =~= frames_view(frames).update(
        i,
        (vm@, frames[i].1),
    ));
}

impl<'a> View for VmExecution<'a> {
    type V = ExecutionView;

    open spec fn view(&self) -> ExecutionView {
        ExecutionView {
            head: self.head.vm()@,
            state: self.state,
            frames: frames_view(self.frames@),
            finished: self.finished,
        }
    }
}

/// What a turn of the trampoline comes to.
#[derive(Debug, PartialEq)]
pub enum Turn {
    /// The execution goes on with the machine that now runs.
    Continue,
    /// The execution yielded this value.
    Yielded(Value),
    /// The execution finished with this value.
    Complete(Value),
    /// The machine that runs waits for this future, whose result is to be
    /// pushed onto its stack before the next turn.
    Awaited(Awaited),
    /// The budget ran out.
    Limited,
}

impl View for Turn {
    type V = TurnView;

    open spec fn view(&self) -> TurnView {
        match self {
            Turn::Continue => TurnView::Continue,
            Turn::Yielded(value) => TurnView::Yielded(value@),
            Turn::Complete(value) => TurnView::Complete(value@),
            Turn::Awaited(awaited) => TurnView::Awaited(awaited.future@),
            Turn::Limited => TurnView::Limited,
        }
    }
}

impl Turn {
    /// What a resumption makes of the turn on which the trampoline's loop
    /// ended: what was yielded, or the final value. A loop that ended at an
    /// await or for want of budget has failed.
    pub fn into_state(self) -> (result: Result<GeneratorState, VmError>)
        ensures
            state_result_view(result) == ExecutionView::suspended(Ok(self@)),
    {
        match self {
            Turn::Yielded(value) => Ok(GeneratorState::Yielded(value)),
            Turn::Complete(value) => Ok(GeneratorState::Complete(value)),
            Turn::Awaited(_) => Err(VmError::new(VmErrorKind::Halted { halt: VmHaltInfo::Awaited })),
            _ => Err(VmError::new(VmErrorKind::Halted { halt: VmHaltInfo::Limited })),
        }
    }

    /// What a step makes of its turn: the final value where the execution
    /// finished, and nothing else.
    pub fn into_stepped(self) -> (value: Option<Value>)
        ensures
            step_result_view(Ok(value)) == ExecutionView::stepped(Ok(self@)),
    {
        match self {
            Turn::Complete(value) => Some(value),
            _ => None,
        }
    }
}

/// The result of a turn as plain mathematical data.
pub open spec fn turn_result_view(result: Result<Turn, VmError>) -> Result<
    TurnView,
    VmErrorView,
> {
    match result {
        Ok(turn) => Ok(turn@),
        Err(error) => Err(error@),
    }
}

/// The result of a resumption as plain mathematical data.
pub open spec fn state_result_view(result: Result<GeneratorState, VmError>) -> Result<
    GeneratorStateView,
    VmErrorView,
> {
    match result {
        Ok(state) => Ok(state@),
        Err(error) => Err(error@),
    }
}

/// A value or an error as plain mathematical data.
pub open spec fn value_result_view(result: Result<Value, VmError>) -> Result<
    ValueView,
    VmErrorView,
> {
    match result {
        Ok(value) => Ok(value@),
        Err(error) => Err(error@),
    }
}

/// The result of a step as plain mathematical data.
pub open spec fn step_result_view(result: Result<Option<Value>, VmError>) -> Result<
    Option<ValueView>,
    VmErrorView,
> {
    match result {
        Ok(Some(value)) => Ok(Some(value@)),
        Ok(None) => Ok(None),
        Err(error) => Err(error@),
    }
}

impl<'a> VmExecution<'a> {
    /// A fresh execution of a machine that it owns.
    pub fn new(head: Vm) -> (execution: VmExecution<'static>)
        ensures
            execution@ == ExecutionView::new(head@),
            execution.head is Owned,
    {
        let execution = VmExecution {
            head: Head::Owned(head),
            state: ExecutionState::Initial,
            frames: Vec::new(),
            finished: false,
        };
        assert(execution@.frames =~= Seq::empty());
        execution
    }

    /// A fresh execution of a machine that it borrows. The lender finds the
    /// machine as the execution leaves it.
    pub fn borrowed(head: &'a mut Vm) -> (execution: Self)
        ensures
            execution@ == ExecutionView::new(old(head)@),
            execution.head matches Head::Borrowed(vm) && *final(vm) == *final(head),
    {
        let execution = VmExecution {
            head: Head::Borrowed(head),
            state: ExecutionState::Initial,
            frames: Vec::new(),
            finished: false,
        };
        assert(execution@.frames =~= Seq::empty());
        execution
    }

    /// Whether the execution has finished: it has handed out its final value
    /// or a turn of it has failed.
    pub fn is_finished(&self) -> (finished: bool)
        ensures
            finished == self@.finished,
    {
        self.finished
    }

    /// Whether the execution was resumed before, so that the machine that
    /// runs expects a value.
    pub fn is_resumed(&self) -> (resumed: bool)
        ensures
            resumed == (self@.state is Resumed),
    {
        matches!(self.state, ExecutionState::Resumed)
    }

    /// The machine that runs.
    pub fn vm(&self) -> (vm: &Vm)
        ensures
            vm@ == self@.current(),
    {
        let len = self.frames.len();
        if len > 0 {
            &self.frames[len - 1].0
        } else {
            match &self.head {
                Head::Owned(vm) => vm,
                Head::Borrowed(vm) => &**vm,
            }
        }
    }

    /// The machine that runs, to work on.
    pub fn vm_mut(&mut self) -> (vm: &mut Vm)
        ensures
            vm@ == old(self)@.current(),
            final(self)@ == old(self)@.with_current(final(vm)@),
            final(self).head is Borrowed == old(self).head is Borrowed,
            final(self).head matches Head::Borrowed(after) ==> old(self).head matches Head::Borrowed(
                before,
            ) && *final(after) == *final(before),
    {
        let len = self.frames.len();
        if len > 0 {
            proof {
                let frames = self.frames@;
                assert forall|vm: Vm| #[trigger]
                    frames_view(frames.update(len - 1, (vm, frames[len - 1].1))) == frames_view(
                        frames,
                    ).update(len - 1, (vm@, frames[len - 1].1)) by {
                    lemma_frames_update(frames, len - 1, vm);
                }
            }
            &mut self.frames[len - 1].0
        } else {
            match &mut self.head {
                Head::Owned(vm) => vm,
                Head::Borrowed(vm) => &mut **vm,
            }
        }
    }

    /// The call frames of the execution, outermost first: for each machine,
    /// the function that it runs and its instruction pointer. A machine
    /// beneath the running one stands at the call that it waits for.
    pub fn call_frames(&self) -> (trace: Vec<CallFrame>)
        ensures
            trace@ == self@.call_frames(),
    {
        let mut trace: Vec<CallFrame> = Vec::new();
        match &self.head {
            Head::Owned(vm) => trace.push(vm.frame()),
            Head::Borrowed(vm) => trace.push(vm.frame()),
        }
        let mut i: usize = 0;
        while i < self.frames.len()
            invariant
                i <= self.frames.len(),
                trace.len() == i + 1,
                trace[0] == self.head.vm()@.frame(),
                forall|j: int| 0 <= j < i ==> trace[j + 1] == self.frames[j].0@.frame(),
            decreases self.frames.len() - i,
        {
            trace.push(self.frames[i].0.frame());
            i = i + 1;
        }
        assert(trace@ =~= self@.call_frames());
        trace
    }

    /// Finishes the execution for `error`: for the error on which a turn of
    /// it failed, or for the error of a driver that could not give the
    /// execution what it waits for. The execution goes no further. The error
    /// is handed back, bound to the instruction pointer of the machine that
    /// runs and with the call frames of the execution, unless it is bound
    /// already.
    pub fn fail(&mut self, error: VmError) -> (bound: VmError)
        ensures
            final(self)@ == old(self)@.finish(),
            bound@ == error@.unwound(old(self)@.current().ip, old(self)@.call_frames()),
            final(self).head is Borrowed == old(self).head is Borrowed,
            final(self).head matches Head::Borrowed(after) ==> old(self).head matches Head::Borrowed(
                before,
            ) && *final(after) == *final(before),
    {
        let ip = self.vm().ip();
        let trace = self.call_frames();
        self.finished = true;
        error.into_unwinded(ip, trace)
    }

    /// Nests `vm` innermost, so that it runs next. The calling state is kept
    /// with it for the machine that ran so far, and starts anew.
    pub fn push_vm(&mut self, vm: Vm)
        ensures
            final(self)@ == old(self)@.push_vm(vm@),
            final(self).head is Borrowed == old(self).head is Borrowed,
            final(self).head matches Head::Borrowed(after) ==> old(self).head matches Head::Borrowed(
                before,
            ) && *final(after) == *final(before),
    {
        self.frames.push((vm, self.state));
        self.state = ExecutionState::Initial;
        assert(self@.frames =~= old(self)@.frames.push((vm@, old(self).state)));
    }

    /// Takes the innermost nested machine off and hands its result to the
    /// machine beneath it, which moves past its call and gets its calling
    /// state back.
    pub fn pop_vm(&mut self) -> (result: Result<(), VmError>)
        ensures
            final(self)@ == old(self)@.pop_vm().execution,
            unit_result_view(result) == old(self)@.pop_vm().result,
            final(self).head is Borrowed == old(self).head is Borrowed,
            final(self).head matches Head::Borrowed(after) ==> old(self).head matches Head::Borrowed(
                before,
            ) && *final(after) == *final(before),
    {
        let len = self.frames.len();
        if len == 0 {
            return Err(VmError::new(VmErrorKind::NoRunningVm));
        }
        let left = self.frames[len - 1].0.stack.len();
        if left == 0 {
            return Err(VmError::new(VmErrorKind::StackEmpty));
        }
        if left > 1 {
            return Err(VmError::new(VmErrorKind::StackNotClean));
        }
        let (mut from, state) = self.frames.pop().unwrap();
        let value = from.stack.pop().unwrap();
        assert(frames_view(self.frames@) =~= old(self)@.frames.drop_last());
        self.state = state;
        let onto = self.vm_mut();
        onto.push(value);
        onto.advance();
        Ok(())
    }

    /// Ends the execution: takes the final value off the head's stack and
    /// marks the execution as finished.
    pub fn end(&mut self) -> (result: Result<Value, VmError>)
        ensures
            final(self)@ == old(self)@.end().execution,
            value_result_view(result) == old(self)@.end().result,
            final(self).head is Borrowed == old(self).head is Borrowed,
            final(self).head matches Head::Borrowed(after) ==> old(self).head matches Head::Borrowed(
                before,
            ) && *final(after) == *final(before),
    {
        if self.frames.len() > 0 {
            return Err(VmError::new(VmErrorKind::RunningVm));
        }
        match self.vm_mut().pop() {
            Ok(value) => {
                self.finished = true;
                Ok(value)
            },
            Err(error) => Err(error),
        }
    }

    /// Runs one machine under `budget`. An error is bound to the instruction
    /// at which the machine failed, and carries the machine's call frame.
    pub fn run(vm: &mut Vm, budget: &mut Budget) -> (result: Result<VmHalt, VmError>)
        ensures
            final(vm)@ == old(vm)@.run(old(budget)@).vm,
            final(budget)@ == old(vm)@.run(old(budget)@).budget,
            halt_result_view(result) == (match old(vm)@.run(old(budget)@).result {
                Ok(halt) => Ok(halt),
                Err(error) => Err(error.unwound(final(vm)@.ip, seq![final(vm)@.frame()])),
            }),
    {
        match vm.run(budget) {
            Ok(reason) => Ok(reason),
            Err(error) => {
                let mut frames: Vec<CallFrame> = Vec::new();
                frames.push(vm.frame());
                assert(frames@ =~= seq![vm@.frame()]);
                Err(error.into_unwinded(vm.ip(), frames))
            },
        }
    }
}

impl<'a> VmExecution<'a> {
    /// One turn of the trampoline: runs the machine that runs under `budget`
    /// until it stops, and serves the reason for which it stopped.
    ///
    /// A return takes the nested machine off and hands its result down, or
    /// finishes the execution where none is nested. A yield takes the yielded
    /// value off the stack and marks the execution as resumed. A call nests
    /// the new machine or wraps it into a value. An await is handed out where
    /// `may_await` holds, and is an error where it does not.
    ///
    /// A turn that fails finishes the execution. A finished execution takes
    /// no turn: nothing is run, the budget is untouched, and the turn is an
    /// error.
    pub fn turn(&mut self, budget: &mut Budget, may_await: bool) -> (result: Result<Turn, VmError>)
        ensures
            final(self)@ == old(self)@.turn(old(budget)@, may_await).execution,
            final(budget)@ == old(self)@.turn(old(budget)@, may_await).budget,
            turn_result_view(result) == old(self)@.turn(old(budget)@, may_await).result,
            old(self)@.finished ==> final(self)@ == old(self)@ && result is Err && result->Err_0@
                == VmErrorView::of(VmErrorKind::Finished),
            final(self).head is Borrowed == old(self).head is Borrowed,
            final(self).head matches Head::Borrowed(after) ==> old(self).head matches Head::Borrowed(
                before,
            ) && *final(after) == *final(before),
    {
        if self.finished {
            return Err(VmError::new(VmErrorKind::Finished));
        }
        let len = self.frames.len();
        proof {
            lemma_run_error(self@.current(), budget@);
        }
        let halt = match Self::run(self.vm_mut(), budget) {
            Ok(halt) => halt,
            Err(error) => {
                let trace = self.call_frames();
                self.finished = true;
                return Err(error.traced(trace));
            },
        };
        let ghost ran = self@;
        let ghost reason = halt@;
        let result = match halt {
            VmHalt::Exited => {
                if len == 0 {
                    match self.end() {
                        Ok(value) => Ok(Turn::Complete(value)),
                        Err(error) => Err(error),
                    }
                } else {
                    match self.pop_vm() {
                        Ok(_) => Ok(Turn::Continue),
                        Err(error) => Err(error),
                    }
                }
            },
            VmHalt::Awaited(awaited) => {
                if may_await {
                    Ok(Turn::Awaited(awaited))
                } else {
                    Err(VmError::new(VmErrorKind::Halted { halt: VmHaltInfo::Awaited }))
                }
            },
            VmHalt::VmCall(request) => {
                match request.into_execution(self) {
                    Ok(_) => Ok(Turn::Continue),
                    Err(error) => Err(error),
                }
            },
            VmHalt::Yielded => {
                match self.vm_mut().pop() {
                    Ok(value) => {
                        self.state = ExecutionState::Resumed;
                        Ok(Turn::Yielded(value))
                    },
                    Err(error) => Err(error),
                }
            },
            VmHalt::Limited => Ok(Turn::Limited),
        };
        assert(self@.frames =~= ran.dispatch(reason, may_await).execution.frames);
        match result {
            Ok(turn) => Ok(turn),
            Err(error) => Err(self.fail(error)),
        }
    }

    /// The trampoline's loop: turn follows turn until the execution yields,
    /// finishes or fails, or until the machine that runs waits for a future.
    ///
    /// Where `may_await` holds the future is handed out: the driver resolves
    /// it, pushes its result onto the stack of the machine that runs, and
    /// calls again. Where it does not hold, an await is an error. A finished
    /// execution refuses, and stays as it was.
    pub fn drive(&mut self, may_await: bool) -> (result: Result<Turn, VmError>)
        ensures
            final(self)@ == old(self)@.drive(may_await).execution,
            turn_result_view(result) == old(self)@.drive(may_await).result,
            old(self)@.finished ==> final(self)@ == old(self)@ && result is Err && result->Err_0@
                == VmErrorView::of(VmErrorKind::Finished),
            final(self).head is Borrowed == old(self).head is Borrowed,
            final(self).head matches Head::Borrowed(after) ==> old(self).head matches Head::Borrowed(
                before,
            ) && *final(after) == *final(before),
    {
        loop
            invariant
                self@.drive(may_await) == old(self)@.drive(may_await),
                self.head is Borrowed == old(self).head is Borrowed,
                self.head matches Head::Borrowed(after) ==> old(self).head matches Head::Borrowed(
                    before,
                ) && *final(after) == *final(before),
            decreases self@.weight(),
        {
            let mut budget = Budget::unlimited();
            proof {
                lemma_turn_weight(self@, None, may_await);
            }
            match self.turn(&mut budget, may_await) {
                Ok(Turn::Continue) => {},
                other => {
                    return other;
                },
            }
        }
    }

    /// Runs the execution, without waiting for futures, until it yields,
    /// finishes or fails.
    fn inner_resume(&mut self) -> (result: Result<GeneratorState, VmError>)
        ensures
            final(self)@ == old(self)@.run_to_suspension().execution,
            state_result_view(result) == old(self)@.run_to_suspension().result,
            final(self).head is Borrowed == old(self).head is Borrowed,
            final(self).head matches Head::Borrowed(after) ==> old(self).head matches Head::Borrowed(
                before,
            ) && *final(after) == *final(before),
    {
        proof {
            lemma_loop_is_drive(self@);
        }
        match self.drive(false) {
            Ok(turn) => turn.into_state(),
            Err(error) => Err(error),
        }
    }

    /// Makes the execution ready to be resumed with `value`: the machine that
    /// runs gets the value on its stack.
    ///
    /// Only an execution that was resumed before can take a value: any
    /// other fails for its state, finished or not. One that was resumed
    /// before and has finished refuses. An error leaves the execution as it
    /// was.
    pub fn start_resume_with(&mut self, value: Value) -> (result: Result<(), VmError>)
        ensures
            final(self)@ == old(self)@.start_resume_with(value@).execution,
            unit_result_view(result) == old(self)@.start_resume_with(value@).result,
            !(old(self)@.state is Resumed) ==> final(self)@ == old(self)@ && result is Err
                && result->Err_0@ == VmErrorView::of(
                VmErrorKind::ExpectedExecutionState {
                    expected: ExecutionState::Resumed,
                    actual: old(self)@.state,
                },
            ),
            old(self)@.state is Resumed && old(self)@.finished ==> final(self)@ == old(self)@
                && result is Err && result->Err_0@ == VmErrorView::of(VmErrorKind::Finished),
            final(self).head is Borrowed == old(self).head is Borrowed,
            final(self).head matches Head::Borrowed(after) ==> old(self).head matches Head::Borrowed(
                before,
            ) && *final(after) == *final(before),
    {
        if !matches!(self.state, ExecutionState::Resumed) {
            return Err(
                VmError::new(
                    VmErrorKind::ExpectedExecutionState {
                        expected: ExecutionState::Resumed,
                        actual: self.state,
                    },
                ),
            );
        }
        if self.finished {
            return Err(VmError::new(VmErrorKind::Finished));
        }
        self.vm_mut().push(value);
        Ok(())
    }

    /// Makes the execution ready to be resumed without a value: where it was
    /// resumed before, the machine that runs gets the unit value on its
    /// stack; else the execution is marked as resumed. A finished execution
    /// refuses, and stays as it was.
    pub fn start_resume(&mut self) -> (result: Result<(), VmError>)
        ensures
            final(self)@ == old(self)@.start_resume().execution,
            unit_result_view(result) == old(self)@.start_resume().result,
            old(self)@.finished ==> final(self)@ == old(self)@ && result is Err && result->Err_0@
                == VmErrorView::of(VmErrorKind::Finished),
            final(self).head is Borrowed == old(self).head is Borrowed,
            final(self).head matches Head::Borrowed(after) ==> old(self).head matches Head::Borrowed(
                before,
            ) && *final(after) == *final(before),
    {
        if self.finished {
            return Err(VmError::new(VmErrorKind::Finished));
        }
        if matches!(self.state, ExecutionState::Resumed) {
            self.vm_mut().push(Value::Unit);
        } else {
            self.state = ExecutionState::Resumed;
        }
        Ok(())
    }

    /// Resumes the execution with `value`, which the machine that runs finds
    /// on its stack, and runs it until it yields, finishes or fails.
    ///
    /// Only an execution that was resumed before can take a value: any
    /// other fails for its state, finished or not. One that was resumed
    /// before and has finished refuses. Either error leaves the execution as
    /// it was.
    pub fn resume_with(&mut self, value: Value) -> (result: Result<GeneratorState, VmError>)
        ensures
            final(self)@ == old(self)@.resume_with(value@).execution,
            state_result_view(result) == old(self)@.resume_with(value@).result,
            !(old(self)@.state is Resumed) ==> final(self)@ == old(self)@ && result is Err
                && result->Err_0@ == VmErrorView::of(
                VmErrorKind::ExpectedExecutionState {
                    expected: ExecutionState::Resumed,
                    actual: old(self)@.state,
                },
            ),
            old(self)@.state is Resumed && old(self)@.finished ==> final(self)@ == old(self)@
                && result is Err && result->Err_0@ == VmErrorView::of(VmErrorKind::Finished),
            final(self).head is Borrowed == old(self).head is Borrowed,
            final(self).head matches Head::Borrowed(after) ==> old(self).head matches Head::Borrowed(
                before,
            ) && *final(after) == *final(before),
    {
        match self.start_resume_with(value) {
            Ok(_) => self.inner_resume(),
            Err(error) => Err(error),
        }
    }

    /// Resumes the execution and runs it until it yields, finishes or fails.
    ///
    /// Where the execution was resumed before, the machine that runs finds
    /// the unit value on its stack. An await is an error here. A finished
    /// execution refuses, and stays as it was.
    pub fn resume(&mut self) -> (result: Result<GeneratorState, VmError>)
        ensures
            final(self)@ == old(self)@.resume().execution,
            state_result_view(result) == old(self)@.resume().result,
            old(self)@.finished ==> final(self)@ == old(self)@ && result is Err && result->Err_0@
                == VmErrorView::of(VmErrorKind::Finished),
            final(self).head is Borrowed == old(self).head is Borrowed,
            final(self).head matches Head::Borrowed(after) ==> old(self).head matches Head::Borrowed(
                before,
            ) && *final(after) == *final(before),
    {
        match self.start_resume() {
            Ok(_) => self.inner_resume(),
            Err(error) => Err(error),
        }
    }

    /// What is left of a resumption of this execution for one who wants the
    /// final value only. A yield is an error, which carries the instruction
    /// pointer of the machine that yielded and the call frames of the
    /// execution.
    pub fn completed(&self, state: GeneratorState) -> (result: Result<Value, VmError>)
        ensures
            value_result_view(result) == self@.completed(state@),
    {
        match state {
            GeneratorState::Complete(value) => Ok(value),
            GeneratorState::Yielded(..) => Err(
                VmError::new(VmErrorKind::Halted { halt: VmHaltInfo::Yielded }).into_unwinded(
                    self.vm().ip(),
                    self.call_frames(),
                ),
            ),
        }
    }

    /// Runs the execution to its end and returns the final value. A yield on
    /// the way is an error, and so is an await. A finished execution
    /// refuses, and stays as it was.
    pub fn complete(&mut self) -> (result: Result<Value, VmError>)
        ensures
            final(self)@ == old(self)@.complete().execution,
            value_result_view(result) == old(self)@.complete().result,
            old(self)@.finished ==> final(self)@ == old(self)@ && result is Err && result->Err_0@
                == VmErrorView::of(VmErrorKind::Finished),
            final(self).head is Borrowed == old(self).head is Borrowed,
            final(self).head matches Head::Borrowed(after) ==> old(self).head matches Head::Borrowed(
                before,
            ) && *final(after) == *final(before),
    {
        match self.resume() {
            Ok(state) => self.completed(state),
            Err(error) => Err(error),
        }
    }

    /// The turn of a step: one turn with a budget of one instruction. An
    /// await is handed out where `may_await` holds, and is an error where it
    /// does not. A finished execution refuses, and stays as it was.
    pub fn step_turn(&mut self, may_await: bool) -> (result: Result<Turn, VmError>)
        ensures
            final(self)@ == old(self)@.turn(Some(1nat), may_await).execution,
            turn_result_view(result) == old(self)@.turn(Some(1nat), may_await).result,
            old(self)@.finished ==> final(self)@ == old(self)@ && result is Err && result->Err_0@
                == VmErrorView::of(VmErrorKind::Finished),
            final(self).head is Borrowed == old(self).head is Borrowed,
            final(self).head matches Head::Borrowed(after) ==> old(self).head matches Head::Borrowed(
                before,
            ) && *final(after) == *final(before),
    {
        let mut budget = Budget::limited(1);
        self.turn(&mut budget, may_await)
    }

    /// Steps the execution by one instruction.
    ///
    /// Returns the final value where that instruction finished the
    /// execution, and `None` for every other way in which the step went
    /// well: the budget ran out, a call was served, a nested machine
    /// returned, or the machine yielded. A yielded value is taken off the
    /// stack and dropped, and the execution is marked as resumed. An await is
    /// an error here. A finished execution refuses, and stays as it was.
    pub fn step(&mut self) -> (result: Result<Option<Value>, VmError>)
        ensures
            final(self)@ == old(self)@.step().execution,
            step_result_view(result) == old(self)@.step().result,
            old(self)@.finished ==> final(self)@ == old(self)@ && result is Err && result->Err_0@
                == VmErrorView::of(VmErrorKind::Finished),
            final(self).head is Borrowed == old(self).head is Borrowed,
            final(self).head matches Head::Borrowed(after) ==> old(self).head matches Head::Borrowed(
                before,
            ) && *final(after) == *final(before),
    {
        match self.step_turn(false) {
            Ok(turn) => Ok(turn.into_stepped()),
            Err(error) => Err(error),
        }
    }

    /// Lets go of the execution. A lender of its head finds the machine as
    /// the execution leaves it.
    pub fn release(self)
        ensures
            self.head matches Head::Borrowed(lent) ==> *final(lent) == *lent,
    {
    }

    /// This execution with a head of its own.
    ///
    /// Where the head is borrowed, its work moves into a machine that the
    /// execution owns, with the same unit, function, instruction pointer and
    /// stack, and the lender gets its machine back with an empty stack. The
    /// nested machines and the calling state stay as they are.
    pub fn into_owned(self) -> (execution: VmExecution<'static>)
        ensures
            execution@ == self@,
            execution.head is Owned,
            self.head matches Head::Borrowed(vm) ==> final(vm)@ == vm@.with_stack(Seq::empty()),
    {
        let head = match self.head {
            Head::Owned(vm) => vm,
            Head::Borrowed(vm) => vm.take(),
        };
        VmExecution {
            head: Head::Owned(head),
            state: self.state,
            frames: self.frames,
            finished: self.finished,
        }
    }
}

impl<'a> VmExecution<'a> {
    /// This execution as a generator, which hands out what the execution
    /// yields, one value for each pull. Nothing is run for this.
    pub fn into_generator(self) -> (result: Result<Generator<'a>, VmError>)
        ensures
            result is Ok,
            result->Ok_0.execution == Some(self),
    {
        Ok(Generator::from_execution(self))
    }

    /// This execution as a stream, which hands out what the execution
    /// yields and may wait for futures between two values. Nothing is run
    /// for this.
    pub fn into_stream(self) -> (result: Result<Stream<'a>, VmError>)
        ensures
            result is Ok,
            result->Ok_0.execution == Some(self),
    {
        Ok(Stream::from_execution(self))
    }
}

/// How far a driver that wants the final value has come.
#[derive(Debug, PartialEq)]
pub enum Driven {
    /// The execution finished with this value.
    Complete(Value),
    /// The machine that runs waits for this future, whose result is to be
    /// supplied before the execution is driven again.
    Awaited(Awaited),
}

impl View for Driven {
    type V = DrivenView;

    open spec fn view(&self) -> DrivenView {
        match self {
            Driven::Complete(value) => DrivenView::Complete(value@),
            Driven::Awaited(awaited) => DrivenView::Awaited(awaited.future@),
        }
    }
}

/// The result of driving to the end as plain mathematical data.
pub open spec fn driven_result_view(result: Result<Driven, VmError>) -> Result<
    DrivenView,
    VmErrorView,
> {
    match result {
        Ok(driven) => Ok(driven@),
        Err(error) => Err(error@),
    }
}

/// An execution that may be handed to another thread. It is made by
/// consuming an execution, owns every machine of it, and keeps it inside:
/// all that it gives up is the final value, an error, or a future that the
/// execution waits for. Nothing points into its machines.
///
/// A driver calls `begin` once, then `poll`; after `Driven::Awaited` it
/// resolves the future, hands its result to `supply` and polls again, until
/// `poll` returns the final value or an error.
#[derive(Debug, PartialEq)]
pub struct VmSendExecution {
    execution: VmExecution<'static>,
}

impl View for VmSendExecution {
    type V = ExecutionView;

    closed spec fn view(&self) -> ExecutionView {
        self.execution@
    }
}

impl VmSendExecution {
    /// Takes over `execution`, as it stands. A borrowed head is made the
    /// execution's own, as `into_owned` does.
    pub fn new(execution: VmExecution<'static>) -> (send: Self)
        ensures
            send@ == execution@,
            execution.head matches Head::Borrowed(vm) ==> final(vm)@ == vm@.with_stack(Seq::empty()),
    {
        VmSendExecution { execution: execution.into_owned() }
    }

    /// Makes the execution ready to be driven, as a resumption without a
    /// value does. A finished execution refuses.
    pub fn begin(&mut self) -> (result: Result<(), VmError>)
        ensures
            final(self)@ == old(self)@.start_resume().execution,
            unit_result_view(result) == old(self)@.start_resume().result,
    {
        self.execution.start_resume()
    }

    /// Drives the execution towards its final value: until it finishes or
    /// fails, or until the machine that runs waits for a future. A yield on
    /// the way is an error.
    pub fn poll(&mut self) -> (result: Result<Driven, VmError>)
        ensures
            final(self)@ == old(self)@.drive_to_end().execution,
            driven_result_view(result) == old(self)@.drive_to_end().result,
    {
        match self.execution.drive(true) {
            Ok(Turn::Complete(value)) => Ok(Driven::Complete(value)),
            Ok(Turn::Awaited(awaited)) => Ok(Driven::Awaited(awaited)),
            Ok(Turn::Yielded(value)) => {
                match self.execution.completed(GeneratorState::Yielded(value)) {
                    Ok(value) => Ok(Driven::Complete(value)),
                    Err(error) => Err(error),
                }
            },
            Ok(_) => Err(VmError::new(VmErrorKind::Halted { halt: VmHaltInfo::Limited })),
            Err(error) => Err(error),
        }
    }

    /// Finishes the execution for the error of a driver that could not give
    /// it what it waits for, as `VmExecution::fail` does.
    pub fn fail(&mut self, error: VmError) -> (bound: VmError)
        ensures
            final(self)@ == old(self)@.finish(),
            bound@ == error@.unwound(old(self)@.current().ip, old(self)@.call_frames()),
    {
        self.execution.fail(error)
    }

    /// Hands the execution the result of the future that it waited for: the
    /// machine that runs gets it on its stack.
    pub fn supply(&mut self, value: Value)
        ensures
            final(self)@ == old(self)@.with_current(old(self)@.current().pushed(value@)),
    {
        self.execution.vm_mut().push(value);
    }
}

} // verus!
