use crate::execution_view::{ExecutionView, TurnView};
use crate::value::{Value, ValueView};
use crate::vm::Vm;
use crate::vm_error::{unit_result_view, VmError, VmErrorKind, VmErrorView};
use crate::vm_execution::{
    state_result_view, step_result_view, turn_result_view, Head, Turn, VmExecution,
};
use vstd::prelude::*;

verus! {

/// What a resumption comes to, as plain mathematical data.
pub enum GeneratorStateView {
    Yielded(ValueView),
    Complete(ValueView),
}

/// What a resumption of an execution comes to.
#[derive(Debug, PartialEq)]
pub enum GeneratorState {
    /// The execution yielded this value and can be resumed.
    Yielded(Value),
    /// The execution finished with this value.
    Complete(Value),
}

impl View for GeneratorState {
    type V = GeneratorStateView;

    open spec fn view(&self) -> GeneratorStateView {
        match self {
            GeneratorState::Yielded(value) => GeneratorStateView::Yielded(value@),
            GeneratorState::Complete(value) => GeneratorStateView::Complete(value@),
        }
    }
}

impl GeneratorState {
    /// Whether the execution yielded.
    pub fn is_yielded(&self) -> (yielded: bool)
        ensures
            yielded == (self@ is Yielded),
    {
        matches!(self, GeneratorState::Yielded(_))
    }

    /// What a pull makes of the resumption: the yielded value, or nothing
    /// once the execution has finished.
    pub fn into_pulled(self) -> (value: Option<Value>)
        ensures
            step_result_view(Ok(value)) == pulled(Ok(self@)),
    {
        match self {
            GeneratorState::Yielded(value) => Some(value),
            GeneratorState::Complete(_) => None,
        }
    }

    /// Whether the execution finished.
    pub fn is_complete(&self) -> (complete: bool)
        ensures
            complete == (self@ is Complete),
    {
        matches!(self, GeneratorState::Complete(_))
    }
}

/// A generator or a stream after an operation, with the operation's result:
/// the execution that it still holds, if any.
pub struct PullOutcome<T> {
    pub execution: Option<ExecutionView>,
    pub result: Result<T, VmErrorView>,
}

/// The execution of a generator or stream as mathematical data.
pub open spec fn execution_view(execution: Option<VmExecution<'_>>) -> Option<ExecutionView> {
    match execution {
        Some(execution) => Some(execution@),
        None => None,
    }
}

/// What resuming a generator with `value` comes to.
///
/// A generator that has completed fails. Any other resumes its execution,
/// with the value where the execution was resumed before and without it on
/// the first pull, and lets go of the execution once that has finished.
pub open spec fn generator_resume(
    execution: Option<ExecutionView>,
    value: ValueView,
) -> PullOutcome<GeneratorStateView> {
    match execution {
        None => PullOutcome {
            execution: None,
            result: Err(VmErrorView::of(VmErrorKind::GeneratorComplete)),
        },
        Some(execution) => {
            let outcome = if execution.state is Resumed {
                execution.resume_with(value)
            } else {
                execution.resume()
            };
            PullOutcome {
                execution: if outcome.result matches Ok(GeneratorStateView::Complete(_)) {
                    None
                } else {
                    Some(outcome.execution)
                },
                result: outcome.result,
            }
        },
    }
}

/// What a pull makes of a resumption: the yielded value, or nothing once the
/// execution has finished.
pub open spec fn pulled(result: Result<GeneratorStateView, VmErrorView>) -> Result<
    Option<ValueView>,
    VmErrorView,
> {
    match result {
        Ok(GeneratorStateView::Yielded(value)) => Ok(Some(value)),
        Ok(GeneratorStateView::Complete(_)) => Ok(None),
        Err(error) => Err(error),
    }
}

/// An execution whose yields are pulled one by one.
#[derive(Debug, PartialEq)]
pub struct Generator<'a> {
    /// The execution, until it has finished.
    pub execution: Option<VmExecution<'a>>,
}

impl<'a> View for Generator<'a> {
    type V = Option<ExecutionView>;

    open spec fn view(&self) -> Option<ExecutionView> {
        execution_view(self.execution)
    }
}

impl<'a> Generator<'a> {
    /// A generator that runs `vm`. Nothing is run for this.
    pub fn new(vm: Vm) -> (generator: Generator<'static>)
        ensures
            generator@ == Some(ExecutionView::new(vm@)),
    {
        Generator { execution: Some(VmExecution::new(vm)) }
    }

    /// A generator that goes on with `execution`. Nothing is run for this.
    pub fn from_execution(execution: VmExecution<'a>) -> (generator: Self)
        ensures
            generator.execution == Some(execution),
    {
        Generator { execution: Some(execution) }
    }

    /// Pulls the next value: `Some` of what the execution yields, `None`
    /// when it finishes. After that every pull is an error.
    pub fn next(&mut self) -> (result: Result<Option<Value>, VmError>)
        ensures
            final(self)@ == generator_resume(old(self)@, ValueView::Unit).execution,
            step_result_view(result) == pulled(generator_resume(old(self)@, ValueView::Unit).result),
            final(self).execution matches Some(after) ==> old(self).execution matches Some(before)
                && after.head is Borrowed == before.head is Borrowed && (after.head matches Head::Borrowed(
                kept,
            ) ==> before.head matches Head::Borrowed(lent) && *final(kept) == *final(lent)),
            final(self).execution is None ==> (old(self).execution matches Some(before)
                ==> before.head matches Head::Borrowed(lent) ==> final(lent)@ == (if before@.state
                is Resumed {
                before@.resume_with(ValueView::Unit)
            } else {
                before@.resume()
            }).execution.head),
    {
        match self.resume(Value::Unit) {
            Ok(state) => Ok(state.into_pulled()),
            Err(error) => Err(error),
        }
    }

    /// Resumes the generator with `value`, which the execution finds in the
    /// place of the yield that it stopped at. The first resumption has no
    /// such yield, and drops the value.
    pub fn resume(&mut self, value: Value) -> (result: Result<GeneratorState, VmError>)
        ensures
            final(self)@ == generator_resume(old(self)@, value@).execution,
            state_result_view(result) == generator_resume(old(self)@, value@).result,
            final(self).execution matches Some(after) ==> old(self).execution matches Some(before)
                && after.head is Borrowed == before.head is Borrowed && (after.head matches Head::Borrowed(
                kept,
            ) ==> before.head matches Head::Borrowed(lent) && *final(kept) == *final(lent)),
            final(self).execution is None ==> (old(self).execution matches Some(before)
                ==> before.head matches Head::Borrowed(lent) ==> final(lent)@ == (if before@.state
                is Resumed {
                before@.resume_with(value@)
            } else {
                before@.resume()
            }).execution.head),
    {
        let result = match &mut self.execution {
            None => {
                return Err(VmError::new(VmErrorKind::GeneratorComplete));
            },
            Some(execution) => {
                if execution.is_resumed() {
                    execution.resume_with(value)
                } else {
                    execution.resume()
                }
            },
        };
        match result {
            Ok(state) => {
                if state.is_complete() {
                    let mut finished = None;
                    std::mem::swap(&mut self.execution, &mut finished);
                    match finished {
                        Some(execution) => execution.release(),
                        None => {},
                    }
                }
                Ok(state)
            },
            Err(error) => Err(error),
        }
    }
}

/// What making a stream ready for a pull with `value` comes to.
///
/// A stream that has completed fails. Else the execution gets the value
/// where it was resumed before, and is marked as resumed on the first pull.
/// An execution that has finished with an error refuses.
pub open spec fn stream_begin(execution: Option<ExecutionView>, value: ValueView) -> PullOutcome<()> {
    match execution {
        None => PullOutcome {
            execution: None,
            result: Err(VmErrorView::of(VmErrorKind::GeneratorComplete)),
        },
        Some(execution) => {
            let outcome = if execution.state is Resumed {
                execution.start_resume_with(value)
            } else {
                execution.start_resume()
            };
            PullOutcome { execution: Some(outcome.execution), result: outcome.result }
        },
    }
}

/// What driving a stream comes to.
///
/// A stream that has completed fails. Else its execution is driven until it
/// yields, finishes, fails or waits for a future, and the stream lets go of
/// the execution once that has finished.
pub open spec fn stream_poll(execution: Option<ExecutionView>) -> PullOutcome<TurnView> {
    match execution {
        None => PullOutcome {
            execution: None,
            result: Err(VmErrorView::of(VmErrorKind::GeneratorComplete)),
        },
        Some(execution) => {
            let turn = execution.drive(true);
            PullOutcome {
                execution: if turn.result matches Ok(TurnView::Complete(_)) {
                    None
                } else {
                    Some(turn.execution)
                },
                result: turn.result,
            }
        },
    }
}

/// What handing a stream the result of an awaited future comes to: the
/// machine that runs gets it on its stack. A stream that has completed fails.
pub open spec fn stream_supply(execution: Option<ExecutionView>, value: ValueView) -> PullOutcome<()> {
    match execution {
        None => PullOutcome {
            execution: None,
            result: Err(VmErrorView::of(VmErrorKind::GeneratorComplete)),
        },
        Some(execution) => PullOutcome {
            execution: Some(execution.with_current(execution.current().pushed(value))),
            result: Ok(()),
        },
    }
}

/// An execution whose yields are pulled one by one by a driver that may wait
/// for futures in between. The stream decides; the driver waits.
///
/// A pull is `begin`, then `poll`; after `Turn::Awaited` the driver resolves
/// the future, hands its result to `supply` and polls again, until `poll`
/// returns what was yielded or the final value.
#[derive(Debug, PartialEq)]
pub struct Stream<'a> {
    /// The execution, until it has finished.
    pub execution: Option<VmExecution<'a>>,
}

impl<'a> View for Stream<'a> {
    type V = Option<ExecutionView>;

    open spec fn view(&self) -> Option<ExecutionView> {
        execution_view(self.execution)
    }
}

impl<'a> Stream<'a> {
    /// A stream that runs `vm`. Nothing is run for this.
    pub fn new(vm: Vm) -> (stream: Stream<'static>)
        ensures
            stream@ == Some(ExecutionView::new(vm@)),
    {
        Stream { execution: Some(VmExecution::new(vm)) }
    }

    /// A stream that goes on with `execution`. Nothing is run for this.
    pub fn from_execution(execution: VmExecution<'a>) -> (stream: Self)
        ensures
            stream.execution == Some(execution),
    {
        Stream { execution: Some(execution) }
    }

    /// Makes the stream ready for a pull with `value`.
    pub fn begin(&mut self, value: Value) -> (result: Result<(), VmError>)
        ensures
            final(self)@ == stream_begin(old(self)@, value@).execution,
            unit_result_view(result) == stream_begin(old(self)@, value@).result,
            final(self).execution matches Some(after) ==> old(self).execution matches Some(before)
                && after.head is Borrowed == before.head is Borrowed && (after.head matches Head::Borrowed(
                kept,
            ) ==> before.head matches Head::Borrowed(lent) && *final(kept) == *final(lent)),
    {
        match &mut self.execution {
            None => Err(VmError::new(VmErrorKind::GeneratorComplete)),
            Some(execution) => {
                if execution.is_resumed() {
                    execution.start_resume_with(value)
                } else {
                    execution.start_resume()
                }
            },
        }
    }

    /// Drives the stream's execution until it yields, finishes, fails or
    /// waits for a future.
    pub fn poll(&mut self) -> (result: Result<Turn, VmError>)
        ensures
            final(self)@ == stream_poll(old(self)@).execution,
            turn_result_view(result) == stream_poll(old(self)@).result,
            final(self).execution matches Some(after) ==> old(self).execution matches Some(before)
                && after.head is Borrowed == before.head is Borrowed && (after.head matches Head::Borrowed(
                kept,
            ) ==> before.head matches Head::Borrowed(lent) && *final(kept) == *final(lent)),
            final(self).execution is None ==> (old(self).execution matches Some(before)
                ==> before.head matches Head::Borrowed(lent) ==> final(lent)@
                == before@.drive(true).execution.head),
    {
        let result = match &mut self.execution {
            None => {
                return Err(VmError::new(VmErrorKind::GeneratorComplete));
            },
            Some(execution) => execution.drive(true),
        };
        match result {
            Ok(Turn::Complete(value)) => {
                let mut finished = None;
                std::mem::swap(&mut self.execution, &mut finished);
                match finished {
                    Some(execution) => execution.release(),
                    None => {},
                }
                Ok(Turn::Complete(value))
            },
            other => other,
        }
    }

    /// Finishes the stream's execution for the error of a driver that could
    /// not give it what it waits for, as `VmExecution::fail` does. A stream
    /// that has completed hands the error back as it is.
    pub fn fail(&mut self, error: VmError) -> (bound: VmError)
        ensures
            final(self)@ == (match old(self)@ {
                Some(execution) => Some(execution.finish()),
                None => None,
            }),
            bound@ == (match old(self)@ {
                Some(execution) => error@.unwound(
                    execution.current().ip,
                    execution.call_frames(),
                ),
                None => error@,
            }),
            final(self).execution matches Some(after) ==> old(self).execution matches Some(before)
                && after.head is Borrowed == before.head is Borrowed && (after.head matches Head::Borrowed(
                kept,
            ) ==> before.head matches Head::Borrowed(lent) && *final(kept) == *final(lent)),
    {
        match &mut self.execution {
            None => error,
            Some(execution) => execution.fail(error),
        }
    }

    /// Hands the stream the result of the future that it waited for.
    pub fn supply(&mut self, value: Value) -> (result: Result<(), VmError>)
        ensures
            final(self)@ == stream_supply(old(self)@, value@).execution,
            unit_result_view(result) == stream_supply(old(self)@, value@).result,
            final(self).execution matches Some(after) ==> old(self).execution matches Some(before)
                && after.head is Borrowed == before.head is Borrowed && (after.head matches Head::Borrowed(
                kept,
            ) ==> before.head matches Head::Borrowed(lent) && *final(kept) == *final(lent)),
    {
        match &mut self.execution {
            None => Err(VmError::new(VmErrorKind::GeneratorComplete)),
            Some(execution) => {
                execution.vm_mut().push(value);
                Ok(())
            },
        }
    }
}

} // verus!
