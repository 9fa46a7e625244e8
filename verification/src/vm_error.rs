use crate::vm_execution::ExecutionState;
use vstd::prelude::*;
use vstd::string::StringExecFns;

verus! {

/// Why a machine stopped, without what it handed over.
#[derive(Clone, Copy, Debug, PartialEq, Eq, Structural)]
pub enum VmHaltInfo {
    /// The function returned.
    Exited,
    /// The function waits for a future.
    Awaited,
    /// The function asked for a call in a machine of its own.
    VmCall,
    /// The function yielded.
    Yielded,
    /// The instruction budget ran out.
    Limited,
}

impl VmHaltInfo {
    /// The word that messages use for this reason.
    pub open spec fn spec_name(self) -> Seq<char> {
        match self {
            VmHaltInfo::Exited => "exited"@,
            VmHaltInfo::Awaited => "awaited"@,
            VmHaltInfo::VmCall => "calling into other vm"@,
            VmHaltInfo::Yielded => "yielded"@,
            VmHaltInfo::Limited => "limited"@,
        }
    }

    /// The word that messages use for this reason.
    pub fn name(self) -> (name: &'static str)
        ensures
            name@ == self.spec_name(),
    {
        match self {
            VmHaltInfo::Exited => "exited",
            VmHaltInfo::Awaited => "awaited",
            VmHaltInfo::VmCall => "calling into other vm",
            VmHaltInfo::Yielded => "yielded",
            VmHaltInfo::Limited => "limited",
        }
    }
}

/// What went wrong.
#[derive(Clone, Copy, Debug, PartialEq, Eq, Structural)]
pub enum VmErrorKind {
    /// An operation needs the execution in one state and found it in another.
    ExpectedExecutionState { expected: ExecutionState, actual: ExecutionState },
    /// A machine stopped for a reason that the operation cannot serve.
    Halted { halt: VmHaltInfo },
    /// A nested machine was to be taken off an execution that has none.
    NoRunningVm,
    /// An execution was ended while nested machines were still on it.
    RunningVm,
    /// A generator that has completed was resumed.
    GeneratorComplete,
    /// An execution that has finished, with a value or with an error, was
    /// asked to go on.
    Finished,
    /// A value was needed from an empty stack.
    StackEmpty,
    /// A nested machine returned and left more than its result on its stack.
    StackNotClean,
    /// The instruction pointer is past the end of the code.
    IpOutOfBounds,
    /// The unit has no such function, or none that may be called from here.
    MissingFunction { function: usize },
    /// A call hands over another number of arguments than the function takes.
    BadArgumentCount { actual: usize, expected: usize },
    /// An instruction found a value that is no integer.
    ExpectedInteger,
    /// An instruction found a value that is no future.
    ExpectedFuture,
    /// A value that is no tuple was to be turned into one.
    ExpectedTuple,
    /// An integer operation left the range of integers.
    Overflow,
}

impl VmErrorKind {
    /// The message for this kind of error.
    pub open spec fn spec_message(self) -> Seq<char> {
        match self {
            VmErrorKind::ExpectedExecutionState { expected, actual } => "expected execution state "@
                + expected.spec_name() + ", but was "@ + actual.spec_name(),
            VmErrorKind::Halted { halt: VmHaltInfo::Awaited } =>
                "halted: awaited in non-async context"@,
            VmErrorKind::Halted { halt } => "halted for unexpected reason: "@ + halt.spec_name(),
            VmErrorKind::NoRunningVm => "no running virtual machines"@,
            VmErrorKind::RunningVm => "virtual machines are still running"@,
            VmErrorKind::GeneratorComplete => "cannot resume a generator that has completed"@,
            VmErrorKind::Finished => "cannot go on with an execution that has finished"@,
            VmErrorKind::StackEmpty => "tried to pop an empty stack"@,
            VmErrorKind::StackNotClean => "returning machine left values on its stack"@,
            VmErrorKind::IpOutOfBounds => "instruction pointer is out of bounds"@,
            VmErrorKind::MissingFunction { .. } => "missing function"@,
            VmErrorKind::BadArgumentCount { .. } => "wrong number of arguments"@,
            VmErrorKind::ExpectedInteger => "expected an integer"@,
            VmErrorKind::ExpectedFuture => "expected a future"@,
            VmErrorKind::ExpectedTuple => "expected a tuple"@,
            VmErrorKind::Overflow => "numerical overflow"@,
        }
    }

    /// The message for this kind of error.
    pub fn message(self) -> (message: String)
        ensures
            message@ == self.spec_message(),
    {
        match self {
            VmErrorKind::ExpectedExecutionState { expected, actual } => {
                let mut message = "expected execution state ".to_owned();
                message.append(expected.name());
                message.append(", but was ");
                message.append(actual.name());
                message
            },
            VmErrorKind::Halted { halt: VmHaltInfo::Awaited } => {
                "halted: awaited in non-async context".to_owned()
            },
            VmErrorKind::Halted { halt } => {
                let mut message = "halted for unexpected reason: ".to_owned();
                message.append(halt.name());
                message
            },
            VmErrorKind::NoRunningVm => "no running virtual machines".to_owned(),
            VmErrorKind::RunningVm => "virtual machines are still running".to_owned(),
            VmErrorKind::GeneratorComplete => "cannot resume a generator that has completed".to_owned(),
            VmErrorKind::Finished => "cannot go on with an execution that has finished".to_owned(),
            VmErrorKind::StackEmpty => "tried to pop an empty stack".to_owned(),
            VmErrorKind::StackNotClean => "returning machine left values on its stack".to_owned(),
            VmErrorKind::IpOutOfBounds => "instruction pointer is out of bounds".to_owned(),
            VmErrorKind::MissingFunction { .. } => "missing function".to_owned(),
            VmErrorKind::BadArgumentCount { .. } => "wrong number of arguments".to_owned(),
            VmErrorKind::ExpectedInteger => "expected an integer".to_owned(),
            VmErrorKind::ExpectedFuture => "expected a future".to_owned(),
            VmErrorKind::ExpectedTuple => "expected a tuple".to_owned(),
            VmErrorKind::Overflow => "numerical overflow".to_owned(),
        }
    }
}

/// One entry of a call-frame trace: a machine that was running or waiting
/// for a call when an error came up.
#[derive(Clone, Copy, Debug, PartialEq, Eq, Structural)]
pub struct CallFrame {
    /// The index in the unit of the function that the machine runs.
    pub function: usize,
    /// The machine's instruction pointer.
    pub ip: usize,
}

/// An error as plain mathematical data.
pub struct VmErrorView {
    pub kind: VmErrorKind,
    pub ip: Option<usize>,
    pub frames: Seq<CallFrame>,
}

impl VmErrorView {
    /// An error of the given kind that is bound to no instruction and has no
    /// trace.
    pub open spec fn of(kind: VmErrorKind) -> VmErrorView {
        VmErrorView { kind, ip: None, frames: Seq::empty() }
    }

    /// This error, bound to the instruction at `ip` and given the trace
    /// `frames`, unless it is bound already.
    pub open spec fn unwound(self, ip: nat, frames: Seq<CallFrame>) -> VmErrorView {
        if self.ip is Some {
            self
        } else {
            VmErrorView { kind: self.kind, ip: Some(ip as usize), frames }
        }
    }

    /// This error as the callers of the failing machine see it: with their
    /// frames, outermost first, before its own.
    pub open spec fn beneath(self, callers: Seq<CallFrame>) -> VmErrorView {
        VmErrorView { frames: callers + self.frames, ..self }
    }
}

/// An error of a machine or of an execution: its kind and, where a machine
/// failed, the instruction pointer at which it did and the trace of the
/// calls that led there, outermost first.
#[derive(Clone, Debug, PartialEq, Eq)]
pub struct VmError {
    pub kind: VmErrorKind,
    pub ip: Option<usize>,
    pub frames: Vec<CallFrame>,
}

impl View for VmError {
    type V = VmErrorView;

    open spec fn view(&self) -> VmErrorView {
        VmErrorView { kind: self.kind, ip: self.ip, frames: self.frames@ }
    }
}

/// A result without a value as plain mathematical data.
pub open spec fn unit_result_view(result: Result<(), VmError>) -> Result<(), VmErrorView> {
    match result {
        Ok(_) => Ok(()),
        Err(error) => Err(error@),
    }
}

impl VmError {
    /// An error of the given kind that is bound to no instruction and has no
    /// trace.
    pub fn new(kind: VmErrorKind) -> (error: Self)
        ensures
            error@ == VmErrorView::of(kind),
    {
        VmError { kind, ip: None, frames: Vec::new() }
    }

    /// The kind of the error.
    pub fn kind(&self) -> (kind: VmErrorKind)
        ensures
            kind == self@.kind,
    {
        self.kind
    }

    /// The instruction pointer at which a machine failed, if one did.
    pub fn ip(&self) -> (ip: Option<usize>)
        ensures
            ip == self@.ip,
    {
        self.ip
    }

    /// The trace of the calls that led to the error, outermost first: empty
    /// where no machine failed.
    pub fn frames(&self) -> (frames: &Vec<CallFrame>)
        ensures
            frames@ == self@.frames,
    {
        &self.frames
    }

    /// This error, bound to the instruction at `ip` and given the trace
    /// `frames`, unless it is bound already.
    pub fn into_unwinded(self, ip: usize, frames: Vec<CallFrame>) -> (error: Self)
        ensures
            error@ == self@.unwound(ip as nat, frames@),
    {
        match self.ip {
            Some(_) => self,
            None => VmError { kind: self.kind, ip: Some(ip), frames },
        }
    }

    /// This error with the trace `frames` in the place of its own.
    pub fn traced(self, frames: Vec<CallFrame>) -> (error: Self)
        ensures
            error@ == (VmErrorView { frames: frames@, ..self@ }),
    {
        VmError { kind: self.kind, ip: self.ip, frames }
    }

    /// This error as the callers of the failing machine see it: with their
    /// frames, outermost first, before its own.
    pub fn into_beneath(self, callers: Vec<CallFrame>) -> (error: Self)
        ensures
            error@ == self@.beneath(callers@),
    {
        let mut frames = callers;
        let mut own = self.frames;
        frames.append(&mut own);
        VmError { kind: self.kind, ip: self.ip, frames }
    }

    /// The message for this error.
    pub fn message(&self) -> (message: String)
        ensures
            message@ == self@.kind.spec_message(),
    {
        self.kind.message()
    }
}

} // verus!
