use crate::budget::Budget;
use crate::tuple::Tuple;
use crate::unit::{Call, Inst, Unit};
use crate::value::{
    duplicate_values, lemma_values_push, lemma_values_subrange, values_model, Value, ValueView,
    VmView,
};
use crate::vm_call::{VmCall, VmCallView};
use crate::vm_error::{CallFrame, VmError, VmErrorKind, VmErrorView, VmHaltInfo};
use std::sync::Arc;
use vstd::prelude::*;

verus! {

/// One bytecode machine: a function of a unit that is being run, with its own
/// operand stack and instruction pointer.
#[derive(Debug, PartialEq)]
pub struct Vm {
    /// The unit whose code is run.
    pub unit: Arc<Unit>,
    /// The index in the unit of the function that is run.
    pub function: usize,
    /// The index in the function's code of the next instruction.
    pub ip: usize,
    /// The operand stack, bottom first.
    pub stack: Vec<Value>,
}

impl View for Vm {
    type V = VmView;

    open spec fn view(&self) -> VmView {
        self.model()
    }
}

/// A future that a machine waits for: the machine whose result it wants.
#[derive(Debug, PartialEq)]
pub struct Awaited {
    pub future: Vm,
}

/// Why a run of a machine stopped, with what the machine hands over.
#[derive(Debug, PartialEq)]
pub enum VmHalt {
    /// The function returned. Its result is on the stack.
    Exited,
    /// The function waits for this future, whose result is to be pushed onto
    /// the stack.
    Awaited(Awaited),
    /// The function asks for this nested call.
    VmCall(VmCall),
    /// The function yielded. What it yields is on top of the stack.
    Yielded,
    /// The budget ran out before the function stopped by itself.
    Limited,
}

/// Why a run stopped, as plain mathematical data.
pub enum VmHaltView {
    Exited,
    Awaited(VmView),
    VmCall(VmCallView),
    Yielded,
    Limited,
}

impl VmHaltView {
    /// The reason alone.
    pub open spec fn info(self) -> VmHaltInfo {
        match self {
            VmHaltView::Exited => VmHaltInfo::Exited,
            VmHaltView::Awaited(_) => VmHaltInfo::Awaited,
            VmHaltView::VmCall(_) => VmHaltInfo::VmCall,
            VmHaltView::Yielded => VmHaltInfo::Yielded,
            VmHaltView::Limited => VmHaltInfo::Limited,
        }
    }
}

impl View for VmHalt {
    type V = VmHaltView;

    open spec fn view(&self) -> VmHaltView {
        match self {
            VmHalt::Exited => VmHaltView::Exited,
            VmHalt::Awaited(awaited) => VmHaltView::Awaited(awaited.future@),
            VmHalt::VmCall(request) => VmHaltView::VmCall(request@),
            VmHalt::Yielded => VmHaltView::Yielded,
            VmHalt::Limited => VmHaltView::Limited,
        }
    }
}

impl VmHalt {
    /// The reason alone, without what was handed over.
    pub fn into_info(self) -> (info: VmHaltInfo)
        ensures
            info == self@.info(),
    {
        match self {
            VmHalt::Exited => VmHaltInfo::Exited,
            VmHalt::Awaited(_) => VmHaltInfo::Awaited,
            VmHalt::VmCall(_) => VmHaltInfo::VmCall,
            VmHalt::Yielded => VmHaltInfo::Yielded,
            VmHalt::Limited => VmHaltInfo::Limited,
        }
    }
}

/// What one instruction does to the machine that executes it.
pub enum Effect {
    /// The stack becomes this, and the next instruction follows.
    Next(Seq<ValueView>),
    /// The stack becomes this, and the run stops for the given reason.
    Halt(Seq<ValueView>, VmHaltView),
    /// The instruction fails and leaves the machine as it was.
    Fail(VmErrorKind),
}

/// What a run of a machine comes to: the machine and the budget after it, and
/// why it stopped.
pub struct RunView {
    pub vm: VmView,
    pub budget: Option<nat>,
    pub result: Result<VmHaltView, VmErrorView>,
}

impl VmView {
    /// This machine with another stack.
    pub open spec fn with_stack(self, stack: Seq<ValueView>) -> VmView {
        VmView { stack, ..self }
    }

    /// This machine with `value` pushed onto its stack.
    pub open spec fn pushed(self, value: ValueView) -> VmView {
        self.with_stack(self.stack.push(value))
    }

    /// The call frame of this machine: the function that it runs and its
    /// instruction pointer.
    pub open spec fn frame(self) -> CallFrame {
        CallFrame { function: self.function as usize, ip: self.ip as usize }
    }

    /// This machine with its instruction pointer moved on by one.
    pub open spec fn advanced(self) -> VmView {
        VmView {
            ip: if self.ip < usize::MAX {
                self.ip + 1
            } else {
                self.ip
            },
            ..self
        }
    }

    /// The instruction that the machine is at, or why it has none. An
    /// instruction pointer is a machine word, so code past the last word is
    /// out of reach.
    pub open spec fn fetch(self) -> Result<Inst, VmErrorKind> {
        if self.function >= self.unit.len() {
            Err(VmErrorKind::MissingFunction { function: self.function as usize })
        } else if self.ip >= self.unit[self.function as int].code.len() || self.ip >= usize::MAX {
            Err(VmErrorKind::IpOutOfBounds)
        } else {
            Ok(self.unit[self.function as int].code[self.ip as int])
        }
    }

    /// The number of instructions from the instruction pointer to the end of
    /// the code.
    pub open spec fn code_left(self) -> nat {
        if self.fetch() is Ok {
            (self.unit[self.function as int].code.len() - self.ip) as nat
        } else {
            0
        }
    }

    /// What the instruction `inst` does to this machine.
    pub open spec fn effect(self, inst: Inst) -> Effect {
        let stack = self.stack;
        let len = stack.len() as int;
        match inst {
            Inst::Unit => Effect::Next(stack.push(ValueView::Unit)),
            Inst::Integer(n) => Effect::Next(stack.push(ValueView::Integer(n))),
            Inst::Pop => if len == 0 {
                Effect::Fail(VmErrorKind::StackEmpty)
            } else {
                Effect::Next(stack.drop_last())
            },
            Inst::Add => if len < 2 {
                Effect::Fail(VmErrorKind::StackEmpty)
            } else {
                match (stack[len - 2], stack[len - 1]) {
                    (ValueView::Integer(a), ValueView::Integer(b)) => if i64::MIN <= a + b
                        <= i64::MAX {
                        Effect::Next(
                            stack.subrange(0, len - 2).push(ValueView::Integer((a + b) as i64)),
                        )
                    } else {
                        Effect::Fail(VmErrorKind::Overflow)
                    },
                    _ => Effect::Fail(VmErrorKind::ExpectedInteger),
                }
            },
            Inst::Tuple { count } => if len < count {
                Effect::Fail(VmErrorKind::StackEmpty)
            } else {
                Effect::Next(
                    stack.subrange(0, len - count).push(
                        ValueView::Tuple(stack.subrange(len - count, len)),
                    ),
                )
            },
            Inst::Call { function, args } => if function >= self.function || function
                >= self.unit.len() {
                Effect::Fail(VmErrorKind::MissingFunction { function })
            } else if self.unit[function as int].args != args {
                Effect::Fail(
                    VmErrorKind::BadArgumentCount {
                        actual: args,
                        expected: self.unit[function as int].args as usize,
                    },
                )
            } else if len < args {
                Effect::Fail(VmErrorKind::StackEmpty)
            } else {
                Effect::Halt(
                    stack.subrange(0, len - args),
                    VmHaltView::VmCall(
                        VmCallView {
                            call: self.unit[function as int].call,
                            vm: VmView {
                                unit: self.unit,
                                function: function as nat,
                                ip: 0,
                                stack: stack.subrange(len - args, len),
                            },
                        },
                    ),
                )
            },
            Inst::Await => if len == 0 {
                Effect::Fail(VmErrorKind::StackEmpty)
            } else {
                match stack[len - 1] {
                    ValueView::Future(future) => Effect::Halt(
                        stack.drop_last(),
                        VmHaltView::Awaited(*future),
                    ),
                    _ => Effect::Fail(VmErrorKind::ExpectedFuture),
                }
            },
            Inst::Yield => Effect::Halt(stack, VmHaltView::Yielded),
            Inst::Return => Effect::Halt(stack, VmHaltView::Exited),
        }
    }

    /// What a run of this machine under `budget` comes to.
    ///
    /// Before each instruction the budget is asked for it; where it allows
    /// none the run stops as limited. An instruction that fails leaves the
    /// machine as it was, at that instruction. An instruction that stops the
    /// run moves the instruction pointer past itself, but for a call: that
    /// one stays at the call until its result is there.
    pub open spec fn run(self, budget: Option<nat>) -> RunView
        decreases self.code_left(),
    {
        if !Budget::allows(budget) {
            RunView { vm: self, budget, result: Ok(VmHaltView::Limited) }
        } else {
            let budget = Budget::taken(budget);
            match self.fetch() {
                Err(kind) => RunView { vm: self, budget, result: Err(VmErrorView::of(kind)) },
                Ok(inst) => match self.effect(inst) {
                    Effect::Fail(kind) => RunView {
                        vm: self,
                        budget,
                        result: Err(VmErrorView::of(kind)),
                    },
                    Effect::Halt(stack, halt) => RunView {
                        vm: if halt is VmCall {
                            self.with_stack(stack)
                        } else {
                            self.with_stack(stack).advanced()
                        },
                        budget,
                        result: Ok(halt),
                    },
                    Effect::Next(stack) => self.with_stack(stack).advanced().run(budget),
                },
            }
        }
    }
}

/// Another handle on the same unit.
///
/// Calls `Arc::clone` of std, which makes another pointer to the same
/// allocation: the unit behind the new handle is the unit behind the old one.
#[verifier::external_body]
fn share_unit(unit: &Arc<Unit>) -> (shared: Arc<Unit>)
    ensures
        shared == *unit,
{
    Arc::clone(unit)
}

impl Vm {
    /// A machine at the start of the function `function` of `unit`, with an
    /// empty stack.
    pub fn new(unit: Arc<Unit>, function: usize) -> (vm: Self)
        ensures
            vm@ == (VmView { unit: unit@, function: function as nat, ip: 0, stack: Seq::empty() }),
    {
        let vm = Vm { unit, function, ip: 0, stack: Vec::new() };
        assert(vm@.stack =~= Seq::empty());
        vm
    }

    /// A machine at the start of the function `function` of `unit`, with the
    /// given stack: the function's arguments.
    pub fn with_stack(unit: Arc<Unit>, function: usize, stack: Vec<Value>) -> (vm: Self)
        ensures
            vm@ == (VmView {
                unit: unit@,
                function: function as nat,
                ip: 0,
                stack: values_model(stack),
            }),
    {
        Vm { unit, function, ip: 0, stack }
    }

    /// The unit whose code is run.
    pub fn unit(&self) -> (unit: &Arc<Unit>)
        ensures
            unit@ == self@.unit,
    {
        &self.unit
    }

    /// The index of the function that is run.
    pub fn function(&self) -> (function: usize)
        ensures
            function == self@.function,
    {
        self.function
    }

    /// The instruction pointer.
    pub fn ip(&self) -> (ip: usize)
        ensures
            ip == self@.ip,
    {
        self.ip
    }

    /// The call frame of this machine: the function that it runs and its
    /// instruction pointer.
    pub fn frame(&self) -> (frame: CallFrame)
        ensures
            frame == self@.frame(),
    {
        CallFrame { function: self.function, ip: self.ip }
    }

    /// The operand stack, bottom first.
    pub fn stack(&self) -> (stack: &Vec<Value>)
        ensures
            values_model(*stack) == self@.stack,
    {
        &self.stack
    }

    /// Pushes a value onto the stack.
    pub fn push(&mut self, value: Value)
        ensures
            final(self)@ == old(self)@.pushed(value@),
    {
        let ghost before = self.stack;
        self.stack.push(value);
        proof {
            lemma_values_push(before, self.stack, value);
        }
    }

    /// Takes the top of the stack. On an empty stack this is an error, and
    /// the machine stays as it was.
    pub fn pop(&mut self) -> (result: Result<Value, VmError>)
        ensures
            old(self)@.stack.len() == 0 ==> result is Err && result->Err_0@ == VmErrorView::of(
                VmErrorKind::StackEmpty,
            ) && final(self)@ == old(self)@,
            old(self)@.stack.len() > 0 ==> result is Ok && result->Ok_0@ == old(self)@.stack.last()
                && final(self)@ == old(self)@.with_stack(old(self)@.stack.drop_last()),
    {
        let ghost before = self.stack;
        match self.stack.pop() {
            Some(value) => {
                proof {
                    lemma_values_subrange(before, self.stack, 0, before@.len() - 1);
                    assert(old(self)@.stack.drop_last() =~= old(self)@.stack.subrange(
                        0,
                        before@.len() - 1,
                    ));
                }
                Ok(value)
            },
            None => {
                assert(self.stack@ =~= before@);
                assert(self@.stack =~= old(self)@.stack);
                Err(VmError::new(VmErrorKind::StackEmpty))
            },
        }
    }

    /// A copy of this machine, which shares its unit.
    pub fn duplicate(&self) -> (copy: Vm)
        ensures
            copy@ == self@,
        decreases self,
    {
        Vm {
            unit: share_unit(&self.unit),
            function: self.function,
            ip: self.ip,
            stack: duplicate_values(&self.stack),
        }
    }

    /// Moves this machine's work into a machine of its own: the new machine
    /// has this one's unit, function, instruction pointer and stack, and this
    /// one keeps an empty stack.
    pub fn take(&mut self) -> (vm: Vm)
        ensures
            vm@ == old(self)@,
            final(self)@ == old(self)@.with_stack(Seq::empty()),
    {
        let mut stack = Vec::new();
        std::mem::swap(&mut self.stack, &mut stack);
        assert(self@.stack =~= Seq::empty());
        Vm { unit: share_unit(&self.unit), function: self.function, ip: self.ip, stack }
    }

    /// Moves the instruction pointer on by one, past the instruction that the
    /// machine stopped at.
    pub fn advance(&mut self)
        ensures
            final(self)@ == old(self)@.advanced(),
    {
        if self.ip < usize::MAX {
            self.ip = self.ip + 1;
        }
    }

    /// The instruction that the machine is at, or why it has none.
    pub fn fetch(&self) -> (inst: Result<Inst, VmErrorKind>)
        ensures
            inst == self@.fetch(),
    {
        match self.unit.function(self.function) {
            None => Err(VmErrorKind::MissingFunction { function: self.function }),
            Some(function) => match function.inst(self.ip) {
                None => Err(VmErrorKind::IpOutOfBounds),
                Some(inst) => Ok(inst),
            },
        }
    }
}

impl Vm {
    /// Executes one instruction on the stack. Returns why the run stops with
    /// it, or `None` where the next instruction follows. The instruction
    /// pointer stays where it is.
    pub fn execute(&mut self, inst: Inst) -> (result: Result<Option<VmHalt>, VmErrorKind>)
        ensures
            match old(self)@.effect(inst) {
                Effect::Fail(kind) => {
                    &&& result == Err::<Option<VmHalt>, VmErrorKind>(kind)
                    &&& final(self)@ == old(self)@
                },
                Effect::Next(stack) => {
                    &&& result == Ok::<Option<VmHalt>, VmErrorKind>(None)
                    &&& final(self)@ == old(self)@.with_stack(stack)
                },
                Effect::Halt(stack, halt) => {
                    &&& result is Ok
                    &&& result->Ok_0 is Some
                    &&& result->Ok_0->Some_0@ == halt
                    &&& final(self)@ == old(self)@.with_stack(stack)
                },
            },
    {
        let len = self.stack.len();
        let ghost before = self.stack;
        let ghost model = self@.stack;
        match inst {
            Inst::Unit => {
                self.push(Value::Unit);
                Ok(None)
            },
            Inst::Integer(n) => {
                self.push(Value::Integer(n));
                Ok(None)
            },
            Inst::Pop => {
                match self.pop() {
                    Ok(_) => Ok(None),
                    Err(_) => Err(VmErrorKind::StackEmpty),
                }
            },
            Inst::Add => {
                if len < 2 {
                    return Err(VmErrorKind::StackEmpty);
                }
                let sum = match (&self.stack[len - 2], &self.stack[len - 1]) {
                    (Value::Integer(a), Value::Integer(b)) => a.checked_add(*b),
                    _ => {
                        return Err(VmErrorKind::ExpectedInteger);
                    },
                };
                match sum {
                    None => Err(VmErrorKind::Overflow),
                    Some(sum) => {
                        self.stack.truncate(len - 2);
                        proof {
                            lemma_values_subrange(before, self.stack, 0, len - 2);
                        }
                        self.push(Value::Integer(sum));
                        Ok(None)
                    },
                }
            },
            Inst::Tuple { count } => {
                if len < count {
                    return Err(VmErrorKind::StackEmpty);
                }
                let inner = self.stack.split_off(len - count);
                proof {
                    lemma_values_subrange(before, self.stack, 0, len - count);
                    lemma_values_subrange(before, inner, len - count, len as int);
                }
                self.push(Value::Tuple(Tuple { inner }));
                Ok(None)
            },
            Inst::Call { function, args } => {
                if function >= self.function {
                    return Err(VmErrorKind::MissingFunction { function });
                }
                let (call, expected) = match self.unit.function(function) {
                    None => {
                        return Err(VmErrorKind::MissingFunction { function });
                    },
                    Some(callee) => (callee.call(), callee.args()),
                };
                if expected != args {
                    return Err(VmErrorKind::BadArgumentCount { actual: args, expected });
                }
                if len < args {
                    return Err(VmErrorKind::StackEmpty);
                }
                let stack = self.stack.split_off(len - args);
                proof {
                    lemma_values_subrange(before, self.stack, 0, len - args);
                    lemma_values_subrange(before, stack, len - args, len as int);
                }
                let vm = Vm::with_stack(share_unit(&self.unit), function, stack);
                Ok(Some(VmHalt::VmCall(VmCall::new(call, vm))))
            },
            Inst::Await => {
                if len == 0 {
                    return Err(VmErrorKind::StackEmpty);
                }
                match &self.stack[len - 1] {
                    Value::Future(_) => {},
                    _ => {
                        return Err(VmErrorKind::ExpectedFuture);
                    },
                }
                match self.pop() {
                    Ok(Value::Future(future)) => Ok(Some(VmHalt::Awaited(Awaited { future: *future }))),
                    _ => Err(VmErrorKind::ExpectedFuture),
                }
            },
            Inst::Yield => Ok(Some(VmHalt::Yielded)),
            Inst::Return => Ok(Some(VmHalt::Exited)),
        }
    }

    /// Runs the machine until it stops: at a return, a yield, an await or a
    /// call that needs a machine of its own, at an instruction that fails,
    /// or where `budget` allows no further instruction.
    pub fn run(&mut self, budget: &mut Budget) -> (result: Result<VmHalt, VmError>)
        ensures
            final(self)@ == old(self)@.run(old(budget)@).vm,
            final(budget)@ == old(self)@.run(old(budget)@).budget,
            halt_result_view(result) == old(self)@.run(old(budget)@).result,
    {
        loop
            invariant
                self@.run(budget@) == old(self)@.run(old(budget)@),
            decreases self@.code_left(),
        {
            if !budget.take() {
                return Ok(VmHalt::Limited);
            }
            let inst = match self.fetch() {
                Ok(inst) => inst,
                Err(kind) => {
                    return Err(VmError::new(kind));
                },
            };
            match self.execute(inst) {
                Err(kind) => {
                    return Err(VmError::new(kind));
                },
                Ok(Some(halt)) => {
                    match halt {
                        VmHalt::VmCall(_) => {},
                        _ => {
                            self.advance();
                        },
                    }
                    return Ok(halt);
                },
                Ok(None) => {
                    self.advance();
                },
            }
        }
    }
}

/// A run that fails gives an error of the machine's, which is bound to no
/// instruction yet.
pub proof fn lemma_run_error(vm: VmView, budget: Option<nat>)
    ensures
        vm.run(budget).result matches Err(error) ==> error == VmErrorView::of(error.kind),
    decreases vm.code_left(),
{
    if Budget::allows(budget) {
        match vm.fetch() {
            Err(_) => {},
            Ok(inst) => match vm.effect(inst) {
                Effect::Next(stack) => {
                    lemma_run_error(vm.with_stack(stack).advanced(), Budget::taken(budget));
                },
                _ => {},
            },
        }
    }
}

/// The result of a run as plain mathematical data.
pub open spec fn halt_result_view(result: Result<VmHalt, VmError>) -> Result<
    VmHaltView,
    VmErrorView,
> {
    match result {
        Ok(halt) => Ok(halt@),
        Err(error) => Err(error@),
    }
}

} // verus!
