use vstd::prelude::*;

verus! {

/// The calling convention of a function: what becomes of the machine that a
/// call to it creates.
#[derive(Clone, Copy, Debug, PartialEq, Eq, Structural)]
pub enum Call {
    /// The machine runs at once, stacked on its caller, and its result lands
    /// on the caller's stack.
    Immediate,
    /// The machine is wrapped, unstarted, into a future.
    Async,
    /// The machine is wrapped, unstarted, into a generator.
    Generator,
    /// The machine is wrapped, unstarted, into a stream.
    Stream,
}

/// One instruction of a machine.
#[derive(Clone, Copy, Debug, PartialEq, Eq, Structural)]
pub enum Inst {
    /// Push the unit value.
    Unit,
    /// Push an integer.
    Integer(i64),
    /// Discard the top of the stack.
    Pop,
    /// Replace the two integers on top of the stack by their sum.
    Add,
    /// Replace the `count` values on top of the stack by one tuple of them.
    Tuple { count: usize },
    /// Call the function with the given index in the unit, handing it the
    /// `args` values on top of the stack. Only a function that stands before
    /// the calling one can be called, so that no call chain is endless.
    Call { function: usize, args: usize },
    /// Take the future on top of the stack and wait for it.
    Await,
    /// Suspend, handing the top of the stack to whoever resumes.
    Yield,
    /// Leave the function. What is on the stack is its result.
    Return,
}

/// A function of a unit, as plain mathematical data.
pub struct FunctionView {
    pub call: Call,
    pub args: nat,
    pub code: Seq<Inst>,
}

/// A compiled function: its calling convention, the number of arguments that
/// it takes, and its code.
#[derive(Clone, Debug, PartialEq, Eq)]
pub struct Function {
    call: Call,
    args: usize,
    code: Vec<Inst>,
}

impl View for Function {
    type V = FunctionView;

    open spec fn view(&self) -> FunctionView {
        FunctionView { call: self.spec_call(), args: self.spec_args() as nat, code: self.spec_code() }
    }
}

impl Function {
    pub closed spec fn spec_call(&self) -> Call {
        self.call
    }

    pub closed spec fn spec_args(&self) -> usize {
        self.args
    }

    pub closed spec fn spec_code(&self) -> Seq<Inst> {
        self.code@
    }

    /// A function with the given convention, arity and code.
    pub fn new(call: Call, args: usize, code: Vec<Inst>) -> (function: Self)
        ensures
            function@ == (FunctionView { call, args: args as nat, code: code@ }),
    {
        Function { call, args, code }
    }

    /// The calling convention.
    pub fn call(&self) -> (call: Call)
        ensures
            call == self@.call,
    {
        self.call
    }

    /// The number of arguments.
    pub fn args(&self) -> (args: usize)
        ensures
            args == self@.args,
    {
        self.args
    }

    /// The number of instructions.
    pub fn len(&self) -> (len: usize)
        ensures
            len == self@.code.len(),
    {
        self.code.len()
    }

    /// The instruction at `ip`, if the code reaches that far.
    pub fn inst(&self, ip: usize) -> (inst: Option<Inst>)
        ensures
            inst == (if ip < self@.code.len() {
                Some(self@.code[ip as int])
            } else {
                None
            }),
            self@.code.len() <= usize::MAX,
    {
        if ip < self.code.len() {
            Some(self.code[ip])
        } else {
            None
        }
    }
}

/// A unit as plain mathematical data: its functions in order.
pub type UnitView = Seq<FunctionView>;

/// A compiled unit: the functions that machines run.
#[derive(Clone, Debug, PartialEq, Eq)]
pub struct Unit {
    functions: Vec<Function>,
}

impl View for Unit {
    type V = Seq<FunctionView>;

    closed spec fn view(&self) -> Seq<FunctionView> {
        self.functions@.map_values(|f: Function| f@)
    }
}

impl Unit {
    /// A unit of the given functions.
    pub fn new(functions: Vec<Function>) -> (unit: Self)
        ensures
            unit@ == functions@.map_values(|f: Function| f@),
    {
        Unit { functions }
    }

    /// The number of functions.
    pub fn len(&self) -> (len: usize)
        ensures
            len == self@.len(),
    {
        self.functions.len()
    }

    /// The function with the given index, if there is one.
    pub fn function(&self, index: usize) -> (function: Option<&Function>)
        ensures
            index < self@.len() ==> function.is_some() && function.unwrap()@ == self@[index as int],
            index >= self@.len() ==> function.is_none(),
    {
        if index < self.functions.len() {
            Some(&self.functions[index])
        } else {
            None
        }
    }
}

} // verus!
