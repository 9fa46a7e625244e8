use crate::execution_view::deferred;
use crate::unit::Call;
use crate::value::{Value, VmView};
use crate::vm::Vm;
use crate::vm_error::VmError;
use crate::vm_execution::{Head, VmExecution};
use vstd::prelude::*;

verus! {

/// A request for a nested call, as plain mathematical data.
pub struct VmCallView {
    pub call: Call,
    pub vm: VmView,
}

/// A request that a machine makes when its code calls a function that is to
/// run in a machine of its own: that machine, not yet started, and the
/// calling convention asked for.
#[derive(Debug, PartialEq)]
pub struct VmCall {
    call: Call,
    vm: Vm,
}

impl View for VmCall {
    type V = VmCallView;

    closed spec fn view(&self) -> VmCallView {
        VmCallView { call: self.call, vm: self.vm@ }
    }
}

impl VmCall {
    /// A request to run `vm` under the convention `call`.
    pub fn new(call: Call, vm: Vm) -> (request: Self)
        ensures
            request@ == (VmCallView { call, vm: vm@ }),
    {
        VmCall { call, vm }
    }

    /// The calling convention asked for.
    pub fn call(&self) -> (call: Call)
        ensures
            call == self@.call,
    {
        self.call
    }

    /// The machine that is to run.
    pub fn vm(&self) -> (vm: &Vm)
        ensures
            vm@ == self@.vm,
    {
        &self.vm
    }

    /// The machine that is to run, for one who runs it.
    pub fn into_vm(self) -> (vm: Vm)
        ensures
            vm@ == self@.vm,
    {
        self.vm
    }

    /// The value that stands for a call that is not run at once: the
    /// machine, as it is, wrapped into a stream or a generator where the
    /// convention is that, and into a future else.
    pub fn into_value(self) -> (value: Value)
        ensures
            value@ == deferred(self@),
    {
        match self.call {
            Call::Stream => Value::Stream(Box::new(self.vm)),
            Call::Generator => Value::Generator(Box::new(self.vm)),
            _ => Value::Future(Box::new(self.vm)),
        }
    }

    /// Serves the request on `execution`.
    ///
    /// An immediate call nests the machine on the execution, where it runs
    /// next. Any other call does not run the machine: the machine is wrapped,
    /// as it is, into a future, a generator or a stream, which is pushed onto
    /// the stack of the machine that runs, and that machine moves past its
    /// call. This never fails.
    pub fn into_execution(self, execution: &mut VmExecution<'_>) -> (result: Result<(), VmError>)
        ensures
            result is Ok,
            final(execution)@ == old(execution)@.call(self@),
            final(execution).head is Borrowed == old(execution).head is Borrowed,
            final(execution).head matches Head::Borrowed(after) ==> old(execution).head matches Head::Borrowed(
                before,
            ) && *final(after) == *final(before),
    {
        let value = match self.call {
            Call::Immediate => {
                execution.push_vm(self.vm);
                return Ok(());
            },
            _ => self.into_value(),
        };
        let vm = execution.vm_mut();
        vm.push(value);
        vm.advance();
        Ok(())
    }
}

} // verus!
