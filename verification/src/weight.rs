//! A bound on the work that a machine can still do, by which every loop of
//! the trampoline ends: a call can only reach a function that stands before
//! the calling one, so the work behind each instruction is finite.

use crate::unit::{Inst, UnitView};
use crate::value::VmView;
use crate::vm::{Effect, VmHaltView};
use vstd::prelude::*;

verus! {

/// A bound on the instructions that can be executed from the instruction at
/// `ip` of the function `function` to the end of that function, those of the
/// functions that it calls included.
pub open spec fn code_weight(unit: UnitView, function: nat, ip: nat) -> nat
    decreases function, unit[function as int].code.len() - ip,
{
    if function >= unit.len() || ip >= unit[function as int].code.len() {
        0
    } else {
        let callee = match unit[function as int].code[ip as int] {
            Inst::Call { function: callee, .. } if callee < function => code_weight(
                unit,
                callee as nat,
                0,
            ),
            _ => 0,
        };
        1 + callee + code_weight(unit, function, ip + 1)
    }
}

impl VmView {
    /// A bound on the instructions that this machine can still execute, those
    /// of the functions that it calls included.
    pub open spec fn weight(self) -> nat {
        code_weight(self.unit, self.function, self.ip)
    }

    /// The same bound, once the machine is past the instruction that it is at.
    pub open spec fn rest_weight(self) -> nat {
        self.advanced().weight()
    }
}

/// Moving on never adds weight, and takes some off wherever the machine is at
/// an instruction.
pub proof fn lemma_weight_advanced(vm: VmView)
    ensures
        vm.rest_weight() <= vm.weight(),
        vm.fetch() is Ok ==> vm.rest_weight() < vm.weight(),
        vm.fetch() is Ok ==> vm.advanced().ip == vm.ip + 1,
{
    if vm.fetch() is Ok {
        assert(vm.advanced().ip == vm.ip + 1);
    } else if vm.ip < usize::MAX {
        if vm.function < vm.unit.len() {
            assert(vm.ip >= vm.unit[vm.function as int].code.len());
        }
    }
}

/// What a run leaves of a machine's weight.
///
/// A run keeps the unit and the function, and never adds weight. Where it
/// stops at a return, a yield or an await, it has taken weight off. Where it
/// stops at a call, the weight that is left covers the call itself, the
/// machine that was made for it, and what follows the call.
pub proof fn lemma_run_weight(vm: VmView, budget: Option<nat>)
    ensures
        vm.run(budget).vm.unit == vm.unit,
        vm.run(budget).vm.function == vm.function,
        vm.run(budget).vm.weight() <= vm.weight(),
        vm.run(budget).vm.rest_weight() <= vm.rest_weight(),
        match vm.run(budget).result {
            Ok(VmHaltView::VmCall(request)) => vm.run(budget).vm.weight() == 1
                + request.vm.weight() + vm.run(budget).vm.rest_weight(),
            Ok(VmHaltView::Limited) => true,
            Ok(_) => vm.run(budget).vm.weight() < vm.weight(),
            Err(_) => true,
        },
    decreases vm.code_left(),
{
    if crate::budget::Budget::allows(budget) {
        let left = crate::budget::Budget::taken(budget);
        match vm.fetch() {
            Err(_) => {},
            Ok(inst) => {
                lemma_weight_advanced(vm);
                match vm.effect(inst) {
                    Effect::Fail(_) => {},
                    Effect::Halt(stack, halt) => {
                        let stopped = vm.with_stack(stack);
                        lemma_weight_advanced(stopped);
                        lemma_weight_advanced(stopped.advanced());
                    },
                    Effect::Next(stack) => {
                        let next = vm.with_stack(stack).advanced();
                        lemma_run_weight(next, left);
                        lemma_weight_advanced(next);
                    },
                }
            },
        }
    }
}

} // verus!
