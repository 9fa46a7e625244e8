//! The execution engine of a small scripting runtime: a bytecode machine and
//! the trampoline that drives machines through calls, suspensions and returns
//! without native recursion.
//!
//! A [`Vm`] runs one function of a [`Unit`](unit::Unit) until it stops. A
//! [`VmExecution`] stacks the machines of the calls that are under way, and
//! resumes, steps or completes the whole. Every operation has a contract over
//! the mathematical model in [`execution_view`], and the laws that relate the
//! operations are proved in [`direct`], [`stepping`] and [`laws`].

pub mod budget;
pub mod direct;
pub mod execution_view;
pub mod generator;
pub mod laws;
pub mod module;
pub mod stepping;
pub mod tuple;
pub mod unit;
pub mod value;
pub mod vm;
pub mod vm_call;
pub mod vm_error;
pub mod vm_execution;
pub mod weight;

pub use budget::Budget;
pub use generator::{Generator, GeneratorState, Stream};
pub use tuple::Tuple;
pub use value::{FromValue, Value};
pub use vm::{Vm, VmHalt};
pub use vm_call::VmCall;
pub use vm_error::{CallFrame, VmError, VmErrorKind, VmHaltInfo};
pub use vm_execution::{ExecutionState, VmExecution, VmSendExecution};
