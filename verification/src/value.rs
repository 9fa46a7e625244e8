use crate::tuple::Tuple;
use crate::unit::UnitView;
use crate::vm::Vm;
use crate::vm_error::{VmError, VmErrorKind, VmErrorView};
use vstd::prelude::*;

verus! {

/// A value as plain mathematical data.
pub enum ValueView {
    Unit,
    Integer(i64),
    Tuple(Seq<ValueView>),
    Future(Box<VmView>),
    Generator(Box<VmView>),
    Stream(Box<VmView>),
}

/// A machine as plain mathematical data: the unit it runs, the function it
/// is in, its instruction pointer and its operand stack, bottom first.
pub struct VmView {
    pub unit: UnitView,
    pub function: nat,
    pub ip: nat,
    pub stack: Seq<ValueView>,
}

/// A value that a script handles.
#[derive(Debug, PartialEq)]
pub enum Value {
    /// The unit value.
    Unit,
    /// An integer.
    Integer(i64),
    /// A tuple of values.
    Tuple(Tuple),
    /// A call that was made into a future: the machine that will run it.
    Future(Box<Vm>),
    /// A call that was made into a generator: the machine that will run it.
    Generator(Box<Vm>),
    /// A call that was made into a stream: the machine that will run it.
    Stream(Box<Vm>),
}

impl View for Value {
    type V = ValueView;

    open spec fn view(&self) -> ValueView {
        self.model()
    }
}

/// The values of a vector as mathematical data, in order.
pub open spec fn values_model(values: Vec<Value>) -> Seq<ValueView>
    decreases values,
{
    Seq::new(
        values.len() as nat,
        |i: int|
            if 0 <= i < values.len() {
                values[i].model()
            } else {
                ValueView::Unit
            },
    )
}

impl Value {
    /// What this value is, as mathematical data.
    pub open spec fn model(&self) -> ValueView
        decreases self,
    {
        match self {
            Value::Unit => ValueView::Unit,
            Value::Integer(n) => ValueView::Integer(*n),
            Value::Tuple(tuple) => ValueView::Tuple(values_model(tuple.inner)),
            Value::Future(vm) => ValueView::Future(Box::new(vm.model())),
            Value::Generator(vm) => ValueView::Generator(Box::new(vm.model())),
            Value::Stream(vm) => ValueView::Stream(Box::new(vm.model())),
        }
    }
}

impl Vm {
    /// What this machine is, as mathematical data.
    pub open spec fn model(&self) -> VmView
        decreases self,
    {
        VmView {
            unit: self.unit@,
            function: self.function as nat,
            ip: self.ip as nat,
            stack: values_model(self.stack),
        }
    }
}

/// Pushing onto a vector pushes onto its model.
pub proof fn lemma_values_push(before: Vec<Value>, after: Vec<Value>, value: Value)
    requires
        after@ == before@.push(value),
    ensures
        values_model(after) == values_model(before).push(value@),
{
    assert(values_model(after) =~= values_model(before).push(value@));
}

/// A part of a vector has, as its model, that part of the model.
pub proof fn lemma_values_subrange(whole: Vec<Value>, part: Vec<Value>, from: int, to: int)
    requires
        0 <= from <= to <= whole@.len(),
        part@ == whole@.subrange(from, to),
    ensures
        values_model(part) == values_model(whole).subrange(from, to),
{
    assert(values_model(part) =~= values_model(whole).subrange(from, to));
}

/// Putting a value in the place of an element puts its model in the place
/// of that element's model.
pub proof fn lemma_values_update(before: Vec<Value>, after: Vec<Value>, index: int, value: Value)
    requires
        0 <= index < before@.len(),
        after@ == before@.update(index, value),
    ensures
        values_model(after) == values_model(before).update(index, value@),
{
    assert(values_model(after) =~= values_model(before).update(index, value@));
}

/// A copy of each value of a vector, in order.
pub fn duplicate_values(values: &Vec<Value>) -> (copy: Vec<Value>)
    ensures
        values_model(copy) == values_model(*values),
    decreases values,
{
    let mut copy: Vec<Value> = Vec::new();
    let mut i: usize = 0;
    while i < values.len()
        invariant
            i <= values.len(),
            copy.len() == i,
            forall|j: int| 0 <= j < i ==> copy[j]@ == values[j]@,
        decreases values.len() - i,
    {
        copy.push(values[i].duplicate());
        i = i + 1;
    }
    assert(values_model(copy) =~= values_model(*values));
    copy
}

impl Value {
    /// A copy of this value, with copies of the machines that it holds.
    pub fn duplicate(&self) -> (copy: Value)
        ensures
            copy@ == self@,
        decreases self,
    {
        match self {
            Value::Unit => Value::Unit,
            Value::Integer(n) => Value::Integer(*n),
            Value::Tuple(tuple) => Value::Tuple(Tuple { inner: duplicate_values(&tuple.inner) }),
            Value::Future(vm) => Value::Future(Box::new(vm.duplicate())),
            Value::Generator(vm) => Value::Generator(Box::new(vm.duplicate())),
            Value::Stream(vm) => Value::Stream(Box::new(vm.duplicate())),
        }
    }
}

/// A type of the host that a value can be turned into.
pub trait FromValue: Sized {
    /// Whether `result` is what turning a value with the model `value` into
    /// this type gives.
    spec fn turns_into(value: ValueView, result: Result<Self, VmError>) -> bool;

    /// Turns `value` into this type, or fails where it is of another kind.
    fn from_value(value: Value) -> (result: Result<Self, VmError>)
        ensures
            Self::turns_into(value@, result),
    ;
}

impl FromValue for i64 {
    /// An integer gives its number; every other value is an error.
    open spec fn turns_into(value: ValueView, result: Result<i64, VmError>) -> bool {
        match value {
            ValueView::Integer(n) => result == Ok::<i64, VmError>(n),
            _ => result is Err && result->Err_0@ == VmErrorView::of(VmErrorKind::ExpectedInteger),
        }
    }

    fn from_value(value: Value) -> (result: Result<i64, VmError>) {
        match value {
            Value::Integer(n) => Ok(n),
            _ => Err(VmError::new(VmErrorKind::ExpectedInteger)),
        }
    }
}

impl FromValue for Tuple {
    /// The unit value gives the empty tuple and a tuple gives itself; every
    /// other value is an error.
    open spec fn turns_into(value: ValueView, result: Result<Tuple, VmError>) -> bool {
        match value {
            ValueView::Unit => result is Ok && result->Ok_0@ == Seq::<ValueView>::empty(),
            ValueView::Tuple(elements) => result is Ok && result->Ok_0@ == elements,
            _ => result is Err && result->Err_0@ == VmErrorView::of(VmErrorKind::ExpectedTuple),
        }
    }

    fn from_value(value: Value) -> (result: Result<Tuple, VmError>) {
        match value {
            Value::Unit => Ok(Tuple::empty()),
            Value::Tuple(tuple) => Ok(tuple),
            _ => Err(VmError::new(VmErrorKind::ExpectedTuple)),
        }
    }
}

} // verus!
