use crate::value::{lemma_values_update, values_model, FromValue, Value, ValueView};
use crate::vm_error::VmError;
use vstd::prelude::*;

verus! {

/// A tuple of values of any length.
#[derive(Debug, PartialEq)]
pub struct Tuple {
    pub inner: Vec<Value>,
}

impl View for Tuple {
    type V = Seq<ValueView>;

    open spec fn view(&self) -> Seq<ValueView> {
        values_model(self.inner)
    }
}

impl Tuple {
    /// The tuple without elements.
    pub fn empty() -> (tuple: Self)
        ensures
            tuple@ == Seq::<ValueView>::empty(),
    {
        let tuple = Tuple { inner: Vec::new() };
        assert(tuple@ =~= Seq::empty());
        tuple
    }

    /// The elements, in order.
    pub fn into_inner(self) -> (inner: Vec<Value>)
        ensures
            values_model(inner) == self@,
    {
        self.inner
    }

    /// Whether the tuple has no elements.
    pub fn is_empty(&self) -> (empty: bool)
        ensures
            empty == (self@.len() == 0),
    {
        self.inner.len() == 0
    }

    /// The number of elements.
    pub fn len(&self) -> (len: usize)
        ensures
            len == self@.len(),
    {
        self.inner.len()
    }

    /// The element at `index`, if the tuple reaches that far.
    pub fn get(&self, index: usize) -> (value: Option<&Value>)
        ensures
            index < self@.len() ==> value is Some && value->Some_0@ == self@[index as int],
            index >= self@.len() ==> value is None,
    {
        if index < self.inner.len() {
            Some(&self.inner[index])
        } else {
            None
        }
    }

    /// A copy of the element at `index`, turned into the type `T`: `None`
    /// where the tuple does not reach that far, and an error where the
    /// element is of another kind.
    pub fn get_value<T>(&self, index: usize) -> (result: Result<Option<T>, VmError>) where
        T: FromValue,

        ensures
            index >= self@.len() ==> result == Ok::<Option<T>, VmError>(None),
            index < self@.len() ==> match result {
                Ok(Some(value)) => T::turns_into(self@[index as int], Ok(value)),
                Ok(None) => false,
                Err(error) => T::turns_into(self@[index as int], Err(error)),
            },
    {
        let value = match self.get(index) {
            Some(value) => value.duplicate(),
            None => {
                return Ok(None);
            },
        };
        match T::from_value(value) {
            Ok(value) => Ok(Some(value)),
            Err(error) => Err(error),
        }
    }

    /// The element at `index`, to work on, if the tuple reaches that far.
    /// The other elements stay as they are.
    pub fn get_mut(&mut self, index: usize) -> (value: Option<&mut Value>)
        ensures
            index < old(self)@.len() ==> value is Some && value->Some_0@ == old(self)@[index as int]
                && final(self)@ == old(self)@.update(index as int, final(value->Some_0)@),
            index >= old(self)@.len() ==> value is None && final(self)@ == old(self)@,
    {
        if index < self.inner.len() {
            proof {
                let inner = self.inner;
                assert forall|value: Value, after: Vec<Value>|
                    #![trigger inner@.update(index as int, value), values_model(after)]
                    after@ == inner@.update(index as int, value) implies values_model(after)
                    == values_model(inner).update(index as int, value@) by {
                    lemma_values_update(inner, after, index as int, value);
                }
            }
            Some(&mut self.inner[index])
        } else {
            None
        }
    }
}

impl vstd::std_specs::convert::FromSpecImpl<Vec<Value>> for Tuple {
    open spec fn obeys_from_spec() -> bool {
        true
    }

    open spec fn from_spec(inner: Vec<Value>) -> Tuple {
        Tuple { inner }
    }
}

impl From<Vec<Value>> for Tuple {
    /// The tuple of the given elements, in order.
    fn from(inner: Vec<Value>) -> (tuple: Tuple) {
        Tuple { inner }
    }
}

} // verus!
