use vstd::prelude::*;

verus! {

/// How many instructions a run may still execute: a count, or no bound.
///
/// A budget is a value that the caller of a run holds and lends to it. It
/// bounds that run only, and whatever budget the caller holds besides is
/// untouched by it.
#[derive(Clone, Copy, Debug, PartialEq, Eq)]
pub struct Budget {
    remaining: Option<usize>,
}

impl View for Budget {
    type V = Option<nat>;

    closed spec fn view(&self) -> Option<nat> {
        match self.remaining {
            Some(n) => Some(n as nat),
            None => None,
        }
    }
}

impl Budget {
    /// What `take` leaves of a budget.
    pub open spec fn taken(budget: Option<nat>) -> Option<nat> {
        match budget {
            Some(n) if n > 0 => Some((n - 1) as nat),
            _ => budget,
        }
    }

    /// Whether a budget allows one more instruction.
    pub open spec fn allows(budget: Option<nat>) -> bool {
        budget != Some(0nat)
    }

    /// A budget without a bound.
    pub fn unlimited() -> (budget: Self)
        ensures
            budget@ == None::<nat>,
    {
        Budget { remaining: None }
    }

    /// A budget of `n` instructions.
    pub fn limited(n: usize) -> (budget: Self)
        ensures
            budget@ == Some(n as nat),
    {
        Budget { remaining: Some(n) }
    }

    /// The number of instructions left, or `None` where there is no bound.
    pub fn remaining(&self) -> (remaining: Option<usize>)
        ensures
            remaining.is_some() == self@.is_some(),
            remaining.is_some() ==> remaining.unwrap() == self@.unwrap(),
    {
        self.remaining
    }

    /// Asks for one instruction. Returns whether the budget allows it, and
    /// counts it if so.
    pub fn take(&mut self) -> (allowed: bool)
        ensures
            allowed == Budget::allows(old(self)@),
            final(self)@ == Budget::taken(old(self)@),
    {
        match self.remaining {
            None => true,
            Some(n) => {
                if n == 0 {
                    false
                } else {
                    self.remaining = Some(n - 1);
                    true
                }
            },
        }
    }
}

} // verus!
