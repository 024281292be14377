use vstd::prelude::*;

use crate::text::same_text;

verus! {

/// Why a block could not be built from historical input.
#[derive(Clone, Debug, PartialEq, Eq)]
pub enum BacktestError {
    /// No building algorithm has this name.
    UnknownAlgorithm(String),
    /// The algorithm failed on the input; the text says why.
    Simulation(String),
}

/// The building algorithms that a configuration offers, by name.
#[derive(Clone, Debug)]
pub struct AlgorithmRegistry {
    names: Vec<String>,
}

/// Whether `name` is among `names`.
pub open spec fn is_registered(names: Seq<String>, name: Seq<char>) -> bool {
    exists|i: int| 0 <= i < names.len() && names[i]@ == name
}

impl AlgorithmRegistry {
    /// The names, in the order they were given.
    pub closed spec fn names(&self) -> Seq<String> {
        self.names@
    }

    pub fn new(names: Vec<String>) -> (r: AlgorithmRegistry)
        ensures
            r.names() == names@,
    {
        AlgorithmRegistry { names }
    }

    /// The position of the first algorithm called `name`, or the error
    /// that no algorithm is called so.
    pub fn find(&self, name: &str) -> (r: Result<usize, BacktestError>)
        ensures
            match r {
                Ok(i) => i < self.names().len() && self.names()[i as int]@ == name@
                    && forall|j: int| 0 <= j < i ==> self.names()[j]@ != name@,
                Err(e) => !is_registered(self.names(), name@) && (e matches BacktestError::UnknownAlgorithm(
                    w,
                ) && w@ == name@),
            },
    {
        let mut i: usize = 0;
        while i < self.names.len()
            invariant
                i <= self.names@.len(),
                forall|j: int| 0 <= j < i ==> self.names@[j]@ != name@,
            decreases self.names@.len() - i,
        {
            if same_text(self.names[i].as_str(), name) {
                return Ok(i);
            }
            i = i + 1;
        }
        Err(BacktestError::UnknownAlgorithm(name.to_owned()))
    }
}

} // verus!
