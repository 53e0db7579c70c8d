//! Identity of the simulated entities.

use vstd::prelude::*;

verus! {

/// Identifies a person in the simulated population.
#[derive(Clone, Copy, Debug, Hash, PartialEq, Eq, Structural)]
pub struct PersonId(pub usize);

impl PersonId {
    /// The dense index of this person.
    pub fn index(&self) -> (r: usize)
        ensures
            r == self.0,
    {
        self.0
    }
}

} // verus!
