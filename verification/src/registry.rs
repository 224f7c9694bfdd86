//! The registry assigning each new game a unique, monotonically increasing
//! identifier.

use vstd::prelude::*;

verus! {

/// A persisted counter of game identifiers; one registry per deployment.
/// Identifiers start at zero, strictly increase, and are never reused.
#[derive(Clone, Copy, Debug, PartialEq, Eq, Structural)]
pub struct GameRegistry {
    /// The identifier the next created game will receive.
    pub counter: u64,
}

impl GameRegistry {
    /// A fresh registry whose first issued identifier is zero.
    pub fn new() -> (r: GameRegistry)
        ensures
            r.counter == 0,
    {
        GameRegistry { counter: 0 }
    }

    /// Issues the next identifier. Each call returns a value strictly
    /// greater than every value returned before it.
    pub fn next_id(&mut self) -> (r: u64)
        requires
            old(self).counter < u64::MAX,
        ensures
            r == old(self).counter,
            final(self).counter == old(self).counter + 1,
    {
        let id = self.counter;
        self.counter = self.counter + 1;
        id
    }
}

} // verus!
