use vstd::prelude::*;

verus! {

/// What the engine can refuse.
#[derive(Debug, Clone, Copy, PartialEq, Eq, Structural)]
pub enum Error {
    /// A die value outside 1..=6 was given.
    DieOutOfBounds,
    /// The move is not among the currently legal ones.
    InvalidMove,
}

} // verus!
