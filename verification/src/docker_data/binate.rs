//! The two-valued phase that tags overlapping stats cycles.

use vstd::prelude::*;

verus! {

/// Tag of a stats cycle. Two cycles that overlap carry different tags.
#[derive(Debug, Clone, Copy, PartialEq, Eq, Hash, Structural)]
pub enum Binate {
    One,
    Two,
}

impl Binate {
    /// The other phase.
    pub open spec fn flipped(self) -> Binate {
        match self {
            Binate::One => Binate::Two,
            Binate::Two => Binate::One,
        }
    }

    /// Switches to the other phase.
    pub fn toggle(self) -> (next: Binate)
        ensures
            next == self.flipped(),
            next != self,
    {
        match self {
            Binate::One => Binate::Two,
            Binate::Two => Binate::One,
        }
    }
}

} // verus!
