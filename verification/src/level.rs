use vstd::prelude::*;

verus! {

/// Ordered capability rank: how much of a language a backend can execute.
///
/// A backend declares a fixed maximum rank and carries a runtime-adjustable
/// current rank; the pipeline compares ranks to decide which code source
/// (selected block or current line) it is allowed to take.
#[derive(Clone, Copy, PartialEq, Eq, Structural, Debug)]
pub enum SupportLevel {
    /// The backend cannot execute anything at this rank.
    Unsupported,
    /// Single current-line execution.
    Line,
    /// Multi-line selected-block execution.
    Bloc,
}

impl SupportLevel {
    /// Position of this level in the total order `Unsupported < Line < Bloc`.
    pub open spec fn rank(self) -> int {
        match self {
            SupportLevel::Unsupported => 0,
            SupportLevel::Line => 1,
            SupportLevel::Bloc => 2,
        }
    }

    /// Executable rank, for comparing two levels.
    pub fn rank_value(self) -> (r: u8)
        ensures
            r as int == self.rank(),
    {
        match self {
            SupportLevel::Unsupported => 0,
            SupportLevel::Line => 1,
            SupportLevel::Bloc => 2,
        }
    }

    /// Whether `self` is at least as capable as `other`.
    pub fn at_least(self, other: SupportLevel) -> (r: bool)
        ensures
            r == (other.rank() <= self.rank()),
    {
        other.rank_value() <= self.rank_value()
    }
}

} // verus!
