use vstd::prelude::*;

verus! {

/// The parameter of a check whose value fell outside its allowed range.
#[derive(Copy, Clone, Debug, PartialEq, Eq, Structural)]
pub enum RangeParam {
    /// A difficulty value outside 1 to 50.
    Dc,
    /// A die count outside 1 to 10.
    Count,
    /// An advantage flag outside -1 to 1.
    Advantage,
    /// A die upper bound outside 2 to 100.
    DieBound,
}

/// Every failure the engine can report. Invalid input is always reported to
/// the caller; no operation masks it with a fallback value.
#[derive(Copy, Clone, Debug, PartialEq, Eq, Structural)]
pub enum DndError {
    /// A numeric parameter of a check was outside its allowed range.
    InvalidRange(RangeParam),
    /// An experience total was negative.
    InvalidExperience,
    /// A level fell outside the bands of the proficiency table.
    UnrepresentableLevel,
    /// The copper-equivalent total of a purse was negative.
    NegativePurse,
}

} // verus!
