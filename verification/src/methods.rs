use vstd::prelude::*;

verus! {

/// How a ranked list of comments is scored against the true quality of the
/// comments it holds.
#[derive(Clone, Copy, Debug, PartialEq, Eq, Structural)]
pub enum SortScoringMethod {
    /// Each position weighs its distance from the bottom of the list.
    Linear,
    /// Each position weighs the square of its distance from the bottom.
    PlaceSquared,
    /// As `Linear`, on qualities rescaled to the range of the list.
    NormalizedLinear,
    /// As `PlaceSquared`, on qualities rescaled to the range of the list.
    NormalizedPlaceSquared,
}

/// The scale on which a user's opinion of a comment is recorded.
#[derive(Clone, Copy, Debug, PartialEq, Eq, Structural)]
pub enum CommentScoringMethod {
    ThumbsUpDown,
    ZeroToTen,
    RawScore,
}

/// The order in which a list of comments is shown to users.
#[derive(Clone, Copy, Debug, PartialEq, Eq, Structural)]
pub enum CommentListSortingMethod {
    Top,
    New,
    Hot,
    Best,
    Controversial,
}

/// What is done for old comments that sit low in the list.
#[allow(non_camel_case_types)]
#[derive(Clone, Copy, Debug, PartialEq, Eq, Structural)]
pub enum LowScoreMemberHandling {
    /// Old comments are never lifted.
    Ignore,
    /// An old comment is lifted with a fixed small chance.
    Flat_Percent_Chance,
    /// An old comment is lifted with a chance that grows with its perceived quality.
    Proportional_To_Score_Chance,
}

impl SortScoringMethod {
    /// Whether the method rescales qualities to the range of the list.
    pub open spec fn spec_is_normalized(self) -> bool {
        self is NormalizedLinear || self is NormalizedPlaceSquared
    }

    /// Whether a position's weight is the square of its distance from the bottom.
    pub open spec fn spec_squares_place(self) -> bool {
        self is PlaceSquared || self is NormalizedPlaceSquared
    }

    #[verifier::when_used_as_spec(spec_is_normalized)]
    pub fn is_normalized(self) -> (r: bool)
        ensures
            r == self.spec_is_normalized(),
    {
        match self {
            SortScoringMethod::NormalizedLinear | SortScoringMethod::NormalizedPlaceSquared => true,
            _ => false,
        }
    }

    #[verifier::when_used_as_spec(spec_squares_place)]
    pub fn squares_place(self) -> (r: bool)
        ensures
            r == self.spec_squares_place(),
    {
        match self {
            SortScoringMethod::PlaceSquared | SortScoringMethod::NormalizedPlaceSquared => true,
            _ => false,
        }
    }
}

} // verus!
