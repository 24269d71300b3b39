use vstd::prelude::*;

verus! {

/// Reason a set of raw inputs was rejected before any computation ran.
#[derive(Clone, Copy, Debug, PartialEq, Eq, Structural)]
pub enum ValidationError {
    /// The latitude lies outside [-90, 90] degrees.
    LatitudeOutOfRange,
    /// The longitude lies outside [-180, 180] degrees.
    LongitudeOutOfRange,
    /// A travel distance was negative.
    NegativeDistance,
}

impl ValidationError {
    /// The message that describes this rejection.
    pub open spec fn message_spec(self) -> Seq<char> {
        match self {
            ValidationError::LatitudeOutOfRange => "Latitude must be between -90 and 90 degrees."@,
            ValidationError::LongitudeOutOfRange => "Longitude must be between -180 and 180 degrees."@,
            ValidationError::NegativeDistance => "Distance cannot be negative."@,
        }
    }

    /// Human-readable description of the rejection.
    pub fn message(self) -> (r: &'static str)
        ensures
            r@ == self.message_spec(),
    {
        match self {
            ValidationError::LatitudeOutOfRange => "Latitude must be between -90 and 90 degrees.",
            ValidationError::LongitudeOutOfRange => "Longitude must be between -180 and 180 degrees.",
            ValidationError::NegativeDistance => "Distance cannot be negative.",
        }
    }
}

/// Failure of the ellipsoidal distance solver: either its inputs were
/// rejected, or the iteration cap was reached before convergence. The two
/// kinds are kept distinct — a convergence failure signals a limitation of
/// the numerical method, not bad input.
#[derive(Clone, Copy, Debug, PartialEq, Eq, Structural)]
pub enum VincentyError {
    /// The inputs were rejected before the solver ran.
    Validation(ValidationError),
    /// The iterative update exhausted its iteration cap.
    DidNotConverge,
}

impl VincentyError {
    /// The message that describes this failure.
    pub open spec fn message_spec(self) -> Seq<char> {
        match self {
            VincentyError::Validation(e) => e.message_spec(),
            VincentyError::DidNotConverge => "Vincenty formula failed to converge"@,
        }
    }

    /// Human-readable description of the failure.
    pub fn message(self) -> (r: &'static str)
        ensures
            r@ == self.message_spec(),
    {
        match self {
            VincentyError::Validation(e) => e.message(),
            VincentyError::DidNotConverge => "Vincenty formula failed to converge",
        }
    }
}

} // verus!
