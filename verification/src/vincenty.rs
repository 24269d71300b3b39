use vstd::prelude::*;

use crate::antipodal::{antipodal, are_antipodal};
use crate::constants::{CIRCUMFERENCE_MM, CONVERGENCE_THRESHOLD, MAX_ITERATIONS};
use crate::coordinate::{pair_error, validate_coordinate_pair, valid_latitude, valid_longitude};
use crate::error::ValidationError;

verus! {

/// Two points, in picodegrees, count as coincident for the ellipsoidal
/// solver when both coordinate differences are below the convergence
/// threshold (10^-8 degrees).
pub open spec fn coincident(lat1: int, lon1: int, lat2: int, lon2: int) -> bool {
    vstd::math::abs(lat1 - lat2) < CONVERGENCE_THRESHOLD && vstd::math::abs(lon1 - lon2)
        < CONVERGENCE_THRESHOLD
}

/// What the ellipsoidal solver decides about a pair of raw points before
/// any iteration runs.
#[derive(Clone, Copy, Debug, PartialEq, Eq, Structural)]
pub enum VincentyCheck {
    /// The inputs were rejected by pair validation.
    Invalid(ValidationError),
    /// The points are coincident: the distance is 0, no iteration runs.
    Coincident,
    /// The points are antipodal: the iterative method is unstable there, so
    /// the distance is half the circumference, and no iteration runs.
    Antipodal,
    /// No short-circuit applies: the iteration must run.
    Iterate,
}

/// The decision the solver owes for raw inputs, in the order the checks are
/// made: pair validation, then coincidence, then antipodality.
pub open spec fn vincenty_decision(lat1: int, lon1: int, lat2: int, lon2: int) -> VincentyCheck {
    match pair_error(lat1, lon1, lat2, lon2) {
        Some(e) => VincentyCheck::Invalid(e),
        None => if coincident(lat1, lon1, lat2, lon2) {
            VincentyCheck::Coincident
        } else if antipodal(lat1, lon1, lat2, lon2) {
            VincentyCheck::Antipodal
        } else {
            VincentyCheck::Iterate
        },
    }
}

/// Runs the ellipsoidal solver's entry checks on raw picodegree inputs:
/// validates the pair, then short-circuits coincident and antipodal pairs,
/// for which the iterative update is degenerate or unstable.
pub fn vincenty_precheck(lat1: i64, lon1: i64, lat2: i64, lon2: i64) -> (r: VincentyCheck)
    ensures
        r == vincenty_decision(lat1 as int, lon1 as int, lat2 as int, lon2 as int),
{
    match validate_coordinate_pair(lat1, lon1, lat2, lon2) {
        Err(e) => VincentyCheck::Invalid(e),
        Ok(_) => {
            let lat_difference_signed: i128 = lat1 as i128 - lat2 as i128;
            let lat_difference: i128 = if lat_difference_signed < 0 {
                -lat_difference_signed
            } else {
                lat_difference_signed
            };
            let lon_difference_signed: i128 = lon1 as i128 - lon2 as i128;
            let lon_difference: i128 = if lon_difference_signed < 0 {
                -lon_difference_signed
            } else {
                lon_difference_signed
            };
            if lat_difference < CONVERGENCE_THRESHOLD as i128 && lon_difference
                < CONVERGENCE_THRESHOLD as i128 {
                VincentyCheck::Coincident
            } else if are_antipodal(lat1, lon1, lat2, lon2) {
                VincentyCheck::Antipodal
            } else {
                VincentyCheck::Iterate
            }
        },
    }
}

/// The distance, in millimetres, that a short-circuited check settles
/// without iteration: 0 for coincident points, half the circumference for
/// antipodal ones, and nothing for the other outcomes.
pub fn vincenty_shortcut_distance_mm(check: &VincentyCheck) -> (r: Option<i64>)
    ensures
        *check == VincentyCheck::Coincident ==> r == Some(0i64),
        *check == VincentyCheck::Antipodal ==> r == Some((CIRCUMFERENCE_MM / 2) as i64),
        *check is Invalid || *check == VincentyCheck::Iterate ==> r is None,
{
    match check {
        VincentyCheck::Coincident => Some(0),
        VincentyCheck::Antipodal => Some(CIRCUMFERENCE_MM / 2),
        VincentyCheck::Invalid(_) => None,
        VincentyCheck::Iterate => None,
    }
}

/// What one round of the iterative update observed, in the order the solver
/// tests it: the angular separation vanished, the longitude correction
/// converged, or neither.
#[derive(Clone, Copy, Debug, PartialEq, Eq, Structural)]
pub enum VincentyEvent {
    /// |sin sigma| fell below the convergence threshold: the points are
    /// coincident on the ellipsoid.
    SigmaVanished,
    /// The longitude correction moved by less than the threshold: the
    /// iteration converged.
    LambdaConverged,
    /// Neither test passed.
    NotConverged,
}

/// What the solver does after one round of the iterative update.
#[derive(Clone, Copy, Debug, PartialEq, Eq, Structural)]
pub enum VincentyStep {
    /// Return distance 0: the points are coincident on the ellipsoid.
    ReturnZero,
    /// Evaluate the ellipsoidal series and return the final distance.
    ComputeDistance,
    /// Run another round of the update.
    ContinueIteration,
    /// Give up: the iteration cap was reached without convergence.
    FailConvergence,
}

/// The action owed after the round with index `iterations_done` (0-based)
/// observed `event`: a vanished separation returns 0 at once, convergence
/// finishes the solve, and anything else continues until the iteration cap
/// is exhausted.
pub open spec fn step_decision(iterations_done: int, event: VincentyEvent) -> VincentyStep {
    match event {
        VincentyEvent::SigmaVanished => VincentyStep::ReturnZero,
        VincentyEvent::LambdaConverged => VincentyStep::ComputeDistance,
        VincentyEvent::NotConverged => if iterations_done + 1 < MAX_ITERATIONS {
            VincentyStep::ContinueIteration
        } else {
            VincentyStep::FailConvergence
        },
    }
}

/// Decides what the solver does after one round of the iterative update.
/// The caller runs the numerical update, reports what it observed, and
/// performs the action returned.
pub fn vincenty_step(iterations_done: u32, event: VincentyEvent) -> (r: VincentyStep)
    ensures
        r == step_decision(iterations_done as int, event),
{
    match event {
        VincentyEvent::SigmaVanished => VincentyStep::ReturnZero,
        VincentyEvent::LambdaConverged => VincentyStep::ComputeDistance,
        VincentyEvent::NotConverged => if iterations_done < MAX_ITERATIONS - 1 {
            VincentyStep::ContinueIteration
        } else {
            VincentyStep::FailConvergence
        },
    }
}

/// A point paired with itself is coincident, so the solver settles it at
/// distance 0 without running the iteration.
pub proof fn lemma_same_point_is_coincident(lat: int, lon: int)
    requires
        valid_latitude(lat),
        valid_longitude(lon),
    ensures
        vincenty_decision(lat, lon, lat, lon) == VincentyCheck::Coincident,
{
}

/// A valid antipodal pair is never coincident, so the solver settles every
/// such pair at half the circumference without running the iteration.
pub proof fn lemma_antipodal_pair_is_settled(lat1: int, lon1: int, lat2: int, lon2: int)
    requires
        valid_latitude(lat1),
        valid_longitude(lon1),
        valid_latitude(lat2),
        valid_longitude(lon2),
        antipodal(lat1, lon1, lat2, lon2),
    ensures
        vincenty_decision(lat1, lon1, lat2, lon2) == VincentyCheck::Antipodal,
{
}

} // verus!
