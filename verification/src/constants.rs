use vstd::prelude::*;

verus! {

/// One degree, expressed in picodegrees, the fixed-point angle unit of
/// this crate. A picodegree is 10^-12 of a degree.
pub const PICODEGREES_PER_DEGREE: i64 = 1_000_000_000_000;

/// Largest valid latitude: 90 degrees, in picodegrees.
pub const MAX_LATITUDE: i64 = 90_000_000_000_000;

/// Largest valid longitude: 180 degrees, in picodegrees.
pub const MAX_LONGITUDE: i64 = 180_000_000_000_000;

/// Mean radius of the Earth in millimetres (6371.0 km).
pub const RADIUS_MM: i64 = 6_371_000_000;

/// Circumference of the Earth in millimetres (40075.0 km).
pub const CIRCUMFERENCE_MM: i64 = 40_075_000_000;

/// Semi-major axis of the reference ellipsoid in millimetres (6378.137 km).
pub const SEMI_MAJOR_AXIS_MM: i64 = 6_378_137_000;

/// Semi-minor axis of the reference ellipsoid in millimetres (6356.7524 km).
pub const SEMI_MINOR_AXIS_MM: i64 = 6_356_752_400;

/// Numerator of the ellipsoid's flattening, an exact rational:
/// `FLATTENING_NUM / FLATTENING_DEN` is 1 / 298.25723.
pub const FLATTENING_NUM: i64 = 100_000;

/// Denominator of the ellipsoid's flattening.
pub const FLATTENING_DEN: i64 = 29_825_723;

/// Convergence threshold of the ellipsoidal solver: 10^-8 degrees, in
/// picodegrees. Coordinate differences below it count as coincident.
pub const CONVERGENCE_THRESHOLD: i64 = 10_000;

/// Iteration cap of the ellipsoidal solver.
pub const MAX_ITERATIONS: u32 = 1000;

/// The Earth model is a proper ellipsoid: the semi-major axis exceeds the
/// semi-minor axis, both are positive, and the flattening lies strictly
/// between 0 and 1.
pub proof fn lemma_earth_model_well_formed()
    ensures
        0 < SEMI_MINOR_AXIS_MM < SEMI_MAJOR_AXIS_MM,
        0 < FLATTENING_NUM < FLATTENING_DEN,
{
}

} // verus!
