use rustileo::antipodal::are_antipodal;
use rustileo::constants::{CIRCUMFERENCE_MM, PICODEGREES_PER_DEGREE as DEG};
use rustileo::coordinate::{destination_precheck, validate_coordinate_pair};
use rustileo::error::{ValidationError, VincentyError};
use rustileo::vincenty::{
    vincenty_precheck, vincenty_shortcut_distance_mm, vincenty_step, VincentyCheck, VincentyEvent,
    VincentyStep,
};

// Picodegree values of the fractional angles the scenarios use.
// 40.7128 degrees:
const NEW_YORK_LAT: i64 = 40_712_800_000_000;
// -74.0060 degrees:
const NEW_YORK_LON: i64 = -74_006_000_000_000;
// 51.5074 degrees:
const LONDON_LAT: i64 = 51_507_400_000_000;
// -0.1278 degrees:
const LONDON_LON: i64 = -127_800_000_000;
// -33.8568 degrees:
const SYDNEY_LAT: i64 = -33_856_800_000_000;
// 151.2070 degrees:
const SYDNEY_LON: i64 = 151_207_000_000_000;
// 37.7749 degrees:
const SAN_FRANCISCO_LAT: i64 = 37_774_900_000_000;
// -122.4194 degrees:
const SAN_FRANCISCO_LON: i64 = -122_419_400_000_000;

#[test]
fn test_valid_coordinate_pair() {
    assert!(validate_coordinate_pair(NEW_YORK_LAT, NEW_YORK_LON, LONDON_LAT, LONDON_LON).is_ok());
    assert!(validate_coordinate_pair(
        SYDNEY_LAT,
        SYDNEY_LON,
        SAN_FRANCISCO_LAT,
        SAN_FRANCISCO_LON
    )
    .is_ok());
    assert!(validate_coordinate_pair(0, 0, 90 * DEG, 180 * DEG).is_ok());
}

#[test]
fn test_invalid_latitude1() {
    assert!(validate_coordinate_pair(100 * DEG, NEW_YORK_LON, LONDON_LAT, LONDON_LON).is_err());
    assert!(validate_coordinate_pair(-100 * DEG, NEW_YORK_LON, LONDON_LAT, LONDON_LON).is_err());
}

#[test]
fn test_invalid_longitude1() {
    assert!(validate_coordinate_pair(NEW_YORK_LAT, 200 * DEG, LONDON_LAT, LONDON_LON).is_err());
    assert!(validate_coordinate_pair(NEW_YORK_LAT, -200 * DEG, LONDON_LAT, LONDON_LON).is_err());
}

#[test]
fn test_invalid_latitude2() {
    assert!(validate_coordinate_pair(NEW_YORK_LAT, NEW_YORK_LON, 100 * DEG, LONDON_LON).is_err());
    assert!(validate_coordinate_pair(NEW_YORK_LAT, NEW_YORK_LON, -100 * DEG, LONDON_LON).is_err());
}

#[test]
fn test_invalid_longitude2() {
    assert!(validate_coordinate_pair(NEW_YORK_LAT, NEW_YORK_LON, LONDON_LAT, 200 * DEG).is_err());
    assert!(validate_coordinate_pair(NEW_YORK_LAT, NEW_YORK_LON, LONDON_LAT, -200 * DEG).is_err());
}

#[test]
fn pair_validation_short_circuits_on_the_first_coordinate() {
    // The first coordinate's longitude error is reported even though the
    // second coordinate's latitude is also out of range.
    assert_eq!(
        validate_coordinate_pair(0, 181 * DEG, 91 * DEG, 0).unwrap_err(),
        ValidationError::LongitudeOutOfRange
    );
    // Both coordinates fully invalid: the first one's latitude error wins.
    assert_eq!(
        validate_coordinate_pair(91 * DEG, 181 * DEG, -91 * DEG, -181 * DEG).unwrap_err(),
        ValidationError::LatitudeOutOfRange
    );
}

#[test]
fn pair_validation_returns_the_coordinates() {
    let (first, second) =
        validate_coordinate_pair(NEW_YORK_LAT, NEW_YORK_LON, LONDON_LAT, LONDON_LON).unwrap();
    assert_eq!(first.latitude, NEW_YORK_LAT);
    assert_eq!(first.longitude, NEW_YORK_LON);
    assert_eq!(second.latitude, LONDON_LAT);
    assert_eq!(second.longitude, LONDON_LON);
}

#[test]
fn antipodal_equator_points() {
    assert!(are_antipodal(0, 0, 0, 180 * DEG));
    assert!(are_antipodal(0, 0, 0, -180 * DEG));
    assert!(!are_antipodal(0, 0, 0, 179 * DEG));
}

#[test]
fn north_pole_is_not_its_own_antipode() {
    // Exact equality: 90 is not -90, so the pole paired with itself fails
    // the latitude condition.
    assert!(!are_antipodal(90 * DEG, 0, 90 * DEG, 0));
    // The two poles are antipodal under any shared longitude.
    assert!(are_antipodal(90 * DEG, 0, -90 * DEG, 0));
    assert!(are_antipodal(90 * DEG, 45 * DEG, -90 * DEG, 45 * DEG));
}

#[test]
fn antipodal_mirrored_latitudes() {
    assert!(are_antipodal(
        NEW_YORK_LAT,
        NEW_YORK_LON,
        -NEW_YORK_LAT,
        NEW_YORK_LON + 180 * DEG
    ));
    // Same longitudes off the poles: not antipodal.
    assert!(!are_antipodal(
        NEW_YORK_LAT,
        NEW_YORK_LON,
        -NEW_YORK_LAT,
        NEW_YORK_LON
    ));
}

#[test]
fn vincenty_same_point_returns_zero() {
    let check = vincenty_precheck(NEW_YORK_LAT, NEW_YORK_LON, NEW_YORK_LAT, NEW_YORK_LON);
    assert_eq!(check, VincentyCheck::Coincident);
    assert_eq!(vincenty_shortcut_distance_mm(&check), Some(0));
}

#[test]
fn vincenty_antipodal_pair_returns_half_circumference() {
    let check = vincenty_precheck(0, 0, 0, 180 * DEG);
    assert_eq!(check, VincentyCheck::Antipodal);
    // Exactly half the circumference: 20037.5 km, in millimetres.
    assert_eq!(vincenty_shortcut_distance_mm(&check), Some(20_037_500_000));
    assert_eq!(vincenty_shortcut_distance_mm(&check), Some(CIRCUMFERENCE_MM / 2));
}

#[test]
fn vincenty_near_coincident_points_skip_the_iteration() {
    // 0.5e-9 degrees apart in both axes: 500 picodegrees, far below the
    // 1e-8 degree threshold, so the solver settles at 0 before iterating.
    let check = vincenty_precheck(0, 0, 500, 500);
    assert_eq!(check, VincentyCheck::Coincident);
    assert_eq!(vincenty_shortcut_distance_mm(&check), Some(0));
}

#[test]
fn vincenty_distinct_points_must_iterate() {
    let check = vincenty_precheck(NEW_YORK_LAT, NEW_YORK_LON, LONDON_LAT, LONDON_LON);
    assert_eq!(check, VincentyCheck::Iterate);
    assert_eq!(vincenty_shortcut_distance_mm(&check), None);
}

#[test]
fn vincenty_invalid_pair_is_rejected() {
    let check = vincenty_precheck(100 * DEG, 0, 0, 0);
    assert_eq!(
        check,
        VincentyCheck::Invalid(ValidationError::LatitudeOutOfRange)
    );
    assert_eq!(vincenty_shortcut_distance_mm(&check), None);
}

#[test]
fn vincenty_step_follows_the_iteration_order() {
    assert_eq!(
        vincenty_step(0, VincentyEvent::SigmaVanished),
        VincentyStep::ReturnZero
    );
    assert_eq!(
        vincenty_step(7, VincentyEvent::LambdaConverged),
        VincentyStep::ComputeDistance
    );
    assert_eq!(
        vincenty_step(0, VincentyEvent::NotConverged),
        VincentyStep::ContinueIteration
    );
    assert_eq!(
        vincenty_step(998, VincentyEvent::NotConverged),
        VincentyStep::ContinueIteration
    );
}

#[test]
fn vincenty_step_gives_up_at_the_iteration_cap() {
    assert_eq!(
        vincenty_step(999, VincentyEvent::NotConverged),
        VincentyStep::FailConvergence
    );
    // Even on the last round, convergence still finishes the solve.
    assert_eq!(
        vincenty_step(999, VincentyEvent::LambdaConverged),
        VincentyStep::ComputeDistance
    );
}

#[test]
fn vincenty_error_messages() {
    assert_eq!(
        VincentyError::DidNotConverge.message(),
        "Vincenty formula failed to converge"
    );
    assert_eq!(
        VincentyError::Validation(ValidationError::LongitudeOutOfRange).message(),
        "Longitude must be between -180 and 180 degrees."
    );
}

#[test]
fn destination_checks_the_origin_before_the_distance() {
    assert_eq!(
        destination_precheck(100 * DEG, 0, true).unwrap_err(),
        ValidationError::LatitudeOutOfRange
    );
    assert_eq!(
        destination_precheck(0, 200 * DEG, true).unwrap_err(),
        ValidationError::LongitudeOutOfRange
    );
    assert_eq!(
        destination_precheck(0, 0, true).unwrap_err(),
        ValidationError::NegativeDistance
    );
}

#[test]
fn destination_accepts_a_valid_origin_and_distance() {
    let origin = destination_precheck(NEW_YORK_LAT, NEW_YORK_LON, false).unwrap();
    assert_eq!(origin.latitude, NEW_YORK_LAT);
    assert_eq!(origin.longitude, NEW_YORK_LON);
}
