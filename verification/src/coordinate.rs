use vstd::prelude::*;

use crate::constants::{MAX_LATITUDE, MAX_LONGITUDE};
use crate::error::ValidationError;

verus! {

/// Whether `lat`, in picodegrees, lies within [-90, 90] degrees.
pub open spec fn valid_latitude(lat: int) -> bool {
    -MAX_LATITUDE <= lat && lat <= MAX_LATITUDE
}

/// Whether `lon`, in picodegrees, lies within [-180, 180] degrees.
pub open spec fn valid_longitude(lon: int) -> bool {
    -MAX_LONGITUDE <= lon && lon <= MAX_LONGITUDE
}

/// The error a single coordinate is rejected with: the latitude is checked
/// first, the longitude only when the latitude passed. `None` when both are
/// in range.
pub open spec fn coordinate_error(lat: int, lon: int) -> Option<ValidationError> {
    if !valid_latitude(lat) {
        Some(ValidationError::LatitudeOutOfRange)
    } else if !valid_longitude(lon) {
        Some(ValidationError::LongitudeOutOfRange)
    } else {
        None
    }
}

/// The error a pair of coordinates is rejected with: the first coordinate
/// is checked in full before the second, so a caller handing two invalid
/// coordinates is told about the first one. `None` when both are valid.
pub open spec fn pair_error(lat1: int, lon1: int, lat2: int, lon2: int) -> Option<
    ValidationError,
> {
    if coordinate_error(lat1, lon1) is Some {
        coordinate_error(lat1, lon1)
    } else {
        coordinate_error(lat2, lon2)
    }
}

/// A validated point on the Earth: latitude and longitude in picodegrees,
/// both within range for the whole lifetime of the value — the type has no
/// mutator, so validity is established once, at construction.
#[derive(Clone, Copy, Debug, PartialEq, Eq, Structural)]
pub struct Coordinate {
    /// Latitude in picodegrees, within [-90, 90] degrees.
    pub latitude: i64,
    /// Longitude in picodegrees, within [-180, 180] degrees.
    pub longitude: i64,
}

impl Coordinate {
    /// Both fields are within range.
    pub open spec fn is_valid(self) -> bool {
        valid_latitude(self.latitude as int) && valid_longitude(self.longitude as int)
    }

    /// Validates `latitude` and `longitude` (picodegrees) and wraps them:
    /// succeeds exactly when both are in range, and reports the latitude
    /// error first when both are out of range.
    pub fn new(latitude: i64, longitude: i64) -> (r: Result<Coordinate, ValidationError>)
        ensures
            r is Ok <==> coordinate_error(latitude as int, longitude as int) is None,
            r matches Ok(c) ==> c == (Coordinate { latitude, longitude }) && c.is_valid(),
            r matches Err(e) ==> coordinate_error(latitude as int, longitude as int) == Some(e),
    {
        match Self::validate_coordinate(latitude, longitude) {
            Err(e) => Err(e),
            Ok(()) => Ok(Coordinate { latitude, longitude }),
        }
    }

    /// Range check shared by every entry point that takes raw angles.
    fn validate_coordinate(latitude: i64, longitude: i64) -> (r: Result<(), ValidationError>)
        ensures
            r is Ok <==> coordinate_error(latitude as int, longitude as int) is None,
            r matches Err(e) ==> coordinate_error(latitude as int, longitude as int) == Some(e),
    {
        if latitude < -MAX_LATITUDE || latitude > MAX_LATITUDE {
            Err(ValidationError::LatitudeOutOfRange)
        } else if longitude < -MAX_LONGITUDE || longitude > MAX_LONGITUDE {
            Err(ValidationError::LongitudeOutOfRange)
        } else {
            Ok(())
        }
    }
}

/// Validates the two coordinates every two-point operation takes, in
/// picodegrees. The first coordinate is validated in full before the second
/// is looked at; the error of the first invalid one is returned.
pub fn validate_coordinate_pair(lat1: i64, lon1: i64, lat2: i64, lon2: i64) -> (r: Result<
    (Coordinate, Coordinate),
    ValidationError,
>)
    ensures
        r is Ok <==> pair_error(lat1 as int, lon1 as int, lat2 as int, lon2 as int) is None,
        r matches Ok(p) ==> p.0 == (Coordinate { latitude: lat1, longitude: lon1 }) && p.1 == (
        Coordinate { latitude: lat2, longitude: lon2 }) && p.0.is_valid() && p.1.is_valid(),
        r matches Err(e) ==> pair_error(lat1 as int, lon1 as int, lat2 as int, lon2 as int)
            == Some(e),
{
    match Coordinate::new(lat1, lon1) {
        Err(e) => Err(e),
        Ok(coordinate_1) => match Coordinate::new(lat2, lon2) {
            Err(e) => Err(e),
            Ok(coordinate_2) => Ok((coordinate_1, coordinate_2)),
        },
    }
}

/// Validation of the destination operation's inputs: the origin coordinate
/// is checked first (latitude, then longitude), and only then the sign of
/// the travel distance. The caller reduces its distance to the one fact the
/// rule reads, whether it is negative.
pub fn destination_precheck(latitude: i64, longitude: i64, distance_is_negative: bool) -> (r:
    Result<Coordinate, ValidationError>)
    ensures
        coordinate_error(latitude as int, longitude as int) matches Some(e) ==> r == Err::<
            Coordinate,
            ValidationError,
        >(e),
        coordinate_error(latitude as int, longitude as int) is None && distance_is_negative ==> r
            == Err::<Coordinate, ValidationError>(ValidationError::NegativeDistance),
        coordinate_error(latitude as int, longitude as int) is None && !distance_is_negative ==> r
            == Ok::<Coordinate, ValidationError>(Coordinate { latitude, longitude }),
{
    match Coordinate::new(latitude, longitude) {
        Err(e) => Err(e),
        Ok(origin) => {
            if distance_is_negative {
                Err(ValidationError::NegativeDistance)
            } else {
                Ok(origin)
            }
        },
    }
}

} // verus!
