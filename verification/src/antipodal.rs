use vstd::prelude::*;

use crate::constants::{MAX_LATITUDE, MAX_LONGITUDE};

verus! {

/// Two points, in picodegrees, are antipodal when their latitudes are exact
/// negatives of each other and either the longitudes differ by exactly 180
/// degrees in absolute value, or the longitudes are identical and both
/// points sit on a pole (where every longitude is equivalent). The
/// comparisons are exact by design: no tolerance is applied.
pub open spec fn antipodal(lat1: int, lon1: int, lat2: int, lon2: int) -> bool {
    &&& lat1 == -lat2
    &&& {
        ||| vstd::math::abs(lon1 - lon2) == MAX_LONGITUDE
        ||| (lon1 == lon2 && vstd::math::abs(lat1) == MAX_LATITUDE)
    }
}

/// Whether two raw points, in picodegrees, are antipodal. The inputs are
/// deliberately unvalidated — callers may probe arbitrary angles — so there
/// is no error path.
pub fn are_antipodal(lat1: i64, lon1: i64, lat2: i64, lon2: i64) -> (r: bool)
    ensures
        r == antipodal(lat1 as int, lon1 as int, lat2 as int, lon2 as int),
{
    let lat_condition = lat1 as i128 == -(lat2 as i128);

    let lon_difference_signed: i128 = lon1 as i128 - lon2 as i128;
    let lon_difference: i128 = if lon_difference_signed < 0 {
        -lon_difference_signed
    } else {
        lon_difference_signed
    };
    let lat1_magnitude: i128 = if lat1 < 0 {
        -(lat1 as i128)
    } else {
        lat1 as i128
    };
    let lon_condition = lon_difference == MAX_LONGITUDE as i128 || (lon_difference == 0
        && lat1_magnitude == MAX_LATITUDE as i128);

    lat_condition && lon_condition
}

} // verus!
