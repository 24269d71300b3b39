//! Geodetic measurements between points on an Earth model, built on a
//! fixed-point representation of angles and distances.
//!
//! Angles are carried as `i64` picodegrees (10^-12 of a degree), distances
//! as `i64` millimetres. This keeps every rule of the library — coordinate
//! validation, the antipodal predicate, and the short-circuit and iteration
//! control of the ellipsoidal solver — exact and machine-checked. The
//! floating-point trigonometry that turns a validated, non-degenerate pair
//! of points into a distance lives outside the verified core.

pub mod antipodal;
pub mod constants;
pub mod coordinate;
pub mod error;
pub mod vincenty;
