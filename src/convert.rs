use vstd::prelude::*;
use crate::ring::{Ring360, TURN, HALF_TURN, degrees_of, gis_raw, angle_of};

verus! {

/// Ring operations offered directly on a plain raw value, without building a [`Ring360`].
pub trait ToRing360: Sized {
    /// The value as a [`Ring360`] with this raw value.
    fn to_360(&self) -> Ring360;

    /// The value, read as a GIS longitude, as a [`Ring360`] (see [`Ring360::from_gis`]).
    fn to_360_gis(&self) -> Ring360;

    /// The value reduced into `[0, TURN)`.
    fn mod_360(&self) -> Self;

    /// The shortest signed angle from this value to another raw value, in
    /// `(-HALF_TURN, HALF_TURN]`.
    fn angle_360(&self, other_value: Self) -> Self;

    /// The clockwise angle from this value to another raw value, in `[0, TURN)`.
    fn angle_360_abs(&self, other_value: Self) -> Self;
}

impl ToRing360 for i64 {
    fn to_360(&self) -> (r: Ring360)
        ensures
            r.0 == *self,
    {
        Ring360(*self)
    }

    fn to_360_gis(&self) -> (r: Ring360)
        ensures
            r.0 == gis_raw(*self as int),
    {
        Ring360::from_gis(*self)
    }

    fn mod_360(&self) -> (r: i64)
        ensures
            r == degrees_of(*self as int),
    {
        Ring360(*self).degrees()
    }

    fn angle_360(&self, other_value: i64) -> (r: i64)
        ensures
            r == angle_of(*self as int, other_value as int),
            -HALF_TURN < r <= HALF_TURN,
    {
        Ring360(*self).angle_f64(other_value)
    }

    fn angle_360_abs(&self, other_value: i64) -> (r: i64)
        ensures
            r == degrees_of(degrees_of(other_value as int) - degrees_of(*self as int)),
            0 <= r < TURN,
    {
        Ring360(*self).angle_f64_abs(other_value)
    }
}

} // verus!
