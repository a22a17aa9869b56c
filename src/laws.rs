use vstd::prelude::*;
use crate::ring::{
    Ring360, TURN, HALF_TURN, degrees_of, rotations_of, gis_raw, gis_of, angle_of, clockwise,
};

verus! {

/// A raw value is its degree value plus its rotation count times one turn.
pub proof fn lemma_reconstruction(a: Ring360)
    ensures
        a.0 == degrees_of(a.0 as int) + rotations_of(a.0 as int) * TURN,
        0 <= degrees_of(a.0 as int) < TURN,
{
}

/// Adding or subtracting raw values and then reducing gives the same degrees as reducing
/// first, adding or subtracting the degree values, and reducing again.
pub proof fn lemma_add_sub_commute_with_reduction(a: Ring360, b: Ring360)
    ensures
        degrees_of(a.0 + b.0) == degrees_of(degrees_of(a.0 as int) + degrees_of(b.0 as int)),
        degrees_of(a.0 - b.0) == degrees_of(degrees_of(a.0 as int) - degrees_of(b.0 as int)),
{
    let t = TURN as int;
    vstd::arithmetic::div_mod::lemma_add_mod_noop(a.0 as int, b.0 as int, t);
    vstd::arithmetic::div_mod::lemma_sub_mod_noop(a.0 as int, b.0 as int, t);
}

/// The shortest angle between two values lies in `(-HALF_TURN, HALF_TURN]`, and the angle
/// back is its negation, except for a half-turn tie, which both directions report as
/// `+HALF_TURN`.
pub proof fn lemma_angle_range_and_reversal(a: Ring360, b: Ring360)
    ensures
        ({
            let ab = angle_of(a.0 as int, b.0 as int);
            let ba = angle_of(b.0 as int, a.0 as int);
            &&& -HALF_TURN < ab <= HALF_TURN
            &&& ab == HALF_TURN ==> ba == HALF_TURN
            &&& ab != HALF_TURN ==> ba == -ab
        }),
{
}

/// The shortest angle depends on the two values modulo a turn only: moving either by whole
/// turns leaves it unchanged.
pub proof fn lemma_angle_ignores_whole_turns(a: int, b: int, k: int, j: int)
    ensures
        angle_of(a + k * TURN, b + j * TURN) == angle_of(a, b),
{
    vstd::arithmetic::div_mod::lemma_mod_multiples_vanish(k, a, TURN as int);
    vstd::arithmetic::div_mod::lemma_mod_multiples_vanish(j, b, TURN as int);
}

/// The clockwise angle lies in `[0, TURN)` and is the signed shortest angle moved up one
/// turn when negative.
pub proof fn lemma_clockwise_angle_range(a: Ring360, b: Ring360)
    ensures
        ({
            let ab = angle_of(a.0 as int, b.0 as int);
            &&& 0 <= clockwise(ab) < TURN
            &&& clockwise(ab) == degrees_of(degrees_of(b.0 as int) - degrees_of(a.0 as int))
        }),
{
}

/// A GIS longitude in `(-HALF_TURN, HALF_TURN]` comes back unchanged from a value built
/// from it.
pub proof fn lemma_gis_round_trip(lng: i64)
    requires
        -HALF_TURN < lng <= HALF_TURN,
    ensures
        gis_of(degrees_of(gis_raw(lng as int))) == lng,
{
}

/// For a GIS longitude, the plain and the GIS constructor agree on degrees; they disagree
/// on the rotation count of a negative longitude, which is -1 from the plain constructor
/// and 0 from the GIS one.
pub proof fn lemma_constructors_agree_on_degrees(lng: i64)
    requires
        -HALF_TURN <= lng <= HALF_TURN,
    ensures
        degrees_of(gis_raw(lng as int)) == degrees_of(lng as int),
        rotations_of(gis_raw(lng as int)) == 0,
        lng < 0 ==> rotations_of(lng as int) == -1,
        lng >= 0 ==> rotations_of(lng as int) == 0,
{
}

} // verus!
