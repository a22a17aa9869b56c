use vstd::prelude::*;

verus! {

/// Millionths of a degree: the unit in which raw values, degrees and angles are held.
pub const UNITS_PER_DEGREE: i64 = 1_000_000;

/// Degrees in one full turn.
pub const DEGREES_PER_TURN: i64 = 360;

/// One full turn, in units.
pub const TURN: i64 = DEGREES_PER_TURN * UNITS_PER_DEGREE;

/// A factor of one, in millionths: the unit of fractional factors and divisors.
pub const FACTOR_ONE: i64 = 1_000_000;

/// Half a turn, in units.
pub const HALF_TURN: i64 = 180 * UNITS_PER_DEGREE;

/// The raw value reduced into `[0, TURN)`.
pub open spec fn degrees_of(raw: int) -> int {
    raw % (TURN as int)
}

/// The number of whole turns below the raw value: `floor(raw / TURN)`.
pub open spec fn rotations_of(raw: int) -> int {
    raw / (TURN as int)
}

/// The raw value in millionths of a turn, rounded down.
pub open spec fn progress_of(raw: int) -> int {
    raw / (DEGREES_PER_TURN as int)
}

/// The raw value that a GIS longitude starts from: negative longitudes are moved up one turn.
pub open spec fn gis_raw(lng: int) -> int {
    if lng < 0 {
        TURN + lng
    } else {
        lng
    }
}

/// A degree value in `[0, TURN)` on the GIS scale `(-HALF_TURN, HALF_TURN]`.
pub open spec fn gis_of(deg: int) -> int {
    if deg <= HALF_TURN {
        deg
    } else {
        deg - TURN
    }
}

/// A degree difference brought by one turn towards zero when it reaches half a turn or more;
/// a difference of exactly half a turn either way comes out as `+HALF_TURN`.
pub open spec fn wrap_half(diff: int) -> int {
    if diff <= -HALF_TURN {
        diff + TURN
    } else if diff > HALF_TURN {
        diff - TURN
    } else {
        diff
    }
}

/// The shortest signed angle from raw value `from` to raw value `to`: the difference of
/// their degree values, brought into `(-HALF_TURN, HALF_TURN]`.
pub open spec fn angle_of(from: int, to: int) -> int {
    wrap_half(degrees_of(to) - degrees_of(from))
}

/// A signed angle as a clockwise turn: negative angles are moved up one turn.
pub open spec fn clockwise(angle: int) -> int {
    if angle < 0 {
        TURN + angle
    } else {
        angle
    }
}

/// Integer division rounded toward zero, as Rust's `/` does it.
pub open spec fn quotient_toward_zero(a: int, b: int) -> int {
    if (a >= 0) == (b > 0) {
        if a >= 0 {
            a / b
        } else {
            (-a) / (-b)
        }
    } else {
        if a >= 0 {
            -(a / (-b))
        } else {
            -((-a) / b)
        }
    }
}

/// Integer division of products of `i64` values, rounded toward zero.
fn quotient_of_wide(a: i128, b: i128) -> (q: i128)
    requires
        -0x4000_0000_0000_0000_0000_0000_0000_0000 < a < 0x4000_0000_0000_0000_0000_0000_0000_0000,
        -0x4000_0000_0000_0000_0000_0000_0000_0000 < b < 0x4000_0000_0000_0000_0000_0000_0000_0000,
        b != 0,
    ensures
        q == quotient_toward_zero(a as int, b as int),
{
    if b > 0 {
        a / b
    } else {
        (0 - a) / (0 - b)
    }
}

/// A value on the 360-degree ring, held as its raw value in millionths of a degree.
///
/// The raw value may be negative or span several turns; it is reduced only when read.
#[derive(Debug, Clone, Copy, PartialEq, Eq, Structural)]
pub struct Ring360(pub i64);

impl Ring360 {
    /// One full turn, in units: every degree value is reduced by it.
    pub const BASE: i64 = TURN;

    /// A value from a longitude on the GIS scale (-180..180 degrees, in units).
    ///
    /// It has the same degrees as `Ring360(lng180)`, but a negative longitude starts one
    /// turn higher, so that its rotation count is 0 rather than -1.
    pub fn from_gis(lng180: i64) -> (r: Ring360)
        ensures
            r.0 == gis_raw(lng180 as int),
    {
        if lng180 < 0 {
            Ring360(Self::BASE + lng180)
        } else {
            Ring360(lng180)
        }
    }

    /// The degree value on the 0..360 scale, in units: the raw value reduced into `[0, TURN)`.
    pub fn degrees(&self) -> (r: i64)
        ensures
            r == degrees_of(self.0 as int),
            0 <= r < TURN,
    {
        let deg_val = self.0 % Self::BASE;
        if deg_val < 0 {
            Self::BASE - (0 - deg_val)
        } else {
            deg_val
        }
    }

    /// The default numeric conversion: the degree value, as [`Ring360::degrees`] gives it.
    pub fn to_f64(&self) -> (r: i64)
        ensures
            r == degrees_of(self.0 as int),
    {
        self.degrees()
    }

    /// The degree value on the GIS scale `(-HALF_TURN, HALF_TURN]`.
    pub fn to_gis(&self) -> (r: i64)
        ensures
            r == gis_of(degrees_of(self.0 as int)),
            -HALF_TURN < r <= HALF_TURN,
    {
        let deg = self.degrees();
        if deg <= Self::half_turn() {
            deg
        } else {
            deg - Self::BASE
        }
    }

    /// The signed number of whole turns: the raw value divided by one turn, rounded down.
    pub fn rotations(&self) -> (r: i64)
        ensures
            r == rotations_of(self.0 as int),
    {
        let q = self.0 / Self::BASE;
        if self.0 % Self::BASE < 0 {
            q - 1
        } else {
            q
        }
    }

    /// The raw value as a fraction of a turn, in millionths of a turn, rounded down:
    /// 180 degrees give 500_000 and 450 degrees 1_250_000.
    pub fn progress(&self) -> (r: i64)
        ensures
            r == progress_of(self.0 as int),
    {
        let q = self.0 / DEGREES_PER_TURN;
        if self.0 % DEGREES_PER_TURN < 0 {
            q - 1
        } else {
            q
        }
    }

    /// The raw value, unreduced.
    pub fn value(&self) -> (r: i64)
        ensures
            r == self.0,
    {
        self.0
    }

    /// Half a turn, in units.
    pub fn half_turn() -> (r: i64)
        ensures
            r == HALF_TURN,
    {
        Self::BASE / 2
    }

    /// Minus half a turn, in units.
    pub fn minus_half_turn() -> (r: i64)
        ensures
            r == -HALF_TURN,
    {
        0 - Self::BASE / 2
    }

    /// The degree value and the rotation count together.
    pub fn as_tuple(&self) -> (r: (i64, i64))
        ensures
            r.0 == degrees_of(self.0 as int),
            r.1 == rotations_of(self.0 as int),
    {
        (self.degrees(), self.rotations())
    }

    /// The raw value multiplied by an integer factor.
    pub fn multiply(self, multiple: i64) -> (r: Ring360)
        requires
            i64::MIN <= self.0 * multiple <= i64::MAX,
        ensures
            r.0 == self.0 * multiple,
    {
        Ring360(self.0 * multiple)
    }

    /// The raw value divided by a non-zero integer, rounded toward zero.
    pub fn divide(self, divisor: i64) -> (r: Ring360)
        requires
            divisor != 0,
            !(self.0 == i64::MIN && divisor == -1),
        ensures
            r.0 == quotient_toward_zero(self.0 as int, divisor as int),
    {
        if divisor > 0 {
            Ring360(self.0 / divisor)
        } else if divisor == i64::MIN {
            // no other raw value is as large in magnitude as this divisor
            if self.0 == i64::MIN {
                Ring360(1)
            } else {
                Ring360(0)
            }
        } else {
            // divide by the divisor's magnitude, then negate; the quotient can be `i64::MIN`
            // only for the raw value `i64::MIN` divided by -1, which is excluded
            let d = 0 - divisor;
            let q = self.0 / d;
            proof {
                let a = self.0 as int;
                if a < 0 {
                    assert((-a) / (d as int) < 0x8000_0000_0000_0000) by (nonlinear_arith)
                        requires
                            0 < -a <= 0x8000_0000_0000_0000,
                            d >= 1,
                            d >= 2 || -a < 0x8000_0000_0000_0000,
                    ;
                }
            }
            Ring360(0 - q)
        }
    }

    /// The raw value scaled by a fractional factor given in millionths (`FACTOR_ONE` is a
    /// factor of one, `FACTOR_ONE / 2` halves), rounded toward zero.
    pub fn scale(self, multiplier: i64) -> (r: Ring360)
        requires
            i64::MIN <= quotient_toward_zero(self.0 * multiplier, FACTOR_ONE as int) <= i64::MAX,
        ensures
            r.0 == quotient_toward_zero(self.0 * multiplier, FACTOR_ONE as int),
    {
        let product = (self.0 as i128) * (multiplier as i128);
        Ring360(quotient_of_wide(product, FACTOR_ONE as i128) as i64)
    }

    /// The raw value divided by a non-zero fractional divisor given in millionths
    /// (`FACTOR_ONE / 2` doubles), rounded toward zero.
    pub fn divide_scaled(self, divisor: i64) -> (r: Ring360)
        requires
            divisor != 0,
            i64::MIN <= quotient_toward_zero(self.0 * FACTOR_ONE, divisor as int) <= i64::MAX,
        ensures
            r.0 == quotient_toward_zero(self.0 * FACTOR_ONE, divisor as int),
    {
        let product = (self.0 as i128) * (FACTOR_ONE as i128);
        Ring360(quotient_of_wide(product, divisor as i128) as i64)
    }

    /// The shortest signed angle from this value to a raw degree value, in units.
    ///
    /// The other value is first reduced into `[0, TURN)`. Positive means clockwise
    /// (increasing degrees). A half-turn tie comes out as `+HALF_TURN`.
    pub fn angle_f64(&self, other_value: i64) -> (r: i64)
        ensures
            r == angle_of(self.0 as int, other_value as int),
            -HALF_TURN < r <= HALF_TURN,
    {
        let mut diff = Ring360(other_value).degrees() - self.degrees();
        if diff <= Self::minus_half_turn() {
            diff += Self::BASE;
        } else if diff > Self::half_turn() {
            diff -= Self::BASE;
        }
        diff
    }

    /// The clockwise angle from this value to a raw degree value, in `[0, TURN)`.
    pub fn angle_f64_abs(&self, other_value: i64) -> (r: i64)
        ensures
            r == degrees_of(degrees_of(other_value as int) - degrees_of(self.0 as int)),
            0 <= r < TURN,
    {
        let relative_value = self.angle_f64(other_value);
        if relative_value < 0 {
            Self::BASE + relative_value
        } else {
            relative_value
        }
    }

    /// The shortest signed angle from this value to another, in `(-HALF_TURN, HALF_TURN]`.
    pub fn angle(&self, other_value: Ring360) -> (r: i64)
        ensures
            r == angle_of(self.0 as int, other_value.0 as int),
            -HALF_TURN < r <= HALF_TURN,
    {
        self.angle_f64(other_value.degrees())
    }

    /// The clockwise angle from this value to another, in `[0, TURN)`: the other value's
    /// degrees minus this one's, reduced by one turn.
    pub fn angle_abs(&self, other_value: Ring360) -> (r: i64)
        ensures
            r == degrees_of(degrees_of(other_value.0 as int) - degrees_of(self.0 as int)),
            0 <= r < TURN,
    {
        self.angle_f64_abs(other_value.degrees())
    }
}

impl vstd::std_specs::ops::AddSpecImpl for Ring360 {
    open spec fn obeys_add_spec() -> bool {
        true
    }

    open spec fn add_req(self, rhs: Ring360) -> bool {
        i64::MIN <= self.0 + rhs.0 <= i64::MAX
    }

    open spec fn add_spec(self, rhs: Ring360) -> Ring360 {
        Ring360((self.0 + rhs.0) as i64)
    }
}

impl core::ops::Add for Ring360 {
    type Output = Ring360;

    /// The sum of the raw values; its degrees are those of the two degree values added.
    fn add(self, other: Ring360) -> (r: Ring360)
        ensures
            r.0 == self.0 + other.0,
            degrees_of(r.0 as int) == degrees_of(self.0 + other.0),
            degrees_of(r.0 as int) == degrees_of(
                degrees_of(self.0 as int) + degrees_of(other.0 as int),
            ),
    {
        proof {
            crate::laws::lemma_add_sub_commute_with_reduction(self, other);
        }
        Ring360(self.0 + other.value())
    }
}

impl vstd::std_specs::ops::SubSpecImpl for Ring360 {
    open spec fn obeys_sub_spec() -> bool {
        true
    }

    open spec fn sub_req(self, rhs: Ring360) -> bool {
        i64::MIN <= self.0 - rhs.0 <= i64::MAX
    }

    open spec fn sub_spec(self, rhs: Ring360) -> Ring360 {
        Ring360((self.0 - rhs.0) as i64)
    }
}

impl core::ops::Sub for Ring360 {
    type Output = Ring360;

    /// The difference of the raw values; its degrees are those of the two degree values
    /// subtracted.
    fn sub(self, other: Ring360) -> (r: Ring360)
        ensures
            r.0 == self.0 - other.0,
            degrees_of(r.0 as int) == degrees_of(self.0 - other.0),
            degrees_of(r.0 as int) == degrees_of(
                degrees_of(self.0 as int) - degrees_of(other.0 as int),
            ),
    {
        proof {
            crate::laws::lemma_add_sub_commute_with_reduction(self, other);
        }
        Ring360(self.0 - other.value())
    }
}

} // verus!
