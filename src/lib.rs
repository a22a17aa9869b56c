//! Values on the 360-degree ring: compass bearings, longitudes, phases.
//!
//! A [`Ring360`] keeps its raw value unreduced, as an exact count of millionths of a
//! degree, and reduces it only when read: into `[0, 360)` degrees, a signed count of
//! whole turns, the shortest signed angle to another value, or the -180..180 GIS scale.
use vstd::prelude::*;

pub mod ring;
pub mod convert;
pub mod laws;
pub mod text;

pub use ring::{Ring360, UNITS_PER_DEGREE, DEGREES_PER_TURN, TURN, HALF_TURN, FACTOR_ONE};
pub use convert::ToRing360;
