//! Unit-system tags carried by archive records.

use vstd::prelude::*;

verus! {

/// US customary units.
pub const US: i32 = 1;

/// Metric units.
pub const METRIC: i32 = 16;

/// Metric units with wind speed in metres per second and rain in millimetres.
pub const METRICWX: i32 = 17;

} // verus!
