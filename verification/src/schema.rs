//! Row shapes of the archive database.

use vstd::prelude::*;

verus! {

/// One row of the archive table. Each measurement column is absent or holds
/// a real value as its binary64 bit pattern.
#[derive(Debug, Clone, Copy, PartialEq, Eq, Structural)]
pub struct ArchiveRow {
    /// The end of the interval.
    pub date_time: i64,
    /// The unit-system tag of the values.
    pub us_units: i32,
    /// The interval's length in seconds.
    pub interval: i32,
    pub out_temp: Option<u64>,
    pub in_temp: Option<u64>,
    pub extra_temp1: Option<u64>,
    pub out_humidity: Option<u64>,
    pub in_humidity: Option<u64>,
    pub barometer: Option<u64>,
    pub pressure: Option<u64>,
    pub altimeter: Option<u64>,
    pub wind_speed: Option<u64>,
    pub wind_dir: Option<u64>,
    pub wind_gust: Option<u64>,
    pub wind_gust_dir: Option<u64>,
    pub rain: Option<u64>,
    pub rain_rate: Option<u64>,
    pub dewpoint: Option<u64>,
    pub windchill: Option<u64>,
    pub heatindex: Option<u64>,
    pub radiation: Option<u64>,
    pub uv: Option<u64>,
    pub rx_check_percent: Option<u64>,
}

/// One row of the metadata table.
#[derive(Debug, Clone, PartialEq, Eq)]
pub struct MetadataRow {
    pub name: String,
    pub value: String,
}

/// One row of the daily summary table; the extremes and the sum are real
/// values as binary64 bit patterns.
#[derive(Debug, Clone, PartialEq, Eq)]
pub struct DailySummaryRow {
    pub date_time: i64,
    pub obs_type: String,
    pub min: Option<u64>,
    pub max: Option<u64>,
    pub sum: Option<u64>,
    pub count: i32,
}

/// The schema version that the rows above belong to.
pub const EXPECTED_SCHEMA_VERSION: &'static str = "4.0";

} // verus!
