//! Weather-telemetry ingestion and aggregation: the canonical packet model,
//! the aggregation tables, the interval buffer and aggregator, the station
//! driver state machine, the live state and the vendor-dialect intake.

pub mod text;
pub mod field_map;
pub mod unit_systems;
pub mod types;
pub mod errors;
pub mod buffer;
pub mod rollups;
pub mod schema;
pub mod tables;
pub mod clock;
pub mod aggregator;
pub mod live;
pub mod driver;
pub mod intake;
pub mod units;
pub mod client;
pub mod config;
