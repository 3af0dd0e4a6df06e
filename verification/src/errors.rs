//! The error taxonomy of the archive, database and ingest layers.

use vstd::prelude::*;

verus! {

/// A failure of the database layer.
#[derive(Debug, Clone, PartialEq, Eq)]
pub enum DbError {
    /// The connection or a statement failed; the text says how.
    ConnectionError(String),
    /// The configuration cannot be used.
    ConfigError(String),
    /// No such record.
    NotFound,
    /// A constraint of the schema was violated.
    ConstraintViolation(String),
}

/// A failure of the archive layer.
#[derive(Debug, Clone, PartialEq, Eq)]
pub enum ArchiveError {
    /// The sink failed to store a record.
    DatabaseError(DbError),
    /// The aggregates could not be computed.
    AggregationError(String),
    /// The interval length cannot be used.
    InvalidInterval(String),
    /// The interval buffer already holds as many packets as it may.
    BufferOverflow,
}

/// The result of an archive operation.
pub type ArchiveResult<T> = Result<T, ArchiveError>;

/// The result of a database operation.
pub type DbResult<T> = Result<T, DbError>;

/// A failure of a station driver.
#[derive(Debug, Clone, PartialEq, Eq)]
pub enum IngestError {
    /// The driver was used against its state machine.
    DriverError(String),
    /// The socket failed.
    CommunicationError(String),
    /// A datagram did not hold a packet.
    InvalidPacket(String),
    /// No datagram arrived in time.
    Timeout,
}

/// The result of a driver operation.
pub type IngestResult<T> = Result<T, IngestError>;

} // verus!
