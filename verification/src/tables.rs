//! Table names of the archive database.

use vstd::prelude::*;

verus! {

/// The table of archive rows.
pub const ARCHIVE: &'static str = "archive";

/// The table of metadata rows.
pub const METADATA: &'static str = "archive_metadata";

/// The table of daily summaries.
pub const DAILY_SUMMARY: &'static str = "archive_day_summary";

} // verus!
