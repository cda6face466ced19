//! The command line of the viewer.
use vstd::prelude::*;

verus! {

/// How many characters of a metadata value are shown when nothing else is asked.
pub const DEFAULT_MAX_VALUE_LENGTH: usize = 300;

/// The viewer's command line: the file to open, and how long metadata values
/// may be before they are cut (unless cutting is off).
#[derive(Debug, Clone, PartialEq, Eq)]
pub struct Args {
    /// Path to the parquet file to analyze.
    pub filename: String,
    /// Maximum number of characters of a metadata value shown before it is cut.
    pub max_value_length: usize,
    /// Show metadata values whole.
    pub no_truncate: bool,
}

} // verus!
