//! The ways in which a log call can fail.

use vstd::prelude::*;

verus! {

/// Why a log call did not write its row.
#[derive(Debug, Clone, Copy, PartialEq, Eq, Structural)]
pub enum ErrorCode {
    /// The target file could not be opened or created for the header check,
    /// its first line could not be read, or the header line could not be
    /// written.
    FailedAddCsvColumn,
    /// The target file could not be opened for appending, or the row could
    /// not be written.
    FailedAddCsvData,
}

} // verus!
