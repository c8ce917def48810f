//! The row appender: what becomes of a row once its append has been tried.

use vstd::prelude::*;
use crate::action::{Event, EventView};
use crate::error::ErrorCode;

verus! {

/// What the row appender returns for the event that answers its append:
/// success where the text was written, and
/// [`ErrorCode::FailedAddCsvData`] for whatever else.
pub open spec fn row_result(event: EventView) -> Result<(), ErrorCode> {
    match event {
        EventView::Written => Ok(()),
        _ => Err(ErrorCode::FailedAddCsvData),
    }
}

/// The row appender's result, from how the append went. The file is
/// opened for appending and must exist: a file that cannot be opened, a
/// write that fails and a flush that fails are all reported as
/// [`Event::Failed`].
pub fn add_csv_line(event: &Event) -> (result: Result<(), ErrorCode>)
    ensures
        result == row_result(event@),
{
    match event {
        Event::Written => Ok(()),
        _ => Err(ErrorCode::FailedAddCsvData),
    }
}

} // verus!
