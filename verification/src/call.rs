//! One log call as a sequence of file actions.
//!
//! The logger never touches the target file. A [`LogCall`] names the next
//! action, the caller performs it and reports how it went, and the call
//! moves on: first the header check, then the header line where it is
//! missing, then the row.

use vstd::prelude::*;
use crate::action::{Action, ActionView, Event, EventView};
use crate::appender::{add_csv_line, row_result};
use crate::config::{joined_path, to_csv_path, Logger};
use crate::error::ErrorCode;
use crate::header::{add_csv_column, header_check};
use crate::record::{row_text, LogStruct};
use crate::timestamp::{Timestamp, TimestampView};

verus! {

/// How far a log call has come.
#[derive(Debug)]
enum Phase {
    CheckHeader,
    WriteHeader { column_str: String },
    WriteRow,
    Finished { result: Result<(), ErrorCode> },
}

/// What the phase of a call stands for.
pub enum PhaseView {
    /// The first line of the file is to be read.
    CheckHeader,
    /// The header line `column_str` is to be appended.
    WriteHeader { column_str: Seq<char> },
    /// The row is to be appended.
    WriteRow,
    /// The call has ended.
    Finished { result: Result<(), ErrorCode> },
}

impl View for Phase {
    type V = PhaseView;

    closed spec fn view(&self) -> PhaseView {
        match self {
            Phase::CheckHeader => PhaseView::CheckHeader,
            Phase::WriteHeader { column_str } => PhaseView::WriteHeader { column_str: column_str@ },
            Phase::WriteRow => PhaseView::WriteRow,
            Phase::Finished { result } => PhaseView::Finished { result: *result },
        }
    }
}

/// A log call under way.
#[derive(Debug)]
pub struct LogCall {
    phase: Phase,
    csv_path: String,
    column: String,
    line: String,
}

/// What a [`LogCall`] stands for.
pub struct LogCallView {
    /// How far the call has come.
    pub phase: PhaseView,
    /// The path of the target file.
    pub csv_path: Seq<char>,
    /// The header line, without its newline.
    pub column: Seq<char>,
    /// The row to append, with its newline.
    pub line: Seq<char>,
}

impl View for LogCall {
    type V = LogCallView;

    closed spec fn view(&self) -> LogCallView {
        LogCallView {
            phase: self.phase@,
            csv_path: self.csv_path@,
            column: self.column@,
            line: self.line@,
        }
    }
}

impl LogCallView {
    /// A call that has not begun its work.
    pub open spec fn begin(csv_path: Seq<char>, column: Seq<char>, line: Seq<char>) -> LogCallView {
        LogCallView { phase: PhaseView::CheckHeader, csv_path, column, line }
    }

    /// The action that the call asks for.
    pub open spec fn action(self) -> ActionView {
        match self.phase {
            PhaseView::CheckHeader => ActionView::ReadFirstLine { path: self.csv_path },
            PhaseView::WriteHeader { column_str } => ActionView::Append {
                path: self.csv_path,
                text: column_str,
            },
            PhaseView::WriteRow => ActionView::Append { path: self.csv_path, text: self.line },
            PhaseView::Finished { result } => ActionView::Finish { result },
        }
    }

    /// The call in a given phase.
    pub open spec fn at(self, phase: PhaseView) -> LogCallView {
        LogCallView { phase, ..self }
    }

    /// The call after `event`. The header is ensured first, and the row
    /// appended only once that has gone well. Whatever goes wrong while
    /// the header is checked or written ends the call with
    /// [`ErrorCode::FailedAddCsvColumn`], and whatever goes wrong while the
    /// row is written with [`ErrorCode::FailedAddCsvData`]; an event that
    /// does not answer the action counts as a failure of it. A call that
    /// has ended stays as it is.
    pub open spec fn step(self, event: EventView) -> LogCallView {
        match self.phase {
            PhaseView::CheckHeader => match header_check(self.column, event) {
                Ok(Some(column_str)) => self.at(PhaseView::WriteHeader { column_str }),
                Ok(None) => self.at(PhaseView::WriteRow),
                Err(error_code) => self.at(PhaseView::Finished { result: Err(error_code) }),
            },
            PhaseView::WriteHeader { .. } => match event {
                EventView::Written => self.at(PhaseView::WriteRow),
                _ => self.at(PhaseView::Finished { result: Err(ErrorCode::FailedAddCsvColumn) }),
            },
            PhaseView::WriteRow => self.at(PhaseView::Finished { result: row_result(event) }),
            PhaseView::Finished { .. } => self,
        }
    }
}

impl LogCall {
    /// Begins the call that logs `record` to the target file of `logger`.
    pub fn begin(logger: &Logger, record: &LogStruct) -> (call: LogCall)
        requires
            logger@ is Configured,
        ensures
            call@ == LogCallView::begin(
                joined_path(logger@->current_dir, "log.csv"@),
                logger@->column,
                row_text(record@.date_time, record@.log_content),
            ),
    {
        let csv_path = to_csv_path(logger);
        let line = record.to_line();
        match logger.header() {
            Some(column) => LogCall { phase: Phase::CheckHeader, csv_path, column, line },
            None => unreached(),
        }
    }

    /// The action that the call asks for next.
    pub fn action(&self) -> (action: Action)
        ensures
            action@ == self@.action(),
    {
        match &self.phase {
            Phase::CheckHeader => Action::ReadFirstLine { path: self.csv_path.clone() },
            Phase::WriteHeader { column_str } => Action::Append {
                path: self.csv_path.clone(),
                text: column_str.clone(),
            },
            Phase::WriteRow => Action::Append {
                path: self.csv_path.clone(),
                text: self.line.clone(),
            },
            Phase::Finished { result } => Action::Finish { result: *result },
        }
    }

    /// The result of the call, once it has ended.
    pub fn result(&self) -> (result: Option<Result<(), ErrorCode>>)
        ensures
            result == match self@.phase {
                PhaseView::Finished { result } => Some(result),
                _ => None,
            },
    {
        match &self.phase {
            Phase::Finished { result } => Some(*result),
            _ => None,
        }
    }

    /// Takes in how the action went and moves the call on.
    pub fn step(self, event: Event) -> (next: LogCall)
        ensures
            next@ == self@.step(event@),
    {
        let LogCall { phase, csv_path, column, line } = self;
        let phase = match phase {
            Phase::CheckHeader => match add_csv_column(column.as_str(), &event) {
                Ok(Some(column_str)) => Phase::WriteHeader { column_str },
                Ok(None) => Phase::WriteRow,
                Err(error_code) => Phase::Finished { result: Err(error_code) },
            },
            Phase::WriteHeader { column_str } => match event {
                Event::Written => Phase::WriteRow,
                _ => Phase::Finished { result: Err(ErrorCode::FailedAddCsvColumn) },
            },
            Phase::WriteRow => Phase::Finished { result: add_csv_line(&event) },
            Phase::Finished { result } => Phase::Finished { result },
        };
        LogCall { phase, csv_path, column, line }
    }
}

/// Begins a log call for `log_content`, stamped with the local time at
/// which it is made.
pub fn loglog(logger: &Logger, log_content: Vec<String>) -> (call: LogCall)
    requires
        logger@ is Configured,
    ensures
        exists|date_time: TimestampView|
            date_time.valid() && call@ == LogCallView::begin(
                joined_path(logger@->current_dir, "log.csv"@),
                logger@->column,
                #[trigger] row_text(date_time, log_content.deep_view()),
            ),
{
    let content = LogStruct::new(Timestamp::now(), log_content);
    LogCall::begin(logger, &content)
}

} // verus!
