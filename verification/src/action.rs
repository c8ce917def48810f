//! What passes between a log call and the caller that performs it: the
//! action asked for, and the event that reports how it went.

use vstd::prelude::*;
use crate::error::ErrorCode;

verus! {

/// What the caller is asked to do next.
#[derive(Debug, PartialEq, Eq)]
pub enum Action {
    /// Open the file at `path` for reading and writing, create it if it
    /// does not exist, never truncate it, and read its first line.
    ReadFirstLine { path: String },
    /// Open the file at `path` for appending, which must exist, write
    /// `text` at its end and flush.
    Append { path: String, text: String },
    /// Nothing: the call has ended with `result`.
    Finish { result: Result<(), ErrorCode> },
}

/// What an [`Action`] stands for.
pub enum ActionView {
    ReadFirstLine { path: Seq<char> },
    Append { path: Seq<char>, text: Seq<char> },
    Finish { result: Result<(), ErrorCode> },
}

impl View for Action {
    type V = ActionView;

    open spec fn view(&self) -> ActionView {
        match self {
            Action::ReadFirstLine { path } => ActionView::ReadFirstLine { path: path@ },
            Action::Append { path, text } => ActionView::Append { path: path@, text: text@ },
            Action::Finish { result } => ActionView::Finish { result: *result },
        }
    }
}

/// How the action went.
#[derive(Debug, PartialEq, Eq)]
pub enum Event {
    /// The file was opened and read: `line` is its first line without the
    /// line ending, or `None` where the file holds no text.
    FirstLine { line: Option<String> },
    /// The text was written and flushed.
    Written,
    /// The action failed.
    Failed,
}

/// What an [`Event`] stands for.
pub enum EventView {
    FirstLine { line: Option<Seq<char>> },
    Written,
    Failed,
}

impl View for Event {
    type V = EventView;

    open spec fn view(&self) -> EventView {
        match self {
            Event::FirstLine { line } => EventView::FirstLine { line: line.deep_view() },
            Event::Written => EventView::Written,
            Event::Failed => EventView::Failed,
        }
    }
}

} // verus!
