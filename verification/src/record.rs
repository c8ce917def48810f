//! One log record and the line of text that it becomes.

use vstd::prelude::*;
use crate::text::{
    all_free_of, comma_fields, free_of, lemma_comma_fields_free_of, lemma_split_fields, split,
    vec_to_string,
};
use crate::timestamp::{lemma_text_chars, Timestamp, TimestampView};

verus! {

/// The row of a record without its line ending: the timestamp, then each
/// value behind a comma. Values are written as they are, without quoting
/// or escaping.
pub open spec fn row_body(date_time: TimestampView, log_content: Seq<Seq<char>>) -> Seq<char> {
    date_time.text() + comma_fields(log_content)
}

/// The line of a record: its row and a newline. No blank line goes in
/// front of it.
pub open spec fn row_text(date_time: TimestampView, log_content: Seq<Seq<char>>) -> Seq<char> {
    row_body(date_time, log_content) + seq!['\n']
}

/// The values come back from the row as they went in: where none of them
/// holds a comma, the comma-separated fields of the row are the timestamp
/// and then the values, unchanged and in order.
pub proof fn values_round_trip(date_time: TimestampView, log_content: Seq<Seq<char>>)
    requires
        date_time.valid(),
        all_free_of(log_content, ','),
    ensures
        split(row_body(date_time, log_content), ',') == seq![date_time.text()] + log_content,
{
    lemma_text_chars(date_time);
    lemma_split_fields(date_time.text(), log_content);
}

/// A record without values is written as its timestamp alone: no comma
/// follows it.
pub proof fn record_without_values(date_time: TimestampView)
    ensures
        row_text(date_time, Seq::empty()) == date_time.text() + seq!['\n'],
{
}

/// A row whose values hold no newline holds none, and begins with a
/// character of its timestamp, which is no blank.
pub proof fn lemma_row_body_is_one_line(date_time: TimestampView, log_content: Seq<Seq<char>>)
    requires
        date_time.valid(),
        all_free_of(log_content, '\n'),
    ensures
        free_of(row_body(date_time, log_content), '\n'),
        row_body(date_time, log_content).len() > 0,
        row_body(date_time, log_content)[0] == date_time.text()[0],
{
    lemma_text_chars(date_time);
    lemma_comma_fields_free_of(log_content, '\n');
}

/// What a [`LogStruct`] stands for.
pub struct LogStructView {
    pub date_time: TimestampView,
    pub log_content: Seq<Seq<char>>,
}

/// A record: the moment it was logged and its values, in order.
#[derive(Debug)]
pub struct LogStruct {
    date_time: Timestamp,
    log_content: Vec<String>,
}

impl View for LogStruct {
    type V = LogStructView;

    closed spec fn view(&self) -> LogStructView {
        LogStructView { date_time: self.date_time@, log_content: self.log_content.deep_view() }
    }
}

impl LogStruct {
    /// The record of the given moment and values.
    pub fn new(date_time: Timestamp, log_content: Vec<String>) -> (record: LogStruct)
        ensures
            record@.date_time == date_time@,
            record@.log_content == log_content.deep_view(),
    {
        LogStruct { date_time, log_content }
    }

    /// The line of the record, as it is appended to the target file.
    pub fn to_line(&self) -> (line: String)
        ensures
            line@ == row_text(self@.date_time, self@.log_content),
    {
        let mut line = self.date_time.to_text();
        let fields = vec_to_string(&self.log_content);
        line.append(fields.as_str());
        line.append("\n");
        proof {
            reveal_strlit("\n");
        }
        line
    }
}

} // verus!
