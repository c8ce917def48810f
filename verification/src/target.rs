//! The target file as a log call meets it, and what log calls leave in it.
//!
//! The file is its text, or nothing while it does not exist. A caller that
//! performs each action of a call as it is described, on a file system
//! where nothing fails, is followed here step by step.

use vstd::prelude::*;
use crate::action::{ActionView, EventView};
use crate::call::{LogCallView, PhaseView};
use crate::config::{header_text, lemma_header_is_one_line};
use crate::error::ErrorCode;
use crate::header::{header_matches, header_to_write};
use crate::record::{lemma_row_body_is_one_line, row_body, row_text, LogStructView};
use crate::text::{
    all_free_of, comma_joined, free_of, lemma_prefix_len_found, lemma_prefix_len_kept,
    lemma_split_front, lemma_split_whole, lemma_trim_end_keeps_front, lines, prefix_len,
};
use crate::timestamp::lemma_text_chars;

verus! {

/// The first line of `text` as a line reader hands it out: the characters
/// in front of the first newline, without the carriage return that may
/// stand directly before it, or all of `text` where it holds no newline.
/// A file without text has no first line.
pub open spec fn first_line(text: Seq<char>) -> Option<Seq<char>> {
    let n = prefix_len(text, '\n') as int;
    let line = text.take(n);
    if text.len() == 0 {
        None
    } else if n < text.len() && line.len() > 0 && line.last() == '\r' {
        Some(line.drop_last())
    } else {
        Some(line)
    }
}

/// What performing `action` does to the file, and the event that reports
/// it. Reading the first line creates a file that does not exist and
/// leaves one that does as it is; appending adds the text at the end of a
/// file that exists and fails where there is none. A call that has ended
/// asks for nothing: the file stays as it is, and there is nothing to
/// report.
pub open spec fn perform(file: Option<Seq<char>>, action: ActionView) -> (
    Option<Seq<char>>,
    Option<EventView>,
) {
    match action {
        ActionView::ReadFirstLine { .. } => {
            let text = text_of(file);
            (Some(text), Some(EventView::FirstLine { line: first_line(text) }))
        },
        ActionView::Append { text, .. } => match file {
            Some(held) => (Some(held + text), Some(EventView::Written)),
            None => (None, Some(EventView::Failed)),
        },
        ActionView::Finish { .. } => (file, None),
    }
}

/// The text that the file holds: none while it does not exist.
pub open spec fn text_of(file: Option<Seq<char>>) -> Seq<char> {
    match file {
        Some(text) => text,
        None => Seq::empty(),
    }
}

/// One turn of a call: its action is performed and the event handed back.
/// A call that has ended takes no turn.
pub open spec fn turn(call: LogCallView, file: Option<Seq<char>>) -> (
    LogCallView,
    Option<Seq<char>>,
) {
    match perform(file, call.action()) {
        (after, Some(event)) => (call.step(event), after),
        (after, None) => (call, after),
    }
}

/// A whole call: three turns, which end every call.
#[verifier::opaque]
pub open spec fn run(call: LogCallView, file: Option<Seq<char>>) -> (
    LogCallView,
    Option<Seq<char>>,
) {
    let (first, file1) = turn(call, file);
    let (second, file2) = turn(first, file1);
    turn(second, file2)
}

/// The text of the file after a call that logs `line` under the header
/// `column`: what it held, then the header line where its first line did
/// not count as one, then the row.
pub open spec fn logged(file: Option<Seq<char>>, column: Seq<char>, line: Seq<char>) -> Seq<char> {
    match header_to_write(first_line(text_of(file)), column) {
        Some(column_str) => text_of(file) + column_str + line,
        None => text_of(file) + line,
    }
}

/// The file only grows: whatever state a call is in, its turn leaves what
/// the file held in front of what it holds afterwards, and a file that
/// exists goes on existing.
pub proof fn file_only_grows(call: LogCallView, file: Option<Seq<char>>)
    ensures
        text_of(file).len() <= text_of(turn(call, file).1).len(),
        text_of(turn(call, file).1).take(text_of(file).len() as int) == text_of(file),
        file is Some ==> turn(call, file).1 is Some,
{
}

/// Every call ends within three events, whatever they are.
pub proof fn call_ends(
    csv_path: Seq<char>,
    column: Seq<char>,
    line: Seq<char>,
    first: EventView,
    second: EventView,
    third: EventView,
)
    ensures
        LogCallView::begin(csv_path, column, line).step(first).step(second).step(third).phase
            is Finished,
{
}

/// A call whose first action fails ends at once with
/// [`ErrorCode::FailedAddCsvColumn`]: it has asked for nothing to be
/// written.
pub proof fn failed_check_ends_call(csv_path: Seq<char>, column: Seq<char>, line: Seq<char>)
    ensures
        LogCallView::begin(csv_path, column, line).action() is ReadFirstLine,
        LogCallView::begin(csv_path, column, line).step(EventView::Failed).action()
            == (ActionView::Finish { result: Err(ErrorCode::FailedAddCsvColumn) }),
{
}

/// Where no action fails, a call ends well, whether the file existed or
/// not, and leaves in it what [`logged`] says.
pub proof fn call_succeeds(
    csv_path: Seq<char>,
    column: Seq<char>,
    line: Seq<char>,
    file: Option<Seq<char>>,
)
    ensures
        run(LogCallView::begin(csv_path, column, line), file) == (
            LogCallView::begin(csv_path, column, line).at(PhaseView::Finished { result: Ok(()) }),
            Some(logged(file, column, line)),
        ),
{
    reveal(run);
}

/// A file that begins with its header line keeps it: a call adds its row
/// at the end and nothing else, what the file held stays in front, and the
/// first line is the same for the next call.
pub proof fn header_is_written_once(file: Seq<char>, column: Seq<char>, line: Seq<char>)
    requires
        prefix_len(file, '\n') < file.len(),
        header_matches(first_line(file).unwrap(), column),
    ensures
        logged(Some(file), column, line) == file + line,
        first_line(file + line) == first_line(file),
{
    lemma_prefix_len_kept(file, '\n', line);
}

/// The first call in a directory without a target file ends well and
/// leaves the file with the header line, `date time,` and the column names
/// joined by commas, and then the row. Where no column name holds a
/// newline, the header is the first line of the file.
pub proof fn first_call_writes_header(
    csv_path: Seq<char>,
    columns: Seq<Seq<char>>,
    record: LogStructView,
)
    ensures
        ({
            let column = "date time"@ + seq![','] + comma_joined(columns);
            let line = row_text(record.date_time, record.log_content);
            let (call, file) = run(LogCallView::begin(csv_path, header_text(columns), line), None);
            &&& call.phase == PhaseView::Finished { result: Ok(()) }
            &&& file == Some(column + seq!['\n'] + line)
            &&& all_free_of(columns, '\n') ==> lines(file.unwrap())[0] == column
        }),
{
    let column = header_text(columns);
    let line = row_text(record.date_time, record.log_content);
    call_succeeds(csv_path, column, line, None);
    if all_free_of(columns, '\n') {
        lemma_header_is_one_line(columns);
        lemma_first_of_lines(column, line);
    }
}

/// Two calls in a directory without a target file write the header line
/// once and one line each: where neither the column names nor the values
/// hold a newline, the file has two lines after the first call and three
/// after the second, the header and then one row for each call, and no row
/// counts as a header.
pub proof fn second_call_adds_one_line(
    csv_path: Seq<char>,
    columns: Seq<Seq<char>>,
    first: LogStructView,
    second: LogStructView,
)
    requires
        first.date_time.valid(),
        second.date_time.valid(),
        all_free_of(columns, '\n'),
        all_free_of(first.log_content, '\n'),
        all_free_of(second.log_content, '\n'),
    ensures
        ({
            let column = header_text(columns);
            let row1 = row_body(first.date_time, first.log_content);
            let row2 = row_body(second.date_time, second.log_content);
            let line1 = row_text(first.date_time, first.log_content);
            let line2 = row_text(second.date_time, second.log_content);
            let (call1, file1) = run(LogCallView::begin(csv_path, column, line1), None);
            let (call2, file2) = run(LogCallView::begin(csv_path, column, line2), file1);
            &&& call1.phase == PhaseView::Finished { result: Ok(()) }
            &&& call2.phase == PhaseView::Finished { result: Ok(()) }
            &&& file1 is Some
            &&& file2 is Some
            &&& lines(file1.unwrap()) == seq![column, row1]
            &&& lines(file2.unwrap()) == seq![column, row1, row2]
            &&& !header_matches(row1, column)
            &&& !header_matches(row2, column)
        }),
{
    let column = header_text(columns);
    let row1 = row_body(first.date_time, first.log_content);
    let row2 = row_body(second.date_time, second.log_content);
    let newline = seq!['\n'];
    let text1 = column + newline + (row1 + newline);
    let text2 = text1 + (row2 + newline);
    lemma_header_is_one_line(columns);
    lemma_row_is_no_header(first, column);
    lemma_row_is_no_header(second, column);

    call_succeeds(csv_path, column, row1 + newline, None);
    call_succeeds(csv_path, column, row2 + newline, Some(text1));
    lemma_header_found(column, row1 + newline);
    header_is_written_once(text1, column, row2 + newline);

    assert(lines(text1) == seq![column, row1]) by {
        assert(text1.drop_last() == column + newline + row1);
        lemma_split_front(column, '\n', row1);
        lemma_split_whole(row1, '\n');
    }
    assert(lines(text2) == seq![column, row1, row2]) by {
        assert(text2.drop_last() == column + newline + (row1 + newline + row2));
        lemma_split_front(column, '\n', row1 + newline + row2);
        lemma_split_front(row1, '\n', row2);
        lemma_split_whole(row2, '\n');
    }
}

/// A file that begins with a header line without newline has a first
/// line, and it counts as that header.
proof fn lemma_header_found(column: Seq<char>, rest: Seq<char>)
    requires
        free_of(column, '\n'),
    ensures
        prefix_len(column + seq!['\n'] + rest, '\n') < (column + seq!['\n'] + rest).len(),
        header_matches(first_line(column + seq!['\n'] + rest).unwrap(), column),
{
    let text = column + seq!['\n'] + rest;
    lemma_prefix_len_found(column, '\n', rest);
    assert(text.take(column.len() as int) == column);
}

/// A row does not count as a header that begins with `d`: it begins with
/// a digit or a sign.
proof fn lemma_row_is_no_header(record: LogStructView, column: Seq<char>)
    requires
        record.date_time.valid(),
        all_free_of(record.log_content, '\n'),
        column.len() > 0,
        column[0] == 'd',
    ensures
        free_of(row_body(record.date_time, record.log_content), '\n'),
        !header_matches(row_body(record.date_time, record.log_content), column),
{
    let row = row_body(record.date_time, record.log_content);
    lemma_text_chars(record.date_time);
    lemma_row_body_is_one_line(record.date_time, record.log_content);
    lemma_trim_end_keeps_front(row);
    lemma_trim_end_keeps_front(column);
}

/// The lines of a text that begins with a line without newline begin with
/// that line.
proof fn lemma_first_of_lines(piece: Seq<char>, rest: Seq<char>)
    requires
        free_of(piece, '\n'),
    ensures
        lines(piece + seq!['\n'] + rest).len() > 0,
        lines(piece + seq!['\n'] + rest)[0] == piece,
{
    let text = piece + seq!['\n'] + rest;
    if rest.len() == 0 {
        assert(text.drop_last() == piece);
        lemma_split_whole(piece, '\n');
    } else if rest.last() == '\n' {
        assert(text.drop_last() == piece + seq!['\n'] + rest.drop_last());
        lemma_split_front(piece, '\n', rest.drop_last());
    } else {
        lemma_split_front(piece, '\n', rest);
    }
}

} // verus!
