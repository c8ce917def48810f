//! The header ensurer: whether the target file still needs its header line.

use vstd::prelude::*;
use vstd::std_specs::iter::IteratorSpec;
use std::str::Chars;
use crate::action::{Event, EventView};
use crate::error::ErrorCode;
use crate::text::{
    all_white_space, is_white_space, lemma_trim_end_of_white_tail, lemma_trim_end_split,
    lemma_white_from, trim_end, white_space,
};

verus! {

/// Whether a first line counts as the header: the two are equal once the
/// white space at the end of each is removed.
pub open spec fn header_matches(first_line: Seq<char>, column: Seq<char>) -> bool {
    trim_end(first_line) == trim_end(column)
}

/// The text that the header ensurer appends: nothing where the first line
/// counts as the header, and otherwise the header line with its newline,
/// whether the file is empty or begins with something else.
pub open spec fn header_to_write(first_line: Option<Seq<char>>, column: Seq<char>) -> Option<
    Seq<char>,
> {
    match first_line {
        Some(line) if header_matches(line, column) => None,
        _ => Some(column + seq!['\n']),
    }
}

/// Two texts that agree up to `k` and no further count as the same
/// header where, and only where, both hold white space alone from there
/// on.
pub proof fn lemma_matches_from_common_front(line: Seq<char>, column: Seq<char>, k: int)
    requires
        0 <= k <= line.len(),
        k <= column.len(),
        line.take(k) == column.take(k),
        k == line.len() || k == column.len() || line[k] != column[k],
    ensures
        header_matches(line, column) == (all_white_space(line.skip(k)) && all_white_space(
            column.skip(k),
        )),
{
    if all_white_space(line.skip(k)) && all_white_space(column.skip(k)) {
        lemma_trim_end_of_white_tail(line, k);
        lemma_trim_end_of_white_tail(column, k);
    }
    if header_matches(line, column) {
        lemma_trim_end_split(line);
        lemma_trim_end_split(column);
        let n = trim_end(line).len() as int;
        if n > k {
            assert(column.take(n)[k] == column[k]);
        }
        assert forall|i: int| 0 <= i < line.skip(k).len() implies is_white_space(
            #[trigger] line.skip(k)[i],
        ) by {
            assert(line.skip(k)[i] == line.skip(n)[i + k - n]);
        }
        assert forall|i: int| 0 <= i < column.skip(k).len() implies is_white_space(
            #[trigger] column.skip(k)[i],
        ) by {
            assert(column.skip(k)[i] == column.skip(n)[i + k - n]);
        }
    }
}

/// Whether the characters still to come are white space, all of them.
fn rest_is_white_space(chars: Chars<'_>) -> (white: bool)
    requires
        chars.decrease() is Some,
    ensures
        white == all_white_space(chars.remaining()),
{
    let ghost all = chars.remaining();
    let mut rest = chars;
    loop
        invariant
            rest.decrease() is Some,
            rest.remaining().len() <= all.len(),
            rest.remaining() == all.skip(all.len() - rest.remaining().len()),
            all_white_space(all.take(all.len() - rest.remaining().len())),
            all == chars.remaining(),
        decreases rest.decrease()->0,
    {
        match rest.next() {
            None => {
                proof {
                    assert(all.take(all.len() as int) == all);
                }
                return true;
            },
            Some(c) => {
                if !white_space(c) {
                    return false;
                }
            },
        }
    }
}

/// Whether `line` counts as the header `column`. The two are read side by
/// side, once, up to where they part.
pub fn matches_header(line: &str, column: &str) -> (same: bool)
    ensures
        same == header_matches(line@, column@),
{
    let mut left = line.chars();
    let mut right = column.chars();
    let ghost mut k: int = 0;
    loop
        invariant
            left.decrease() is Some,
            right.decrease() is Some,
            0 <= k <= line@.len(),
            k <= column@.len(),
            left.remaining() == line@.skip(k),
            right.remaining() == column@.skip(k),
            line@.take(k) == column@.take(k),
        decreases left.decrease()->0,
    {
        let c = left.next();
        let d = right.next();
        match (c, d) {
            (Some(c), Some(d)) => {
                if c != d {
                    let white = white_space(c) && white_space(d) && rest_is_white_space(left)
                        && rest_is_white_space(right);
                    proof {
                        lemma_matches_from_common_front(line@, column@, k);
                        lemma_white_from(line@, k);
                        lemma_white_from(column@, k);
                    }
                    return white;
                }
                proof {
                    k = k + 1;
                }
            },
            (Some(c), None) => {
                let white = white_space(c) && rest_is_white_space(left);
                proof {
                    lemma_matches_from_common_front(line@, column@, k);
                    lemma_white_from(line@, k);
                }
                return white;
            },
            (None, Some(d)) => {
                let white = white_space(d) && rest_is_white_space(right);
                proof {
                    lemma_matches_from_common_front(line@, column@, k);
                    lemma_white_from(column@, k);
                }
                return white;
            },
            (None, None) => {
                proof {
                    lemma_matches_from_common_front(line@, column@, k);
                }
                return true;
            },
        }
    }
}

/// What the header check makes of the event that answers it: the text to
/// append, or [`ErrorCode::FailedAddCsvColumn`] where the file could not be
/// opened or its first line not be read.
pub open spec fn header_check(column: Seq<char>, event: EventView) -> Result<
    Option<Seq<char>>,
    ErrorCode,
> {
    match event {
        EventView::FirstLine { line } => Ok(header_to_write(line, column)),
        _ => Err(ErrorCode::FailedAddCsvColumn),
    }
}

/// The header check, from how reading the first line went: what is to be
/// appended so that the file holds the header `column`. A first line that
/// differs from the header is left as it is, and the header line is
/// appended behind what the file holds.
pub fn add_csv_column(column: &str, event: &Event) -> (checked: Result<Option<String>, ErrorCode>)
    ensures
        header_check(column@, event@) == match checked {
            Ok(column_str) => Ok(column_str.deep_view()),
            Err(error_code) => Err(error_code),
        },
{
    match event {
        Event::FirstLine { line } => {
            if let Some(line) = line {
                if matches_header(line.as_str(), column) {
                    return Ok(None);
                }
            }
            let mut column_str = String::new();
            column_str.append(column);
            column_str.append("\n");
            proof {
                reveal_strlit("\n");
                assert(column_str@ == column@ + seq!['\n']);
            }
            Ok(Some(column_str))
        },
        _ => Err(ErrorCode::FailedAddCsvColumn),
    }
}

} // verus!
