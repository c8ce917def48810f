//! A logger that appends timestamped, comma-separated rows to a CSV file
//! and sees to it that the file begins with a header line.
//!
//! The logger keeps a set-once configuration (the output directory and the
//! header line), turns each record into one line of text, and decides from
//! the first line of the target file whether the header has yet to be
//! written. It never touches the file itself: a [`LogCall`] names one
//! action at a time, and the caller performs it and reports how it went.

pub mod action;
pub mod appender;
pub mod call;
pub mod config;
pub mod error;
pub mod header;
pub mod record;
pub mod target;
pub mod text;
pub mod timestamp;

pub use action::{Action, Event};
pub use appender::add_csv_line;
pub use call::{loglog, LogCall};
pub use config::{header_line, set_column_exe_path, to_csv_path, Logger};
pub use error::ErrorCode;
pub use header::{add_csv_column, matches_header};
pub use record::LogStruct;
pub use text::{vec_to_string, white_space};
pub use timestamp::Timestamp;
