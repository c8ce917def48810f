//! The set-once configuration of the logger: the output directory and the
//! header line.

use vstd::prelude::*;
use crate::text::{all_free_of, comma_joined, free_of, lemma_comma_fields_free_of};

verus! {

/// The configuration of the logger. It starts out unconfigured, is
/// configured at most once and never changes afterwards.
#[derive(Debug)]
pub struct Logger {
    /// The output directory and the header line without its newline, once
    /// they are set.
    settings: Option<(String, String)>,
}

/// The header line for the given column names: the fixed first column
/// `date time`, a comma, and the names with a comma between each two.
pub open spec fn header_text(columns: Seq<Seq<char>>) -> Seq<char> {
    "date time"@ + seq![','] + comma_joined(columns)
}

/// The path of `file_name` inside `dir`, as `std::path::Path::join` builds
/// it on the platform at hand.
pub uninterp spec fn joined_path(dir: Seq<char>, file_name: Seq<char>) -> Seq<char>;

/// Calls `std::path::Path::join` on `dir` with `file_name`. The result is a
/// function of the two texts alone, which is all the contract claims.
#[verifier::external_body]
fn join_path(dir: &str, file_name: &str) -> (path: String)
    ensures
        path@ == joined_path(dir@, file_name@),
{
    std::path::Path::new(dir).join(file_name).to_string_lossy().into_owned()
}

/// What a [`Logger`] stands for.
pub enum LoggerView {
    /// Nothing has been set yet.
    Unconfigured,
    /// The output directory and the header line, without its newline, are
    /// set.
    Configured { current_dir: Seq<char>, column: Seq<char> },
}

impl LoggerView {
    /// The configuration after a call that sets the output directory and
    /// the header line for `columns`: the first such call sets both, every
    /// later one changes nothing.
    pub open spec fn configure(
        self,
        columns: Seq<Seq<char>>,
        current_dir: Seq<char>,
    ) -> LoggerView {
        match self {
            LoggerView::Unconfigured => LoggerView::Configured {
                current_dir,
                column: header_text(columns),
            },
            LoggerView::Configured { .. } => self,
        }
    }
}

impl View for Logger {
    type V = LoggerView;

    closed spec fn view(&self) -> LoggerView {
        match self.settings {
            None => LoggerView::Unconfigured,
            Some((current_dir, column)) => LoggerView::Configured {
                current_dir: current_dir@,
                column: column@,
            },
        }
    }
}

impl Logger {
    /// An unconfigured logger.
    pub fn new() -> (logger: Logger)
        ensures
            logger@ == LoggerView::Unconfigured,
    {
        Logger { settings: None }
    }

    /// Whether the configuration has been set.
    pub fn is_configured(&self) -> (configured: bool)
        ensures
            configured == (self@ is Configured),
    {
        self.settings.is_some()
    }

    /// The header line, without its newline, once the logger is configured.
    pub fn header(&self) -> (header: Option<String>)
        ensures
            header.deep_view() == match self@ {
                LoggerView::Unconfigured => None,
                LoggerView::Configured { column, .. } => Some(column),
            },
    {
        match &self.settings {
            None => None,
            Some((_, column)) => Some(column.clone()),
        }
    }
}

/// Setting the configuration a second time changes nothing, whatever the
/// columns and the directory of the second call.
pub proof fn configure_once(
    logger: LoggerView,
    columns: Seq<Seq<char>>,
    current_dir: Seq<char>,
    other_columns: Seq<Seq<char>>,
    other_dir: Seq<char>,
)
    ensures
        logger.configure(columns, current_dir).configure(other_columns, other_dir)
            == logger.configure(columns, current_dir),
        logger.configure(columns, current_dir) is Configured,
{
}

/// A header line whose column names hold no newline holds none, and
/// begins with the `d` of its first column.
pub proof fn lemma_header_is_one_line(columns: Seq<Seq<char>>)
    requires
        all_free_of(columns, '\n'),
    ensures
        free_of(header_text(columns), '\n'),
        header_text(columns).len() > 0,
        header_text(columns)[0] == 'd',
{
    reveal_strlit("date time");
    lemma_comma_fields_free_of(columns, '\n');
}

/// Builds the header line for the given column names.
pub fn header_line(columns: &Vec<String>) -> (header: String)
    ensures
        header@ == header_text(columns.deep_view()),
{
    let mut header = String::new();
    header.append("date time");
    header.append(",");
    proof {
        reveal_strlit(",");
    }
    let mut i: usize = 0;
    while i < columns.len()
        invariant
            i <= columns.len(),
            header@ == header_text(columns.deep_view().take(i as int)),
        decreases columns.len() - i,
    {
        proof {
            reveal_strlit(",");
            let done = columns.deep_view().take(i as int);
            let next = columns.deep_view().take(i + 1);
            assert(next.drop_last() == done);
        }
        if i > 0 {
            header.append(",");
        }
        header.append(columns[i].as_str());
        i += 1;
    }
    proof {
        assert(columns.deep_view().take(i as int) == columns.deep_view());
    }
    header
}

/// Configures the logger, once: stores the output directory and the header
/// line for `columns`. On a logger that is configured already the call
/// changes nothing.
pub fn set_column_exe_path(logger: &mut Logger, columns: Vec<String>, current_dir: String)
    ensures
        final(logger)@ == old(logger)@.configure(columns.deep_view(), current_dir@),
{
    if !logger.is_configured() {
        let column = header_line(&columns);
        logger.settings = Some((current_dir, column));
    }
}

/// The path of the target file: `log.csv` inside the output directory.
pub fn to_csv_path(logger: &Logger) -> (path: String)
    requires
        logger@ is Configured,
    ensures
        path@ == joined_path(logger@->current_dir, "log.csv"@),
{
    match &logger.settings {
        Some((current_dir, _)) => join_path(current_dir.as_str(), "log.csv"),
        None => unreached(),
    }
}

} // verus!
