//! What a run of the command-line tool ended with, and how that is reported.

use vstd::prelude::*;
use vstd::string::*;
use crate::text::{decimal, decimal_text, decimal_u64, plural, plural_suffix};

verus! {

/// A span of time: whole seconds and the nanoseconds beyond them.
#[derive(Clone, Copy, Debug, Default, PartialEq, Eq)]
pub struct Elapsed {
    pub secs: u64,
    pub nanos: u32,
}

/// A summary of a complete linter run.
#[derive(Debug, Default)]
pub struct LintResult {
    /// The total time it took to run the linter.
    pub duration: Elapsed,
    /// The number of lint rules that were run.
    pub number_of_rules: usize,
    /// The number of files that were linted.
    pub number_of_files: usize,
    /// The number of warnings that were found.
    pub number_of_warnings: usize,
    /// The number of errors that were found.
    pub number_of_errors: usize,
    /// The exit code, in general 0 or 1.
    pub exit_code: u8,
    /// Whether or not to print a summary of the results.
    pub print_summary: bool,
}

/// How a run of the command-line tool ended.
#[derive(Debug)]
pub enum CliRunResult {
    Nothing,
    InvalidOptions { message: String },
    PathNotFound { paths: Vec<String> },
    LintResult(LintResult),
    PrintConfigResult { config_file: String },
    ConfigFileInitResult { message: String },
}

/// What reporting a result amounts to: the line to print, if any, and the
/// exit code of the process.
#[derive(Debug, PartialEq, Eq)]
pub struct Report {
    pub line: Option<String>,
    pub exit_code: u8,
}

/// What `{:?}` prints for a list of strings.
pub uninterp spec fn debug_list_text(items: Seq<Seq<char>>) -> Seq<char>;

/// The views of the strings of a list.
pub open spec fn string_views(items: Seq<String>) -> Seq<Seq<char>> {
    Seq::new(items.len(), |i: int| items[i]@)
}

/// Formats a list of strings with `{:?}`, as `format!` of std does. The
/// text is a function of the strings alone.
#[verifier::external_body]
fn debug_list(items: &Vec<String>) -> (s: String)
    ensures
        s@ == debug_list_text(string_views(items@)),
{
    format!("{items:?}")
}

/// Calls `rayon::current_num_threads`. The count depends on the machine and
/// on how the pool was built, so nothing is claimed of it.
#[verifier::external_body]
fn pool_threads() -> (n: usize) {
    rayon::current_num_threads()
}

/// The whole milliseconds of a span of time.
pub open spec fn millis_of(duration: Elapsed) -> nat {
    (duration.secs * 1000 + duration.nanos / 1_000_000) as nat
}

/// The text for a run time: whole milliseconds below one second, and the
/// seconds as they were rendered from there on.
pub open spec fn execution_time_text(ms: nat, seconds: Seq<char>) -> Seq<char> {
    if ms < 1000 {
        decimal_text(ms) + "ms"@
    } else {
        seconds
    }
}

/// The summary line of a linter run.
pub open spec fn summary_text(time: Seq<char>, files: nat, rules: nat, threads: nat) -> Seq<char> {
    "Finished in "@ + time + " on "@ + decimal_text(files) + " file"@ + plural_suffix(files)
        + " with "@ + decimal_text(rules) + " rules using "@ + decimal_text(threads)
        + " threads."@
}

/// The line for paths that do not exist, from the list of the paths as it
/// is shown.
pub open spec fn path_not_found_text(listing: Seq<char>) -> Seq<char> {
    "Path "@ + listing + " does not exist."@
}

/// The line that reporting `result` prints, given the seconds of the run
/// time as they are rendered and the number of threads; `None` where
/// nothing is printed.
pub open spec fn report_line(result: CliRunResult, seconds: Seq<char>, threads: nat) -> Option<
    Seq<char>,
> {
    match result {
        CliRunResult::Nothing => None,
        CliRunResult::InvalidOptions { message } => Some("Invalid Options: "@ + message@),
        CliRunResult::PathNotFound { paths } => Some(
            path_not_found_text(debug_list_text(string_views(paths@))),
        ),
        CliRunResult::LintResult(lint) => if lint.print_summary {
            Some(
                summary_text(
                    execution_time_text(millis_of(lint.duration), seconds),
                    lint.number_of_files as nat,
                    lint.number_of_rules as nat,
                    threads,
                ),
            )
        } else {
            None
        },
        CliRunResult::PrintConfigResult { config_file } => Some(config_file@),
        CliRunResult::ConfigFileInitResult { message } => Some(message@),
    }
}

/// The exit code that reporting `result` ends the process with.
pub open spec fn report_exit_code(result: CliRunResult) -> u8 {
    match result {
        CliRunResult::Nothing => 0,
        CliRunResult::InvalidOptions { .. } => 1,
        CliRunResult::PathNotFound { .. } => 1,
        CliRunResult::LintResult(lint) => lint.exit_code,
        CliRunResult::PrintConfigResult { .. } => 0,
        CliRunResult::ConfigFileInitResult { .. } => 0,
    }
}

/// The view of an optional line.
pub open spec fn line_view(line: Option<String>) -> Option<Seq<char>> {
    match line {
        Some(s) => Some(s@),
        None => None,
    }
}

impl CliRunResult {
    /// The run time as text from its whole milliseconds and its rendered
    /// seconds: `"{ms}ms"` below one second, the seconds otherwise.
    pub fn execution_time(ms: u128, seconds: String) -> (time: String)
        ensures
            time@ == execution_time_text(ms as nat, seconds@),
    {
        if ms < 1000 {
            let mut time = decimal_u64(ms as u64);
            time.append("ms");
            time
        } else {
            seconds
        }
    }

    /// The run time of `duration` as text: its whole milliseconds below one
    /// second, and from there on its seconds as `seconds` renders them.
    pub fn get_execution_time(duration: &Elapsed, seconds: &str) -> (time: String)
        ensures
            time@ == execution_time_text(millis_of(*duration), seconds@),
    {
        let ms: u128 = duration.secs as u128 * 1000 + (duration.nanos / 1_000_000) as u128;
        Self::execution_time(ms, String::from_str(seconds))
    }

    /// The line for paths that do not exist, from the list of the paths as
    /// it is shown.
    pub fn path_not_found(listing: &str) -> (line: String)
        ensures
            line@ == path_not_found_text(listing@),
    {
        let mut line = String::from_str("Path ");
        line.append(listing);
        line.append(" does not exist.");
        line
    }

    /// The summary line of a linter run.
    pub fn summary(time: &str, files: usize, rules: usize, threads: usize) -> (line: String)
        ensures
            line@ == summary_text(time@, files as nat, rules as nat, threads as nat),
    {
        let mut line = String::from_str("Finished in ");
        line.append(time);
        line.append(" on ");
        line.append(decimal(files).as_str());
        line.append(" file");
        line.append(plural(files));
        line.append(" with ");
        line.append(decimal(rules).as_str());
        line.append(" rules using ");
        line.append(decimal(threads).as_str());
        line.append(" threads.");
        line
    }

    /// What reporting this result prints and exits with, where `seconds`
    /// renders the seconds of the run time and `threads` worker threads
    /// were at work.
    pub fn report_with(self, seconds: &str, threads: usize) -> (report: Report)
        ensures
            line_view(report.line) == report_line(self, seconds@, threads as nat),
            report.exit_code == report_exit_code(self),
    {
        match self {
            CliRunResult::Nothing => Report { line: None, exit_code: 0 },
            CliRunResult::InvalidOptions { message } => {
                let mut line = String::from_str("Invalid Options: ");
                line.append(message.as_str());
                Report { line: Some(line), exit_code: 1 }
            },
            CliRunResult::PathNotFound { paths } => {
                let line = Self::path_not_found(debug_list(&paths).as_str());
                Report { line: Some(line), exit_code: 1 }
            },
            CliRunResult::LintResult(lint) => {
                if lint.print_summary {
                    let time = Self::get_execution_time(&lint.duration, seconds);
                    let line = Self::summary(
                        time.as_str(),
                        lint.number_of_files,
                        lint.number_of_rules,
                        threads,
                    );
                    Report { line: Some(line), exit_code: lint.exit_code }
                } else {
                    Report { line: None, exit_code: lint.exit_code }
                }
            },
            CliRunResult::PrintConfigResult { config_file } => Report {
                line: Some(config_file),
                exit_code: 0,
            },
            CliRunResult::ConfigFileInitResult { message } => Report {
                line: Some(message),
                exit_code: 0,
            },
        }
    }

    /// Whether reporting this result prints the summary of a linter run.
    pub fn prints_summary(&self) -> (b: bool)
        ensures
            b == (self matches CliRunResult::LintResult(lint) && lint.print_summary),
    {
        match self {
            CliRunResult::LintResult(lint) => lint.print_summary,
            _ => false,
        }
    }

    /// What reporting this result prints and exits with, where `seconds`
    /// renders the seconds of the run time. The number of worker threads is
    /// asked for only where the summary of a linter run is printed; it is
    /// the only part of the line that the result and `seconds` do not
    /// settle.
    pub fn report(self, seconds: &str) -> (report: Report)
        ensures
            report.exit_code == report_exit_code(self),
            exists|threads: nat| line_view(report.line) == report_line(self, seconds@, threads),
            !(self matches CliRunResult::LintResult(lint) && lint.print_summary) ==> line_view(
                report.line,
            ) == report_line(self, seconds@, 0),
    {
        let threads = if self.prints_summary() {
            pool_threads()
        } else {
            0
        };
        let report = self.report_with(seconds, threads);
        assert(line_view(report.line) == report_line(self, seconds@, threads as nat));
        report
    }
}

} // verus!
