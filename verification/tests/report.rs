use ast_codegen::output_formatter::{DefaultOutputFormatter, DiagnosticCounts, GraphicalReporter};
use ast_codegen::result::{CliRunResult, Elapsed, LintResult};
use ast_codegen::text::{decimal, decimal_u64, plural};
use oxc_diagnostics::{GraphicalReportHandler, GraphicalTheme};

#[test]
fn all_rules() {
    let mut formatter = DefaultOutputFormatter;
    let sections = vec!["## Correctness".to_string(), "## Style".to_string()];

    let writer = formatter.all_rules(&sections, 7, 12);
    assert!(!writer.is_empty());
}

#[test]
fn all_rules_lists_sections_then_counts() {
    let mut formatter = DefaultOutputFormatter;
    let sections = vec!["## Correctness".to_string(), "## Style".to_string()];

    let output = formatter.all_rules(&sections, 7, 12);
    assert_eq!(output, "## Correctness\n## Style\nDefault: 7\nTotal: 12\n");

    let empty = formatter.all_rules(&Vec::new(), 0, 0);
    assert_eq!(empty, "Default: 0\nTotal: 0\n");
}

#[test]
fn reporter_finish_no_results() {
    let mut reporter = GraphicalReporter::default();

    let result = reporter.finish(&DiagnosticCounts::default());

    assert!(result.is_some());
    assert_eq!(result.unwrap(), "Found 0 warnings and 0 errors.\n");
}

#[test]
fn reporter_finish_one_warning_and_one_error() {
    let mut reporter = GraphicalReporter::default();

    let result = reporter.finish(&DiagnosticCounts::new(1, 1, false));

    assert!(result.is_some());
    assert_eq!(result.unwrap(), "\nFound 1 warning and 1 error.\n");
}

#[test]
fn reporter_finish_multiple_warning_and_errors() {
    let mut reporter = GraphicalReporter::default();

    let result = reporter.finish(&DiagnosticCounts::new(6, 4, false));

    assert!(result.is_some());
    assert_eq!(result.unwrap(), "\nFound 6 warnings and 4 errors.\n");
}

#[test]
fn reporter_finish_exceeded_warnings() {
    let mut reporter = GraphicalReporter::default();

    let result = reporter.finish(&DiagnosticCounts::new(6, 4, true));

    assert!(result.is_some());
    assert_eq!(
        result.unwrap(),
        "\nFound 6 warnings and 4 errors.\nExceeded maximum number of warnings. Found 6.\n"
    );
}

#[test]
fn reporter_takes_another_handler() {
    let reporter = GraphicalReporter::default().with_handler(
        GraphicalReportHandler::new_themed(GraphicalTheme::none()).with_links(false),
    );
    let mut reporter = reporter;
    assert_eq!(
        reporter.finish(&DiagnosticCounts::new(0, 2, false)),
        Some("\nFound 0 warnings and 2 errors.\n".to_string())
    );
}

#[test]
fn finish_message_only_warnings() {
    assert_eq!(
        GraphicalReporter::finish_message(2, 0, false),
        "\nFound 2 warnings and 0 errors.\n"
    );
    assert_eq!(
        GraphicalReporter::finish_message(0, 1, true),
        "\nFound 0 warnings and 1 error.\nExceeded maximum number of warnings. Found 0.\n"
    );
}

#[test]
fn decimal_renders_digits() {
    assert_eq!(decimal(0), "0");
    assert_eq!(decimal(7), "7");
    assert_eq!(decimal(10), "10");
    assert_eq!(decimal(1234567890), "1234567890");
    assert_eq!(decimal_u64(u64::MAX), "18446744073709551615");
}

#[test]
fn plural_is_empty_for_one_only() {
    assert_eq!(plural(0), "s");
    assert_eq!(plural(1), "");
    assert_eq!(plural(2), "s");
}

fn elapsed(secs: u64, nanos: u32) -> Elapsed {
    Elapsed { secs, nanos }
}

#[test]
fn execution_time_below_one_second_is_milliseconds() {
    assert_eq!(CliRunResult::get_execution_time(&elapsed(0, 0), "0.0s"), "0ms");
    assert_eq!(CliRunResult::get_execution_time(&elapsed(0, 999_999_999), "1.0s"), "999ms");
    assert_eq!(CliRunResult::get_execution_time(&elapsed(0, 1_999_000), "0.0s"), "1ms");
}

#[test]
fn execution_time_from_one_second_is_seconds() {
    assert_eq!(CliRunResult::get_execution_time(&elapsed(1, 0), "1.0s"), "1.0s");
    assert_eq!(CliRunResult::get_execution_time(&elapsed(1, 500_000_000), "1.5s"), "1.5s");
    assert_eq!(CliRunResult::get_execution_time(&elapsed(61, 240_000_000), "61.2s"), "61.2s");
    assert_eq!(CliRunResult::get_execution_time(&elapsed(u64::MAX, u32::MAX), "long"), "long");
}

#[test]
fn execution_time_from_parts() {
    assert_eq!(CliRunResult::execution_time(12, "0.0s".to_string()), "12ms");
    assert_eq!(CliRunResult::execution_time(1000, "1.0s".to_string()), "1.0s");
}

#[test]
fn summary_counts_files_rules_and_threads() {
    assert_eq!(
        CliRunResult::summary("25ms", 1, 90, 8),
        "Finished in 25ms on 1 file with 90 rules using 8 threads."
    );
    assert_eq!(
        CliRunResult::summary("1.2s", 3, 1, 1),
        "Finished in 1.2s on 3 files with 1 rules using 1 threads."
    );
}

#[test]
fn report_of_nothing_is_silent_success() {
    let report = CliRunResult::Nothing.report("0.0s");
    assert_eq!(report.line, None);
    assert_eq!(report.exit_code, 0);
}

#[test]
fn report_of_invalid_options() {
    let report = CliRunResult::InvalidOptions { message: "no such flag".to_string() }.report("0.0s");
    assert_eq!(report.line, Some("Invalid Options: no such flag".to_string()));
    assert_eq!(report.exit_code, 1);
}

#[test]
fn report_of_path_not_found_quotes_the_paths() {
    let report = CliRunResult::PathNotFound {
        paths: vec!["src/a.js".to_string(), "b \"c\".js".to_string()],
    }
    .report("0.0s");
    assert_eq!(
        report.line,
        Some("Path [\"src/a.js\", \"b \\\"c\\\".js\"] does not exist.".to_string())
    );
    assert_eq!(report.exit_code, 1);
}

#[test]
fn path_not_found_line() {
    assert_eq!(CliRunResult::path_not_found("[\"a\"]"), "Path [\"a\"] does not exist.");
    assert_eq!(CliRunResult::path_not_found("[]"), "Path [] does not exist.");
}

#[test]
fn report_of_config_results() {
    let printed = CliRunResult::PrintConfigResult { config_file: "{}".to_string() }.report("0.0s");
    assert_eq!(printed.line, Some("{}".to_string()));
    assert_eq!(printed.exit_code, 0);

    let init = CliRunResult::ConfigFileInitResult { message: "created".to_string() }.report("0.0s");
    assert_eq!(init.line, Some("created".to_string()));
    assert_eq!(init.exit_code, 0);
}

fn lint_result(print_summary: bool, exit_code: u8) -> CliRunResult {
    CliRunResult::LintResult(LintResult {
        duration: elapsed(0, 250_000_000),
        number_of_rules: 90,
        number_of_files: 2,
        number_of_warnings: 1,
        number_of_errors: 0,
        exit_code,
        print_summary,
    })
}

#[test]
fn report_of_lint_result_without_summary() {
    let report = lint_result(false, 1).report("0.2s");
    assert_eq!(report.line, None);
    assert_eq!(report.exit_code, 1);
}

#[test]
fn report_of_lint_result_with_summary() {
    let report = lint_result(true, 0).report_with("0.2s", 4);
    assert_eq!(
        report.line,
        Some("Finished in 250ms on 2 files with 90 rules using 4 threads.".to_string())
    );
    assert_eq!(report.exit_code, 0);

    let report = lint_result(true, 0).report("0.2s");
    let line = report.line.unwrap();
    assert!(line.starts_with("Finished in 250ms on 2 files with 90 rules using "));
    assert!(line.ends_with(" threads."));
}

#[test]
fn report_of_a_long_run_shows_the_seconds() {
    let result = CliRunResult::LintResult(LintResult {
        duration: elapsed(2, 340_000_000),
        number_of_rules: 1,
        number_of_files: 1,
        print_summary: true,
        ..LintResult::default()
    });
    let report = result.report_with("2.3s", 1);
    assert_eq!(
        report.line,
        Some("Finished in 2.3s on 1 file with 1 rules using 1 threads.".to_string())
    );
    assert_eq!(report.exit_code, 0);
}
