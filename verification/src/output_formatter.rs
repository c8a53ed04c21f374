//! The default, human-readable output of the linter: the closing summary of
//! a run, rendered diagnostics and the listing of all rules.

use oxc_diagnostics::GraphicalReportHandler;
use vstd::prelude::*;
use vstd::string::*;
use crate::text::{decimal, decimal_text, plural, plural_suffix};

verus! {

/// `oxc_diagnostics::GraphicalReportHandler`: renders a diagnostic for a
/// terminal.
#[verifier::external_type_specification]
#[verifier::external_body]
pub struct ExGraphicalReportHandler(GraphicalReportHandler);

/// Calls `GraphicalReportHandler::new`: a handler with the default theme.
#[verifier::external_body]
fn handler_new() -> (handler: GraphicalReportHandler) {
    GraphicalReportHandler::new()
}

/// What a run found: the warnings, the errors, and whether the warnings
/// went over the allowed maximum.
#[derive(Clone, Copy, Debug, Default, PartialEq, Eq)]
pub struct DiagnosticCounts {
    pub warnings: usize,
    pub errors: usize,
    pub max_warnings_exceeded: bool,
}

impl DiagnosticCounts {
    pub fn new(warnings: usize, errors: usize, max_warnings_exceeded: bool) -> (counts: Self)
        ensures
            counts == (DiagnosticCounts { warnings, errors, max_warnings_exceeded }),
    {
        Self { warnings, errors, max_warnings_exceeded }
    }
}

/// The closing summary of a run: a blank line if anything was found, the
/// counts of warnings and errors, and a second line if the number of
/// warnings went over the allowed maximum.
pub open spec fn finish_text(warnings: nat, errors: nat, exceeded: bool) -> Seq<char> {
    (if warnings > 0 || errors > 0 {
        "\n"@
    } else {
        Seq::<char>::empty()
    }) + "Found "@ + decimal_text(warnings) + " warning"@ + plural_suffix(warnings) + " and "@
        + decimal_text(errors) + " error"@ + plural_suffix(errors) + ".\n"@ + (if exceeded {
        "Exceeded maximum number of warnings. Found "@ + decimal_text(warnings) + ".\n"@
    } else {
        Seq::<char>::empty()
    })
}

/// The first `n` sections of a rule listing, each followed by a line break.
pub open spec fn sections_text(sections: Seq<String>, n: nat) -> Seq<char>
    decreases n,
{
    if n == 0 {
        Seq::<char>::empty()
    } else {
        sections_text(sections, (n - 1) as nat) + sections[n - 1]@ + "\n"@
    }
}

/// The listing of all rules: every section, then the number of rules that
/// are turned on by default and the total.
pub open spec fn all_rules_text(sections: Seq<String>, by_default: nat, total: nat) -> Seq<char> {
    sections_text(sections, sections.len()) + "Default: "@ + decimal_text(by_default) + "\n"@
        + "Total: "@ + decimal_text(total) + "\n"@
}

/// Pretty-prints diagnostics. Primarily meant for human-readable output in
/// a terminal.
pub struct GraphicalReporter {
    /// The handler that renders the diagnostics.
    pub handler: GraphicalReportHandler,
}

impl Default for GraphicalReporter {
    fn default() -> (reporter: Self) {
        Self { handler: handler_new() }
    }
}

impl GraphicalReporter {
    /// The same reporter with another handler.
    pub fn with_handler(self, handler: GraphicalReportHandler) -> (reporter: Self)
        ensures
            reporter.handler == handler,
    {
        let mut reporter = self;
        reporter.handler = handler;
        reporter
    }

    /// The closing summary for the given counts.
    pub fn finish_message(warnings: usize, errors: usize, exceeded: bool) -> (output: String)
        ensures
            output@ == finish_text(warnings as nat, errors as nat, exceeded),
    {
        let mut output = String::new();
        if warnings > 0 || errors > 0 {
            output.append("\n");
        }
        output.append("Found ");
        output.append(decimal(warnings).as_str());
        output.append(" warning");
        output.append(plural(warnings));
        output.append(" and ");
        output.append(decimal(errors).as_str());
        output.append(" error");
        output.append(plural(errors));
        output.append(".\n");
        if exceeded {
            output.append("Exceeded maximum number of warnings. Found ");
            output.append(decimal(warnings).as_str());
            output.append(".\n");
        }
        assert(output@ =~= finish_text(warnings as nat, errors as nat, exceeded));
        output
    }

    /// The closing summary of a run that found `result`.
    pub fn finish(&mut self, result: &DiagnosticCounts) -> (output: Option<String>)
        ensures
            *final(self) == *old(self),
            output matches Some(text) && text@ == finish_text(
                result.warnings as nat,
                result.errors as nat,
                result.max_warnings_exceeded,
            ),
    {
        Some(Self::finish_message(result.warnings, result.errors, result.max_warnings_exceeded))
    }
}

/// The formatter that is used when no other output format is asked for.
#[derive(Debug)]
pub struct DefaultOutputFormatter;

impl DefaultOutputFormatter {
    /// The listing of all rules from the rendered table of each section,
    /// the number of rules that are on by default and the total.
    pub fn all_rules(&mut self, sections: &Vec<String>, by_default: usize, total: usize) -> (output:
        String)
        ensures
            output@ == all_rules_text(sections@, by_default as nat, total as nat),
    {
        let mut output = String::new();
        let mut i: usize = 0;
        while i < sections.len()
            invariant
                i <= sections.len(),
                output@ == sections_text(sections@, i as nat),
            decreases sections.len() - i,
        {
            output.append(sections[i].as_str());
            output.append("\n");
            i = i + 1;
        }
        output.append("Default: ");
        output.append(decimal(by_default).as_str());
        output.append("\n");
        output.append("Total: ");
        output.append(decimal(total).as_str());
        output.append("\n");
        output
    }

    /// The reporter that renders diagnostics for this format.
    pub fn get_diagnostic_reporter(&self) -> (reporter: GraphicalReporter) {
        GraphicalReporter::default()
    }
}

} // verus!
