//! The console reporter: prints one line per reported test, with a pass or
//! fail glyph, and one emphasised sub-line per failing assertion.

use crate::error::CognoError;
use crate::model::AssertionType;
use crate::model::TestDef;
use crate::model::TestOutcome;
use crate::model::TestView;
use crate::reporter::Reporter;
use std::io::Write;
use vstd::prelude::*;
use vstd::string::StringExecFns;

verus! {

/// Relies on colored::Colorize::green: styles the text for terminal output.
#[verifier::external_body]
fn paint_green(s: &str) -> String {
    colored::Colorize::green(s).to_string()
}

/// Relies on colored::Colorize::red: styles the text for terminal output.
#[verifier::external_body]
fn paint_red(s: &str) -> String {
    colored::Colorize::red(s).to_string()
}

/// Relies on colored::Colorize::blue: styles the text for terminal output.
#[verifier::external_body]
fn paint_blue(s: &str) -> String {
    colored::Colorize::blue(s).to_string()
}

/// Relies on colored::Colorize::bold: styles the text for terminal output.
#[verifier::external_body]
fn paint_bold(s: &str) -> String {
    colored::Colorize::bold(s).to_string()
}

/// Relies on writeln to std::io::Stdout: prints one line of report output.
#[verifier::external_body]
fn emit_line(s: &str) {
    let _ = writeln!(std::io::stdout(), "{}", s);
}

/// The name of a severity kind, as printed beside a failing assertion.
pub open spec fn kind_label_spec(kind: AssertionType) -> Seq<char> {
    match kind {
        AssertionType::Must => "Must"@,
        AssertionType::MustNot => "MustNot"@,
        AssertionType::Should => "Should"@,
        AssertionType::ShouldNot => "ShouldNot"@,
        AssertionType::May => "May"@,
    }
}

/// The printable name of a severity kind.
pub fn kind_label(kind: &AssertionType) -> (r: String)
    ensures
        r@ == kind_label_spec(*kind),
{
    match kind {
        AssertionType::Must => "Must".to_string(),
        AssertionType::MustNot => "MustNot".to_string(),
        AssertionType::Should => "Should".to_string(),
        AssertionType::ShouldNot => "ShouldNot".to_string(),
        AssertionType::May => "May".to_string(),
    }
}

/// Prints each reported record as soon as it arrives; flushing at the end of
/// the run has nothing left to do.
pub struct ConsoleReporter {
    seen: Ghost<Seq<TestView>>,
}

impl ConsoleReporter {
    /// A console reporter that has reported nothing yet.
    pub fn new() -> (r: Self)
        ensures
            r.reported() == Seq::<TestView>::empty(),
    {
        ConsoleReporter { seen: Ghost(Seq::empty()) }
    }
}

impl Reporter for ConsoleReporter {
    closed spec fn reported(&self) -> Seq<TestView> {
        self.seen@
    }

    fn report(&mut self, test_def: &TestDef) {
        match test_def.get_test_outcome() {
            TestOutcome::Passed => {
                let mut line = paint_green("\u{2713}");
                line.append(" - ");
                let name = paint_bold(test_def.name.as_str());
                line.append(name.as_str());
                emit_line(line.as_str());
            },
            TestOutcome::Errored(msg) => {
                let mut line = paint_red("\u{2718}");
                line.append(" - ");
                let name = paint_bold(test_def.name.as_str());
                line.append(name.as_str());
                line.append("\n\t");
                line.append(msg.as_str());
                emit_line(line.as_str());
            },
            TestOutcome::AssertionsFailed(assertions) => {
                let mut header = String::new();
                header.append("\u{2718} - ");
                let name = paint_bold(test_def.name.as_str());
                header.append(name.as_str());
                emit_line(header.as_str());
                let mut i: usize = 0;
                while i < assertions.len()
                    decreases assertions.len() - i,
                {
                    let assertion = &assertions[i];
                    let glyph = match assertion.kind {
                        AssertionType::Must | AssertionType::MustNot => paint_red("\u{2718}"),
                        AssertionType::Should | AssertionType::ShouldNot => paint_blue("\u{2718}"),
                        AssertionType::May => "\u{2718}".to_string(),
                    };
                    let mut line = String::new();
                    line.append("\t");
                    line.append(glyph.as_str());
                    line.append(" - ");
                    line.append(assertion.id.as_str());
                    line.append(" ");
                    let label = kind_label(&assertion.kind);
                    line.append(label.as_str());
                    line.append(": ");
                    match &assertion.error_message {
                        Some(m) => line.append(m.as_str()),
                        None => line.append("missing error message"),
                    }
                    emit_line(line.as_str());
                    i = i + 1;
                }
            },
        }
        self.seen = Ghost(self.seen@.push(test_def@));
    }

    fn finalize(&self) -> (r: Result<(), CognoError>)
        ensures
            r is Ok,
    {
        Ok(())
    }
}

} // verus!
