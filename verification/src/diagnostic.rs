//! What the lint reports.

use vstd::prelude::*;
use crate::syntax::Range;

verus! {

/// How serious a report of a lint is.
#[derive(Clone, Copy, Debug, PartialEq, Eq, Structural)]
pub enum Severity {
    Allow,
    Error,
    Warning,
}

/// What kind of fault a lint looks for.
#[derive(Clone, Copy, Debug, PartialEq, Eq, Structural)]
pub enum LintType {
    Complexity,
    Correctness,
    Performance,
    Style,
}

/// The place in the source that a diagnostic points at.
#[derive(Debug)]
pub struct Label {
    pub range: Range,
}

impl Label {
    pub fn new(range: Range) -> (label: Label)
        ensures
            label.range == range,
    {
        Label { range }
    }
}

/// One report: the code of the lint that made it, what it says, and where.
#[derive(Debug)]
pub struct Diagnostic {
    pub code: &'static str,
    pub message: String,
    pub primary_label: Label,
}

/// A diagnostic as plain values.
pub struct DiagnosticView {
    pub code: Seq<char>,
    pub message: Seq<char>,
    pub range: Range,
}

impl View for Diagnostic {
    type V = DiagnosticView;

    open spec fn view(&self) -> DiagnosticView {
        DiagnosticView {
            code: self.code@,
            message: self.message@,
            range: self.primary_label.range,
        }
    }
}

impl Diagnostic {
    pub fn new(code: &'static str, message: String, primary_label: Label) -> (diagnostic:
        Diagnostic)
        ensures
            diagnostic@ == (DiagnosticView {
                code: code@,
                message: message@,
                range: primary_label.range,
            }),
    {
        Diagnostic { code, message, primary_label }
    }
}

/// The views of a list of diagnostics, in order.
pub open spec fn diagnostic_views(diagnostics: Seq<Diagnostic>) -> Seq<DiagnosticView> {
    diagnostics.map_values(|diagnostic: Diagnostic| diagnostic@)
}

} // verus!
