//! The data that parsing reads and produces: nodes with arguments and
//! children, spans, diagnostics and parse results.

use vstd::prelude::*;

verus! {

/// A location range in the source text.
#[derive(Clone, Copy, Debug, PartialEq, Eq, Structural)]
pub struct Span {
    pub offset: usize,
    pub len: usize,
}

/// One positional argument of a node.
pub enum Value {
    String(String),
    Integer(i128),
    /// A floating-point argument, kept as its decimal text.
    Float(String),
    Bool(bool),
    Null,
}

/// A named element of the input tree.
pub struct Node {
    pub name: String,
    pub args: Vec<Value>,
    pub children: Vec<Node>,
    pub span: Span,
}

} // verus!

verus! {

/// The named source text that diagnostics point into.
pub struct Source {
    pub name: String,
    pub text: String,
}

pub struct SourceView {
    pub name: Seq<char>,
    pub text: Seq<char>,
}

impl View for Source {
    type V = SourceView;

    open spec fn view(&self) -> SourceView {
        SourceView { name: self.name@, text: self.text@ }
    }
}

impl Source {
    pub fn new(name: String, text: String) -> (r: Source)
        ensures
            r.name@ == name@,
            r.text@ == text@,
    {
        Source { name, text }
    }

    /// A copy of the source, so that each diagnostic can own one.
    pub fn duplicate(&self) -> (r: Source)
        ensures
            r@ == self@,
    {
        Source { name: self.name.clone(), text: self.text.clone() }
    }
}

#[derive(Clone, Copy, Debug, PartialEq, Eq, Structural)]
pub enum Severity {
    Advice,
    Warning,
    Error,
}

/// One reportable problem, tied to a span of the source.
pub struct ParseDiagnostic {
    pub input: Source,
    pub span: Span,
    pub message: Option<String>,
    pub label: Option<String>,
    pub help: Option<String>,
    pub severity: Severity,
}

pub struct DiagnosticView {
    pub input: SourceView,
    pub span: Span,
    pub message: Option<Seq<char>>,
    pub label: Option<Seq<char>>,
    pub help: Option<Seq<char>>,
    pub severity: Severity,
}

pub open spec fn text_view(s: Option<String>) -> Option<Seq<char>> {
    match s {
        Some(t) => Some(t@),
        None => None,
    }
}

impl View for ParseDiagnostic {
    type V = DiagnosticView;

    open spec fn view(&self) -> DiagnosticView {
        DiagnosticView {
            input: self.input@,
            span: self.span,
            message: text_view(self.message),
            label: text_view(self.label),
            help: text_view(self.help),
            severity: self.severity,
        }
    }
}

/// The views of a list of diagnostics, in order.
pub open spec fn views(ds: Seq<ParseDiagnostic>) -> Seq<DiagnosticView> {
    ds.map_values(|d: ParseDiagnostic| d@)
}

/// An error at `span` with a message and an optional help text.
pub open spec fn error_view(
    input: SourceView,
    span: Span,
    message: Seq<char>,
    help: Option<Seq<char>>,
) -> DiagnosticView {
    DiagnosticView { input, span, message: Some(message), label: None, help, severity: Severity::Error }
}

/// Builds an error diagnostic at `span`.
pub fn error_diagnostic(input: &Source, span: Span, message: String, help: Option<String>) -> (r:
    ParseDiagnostic)
    ensures
        r@ == error_view(input@, span, message@, text_view(help)),
{
    ParseDiagnostic {
        input: input.duplicate(),
        span,
        message: Some(message),
        label: None,
        help,
        severity: Severity::Error,
    }
}

/// Appends `d` to the list of diagnostics.
pub fn push_diagnostic(diagnostics: &mut Vec<ParseDiagnostic>, d: ParseDiagnostic)
    ensures
        views(final(diagnostics)@) == views(old(diagnostics)@).push(d@),
{
    diagnostics.push(d);
    assert(views(diagnostics@) =~= views(old(diagnostics)@).push(d@));
}

/// The outcome of parsing one node: a best-effort value and whether it is
/// to be trusted.
pub struct Parsed<T> {
    pub value: T,
    pub full_span: Span,
    pub name_span: Span,
    pub valid: bool,
}

} // verus!
