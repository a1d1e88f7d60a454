//! Compiler diagnostics: a severity, the source they point into, a span and a
//! message, with optional label, suggestion and help texts. Rendering is left
//! to the embedding program; the library only carries the data.

use vstd::prelude::*;

use crate::span::Span;

verus! {

#[derive(Debug, Clone, Copy, PartialEq, Eq, Structural)]
pub enum DiagnosticSeverity {
    Error,
    Warning,
    Info,
    Hint,
}

#[derive(Debug, Clone)]
pub struct Diagnostic {
    severity: DiagnosticSeverity,
    source_id: String,
    span: Span,
    message: String,
    label: Option<String>,
    suggestion: Option<String>,
    help: Option<String>,
}

impl Diagnostic {
    pub closed spec fn spec_severity(&self) -> DiagnosticSeverity {
        self.severity
    }

    pub closed spec fn spec_source_id(&self) -> Seq<char> {
        self.source_id@
    }

    pub closed spec fn spec_span(&self) -> Span {
        self.span
    }

    pub closed spec fn spec_message(&self) -> Seq<char> {
        self.message@
    }

    pub closed spec fn spec_label(&self) -> Option<String> {
        self.label
    }

    pub closed spec fn spec_suggestion(&self) -> Option<String> {
        self.suggestion
    }

    pub closed spec fn spec_help(&self) -> Option<String> {
        self.help
    }

    pub fn new(
        severity: DiagnosticSeverity,
        source_id: String,
        span: Span,
        message: String,
    ) -> (d: Self)
        ensures
            d.spec_severity() == severity,
            d.spec_source_id() == source_id@,
            d.spec_span() == span,
            d.spec_message() == message@,
            d.spec_label() is None,
            d.spec_suggestion() is None,
            d.spec_help() is None,
    {
        Self { severity, source_id, span, message, label: None, suggestion: None, help: None }
    }

    pub fn with_label(self, label: String) -> (d: Self)
        ensures
            d.spec_label() matches Some(l) && l@ == label@,
            d.spec_severity() == self.spec_severity(),
            d.spec_source_id() == self.spec_source_id(),
            d.spec_span() == self.spec_span(),
            d.spec_message() == self.spec_message(),
            d.spec_suggestion() == self.spec_suggestion(),
            d.spec_help() == self.spec_help(),
    {
        Self { label: Some(label), ..self }
    }

    pub fn with_suggestion(self, suggestion: String) -> (d: Self)
        ensures
            d.spec_suggestion() matches Some(s) && s@ == suggestion@,
            d.spec_severity() == self.spec_severity(),
            d.spec_source_id() == self.spec_source_id(),
            d.spec_span() == self.spec_span(),
            d.spec_message() == self.spec_message(),
            d.spec_label() == self.spec_label(),
            d.spec_help() == self.spec_help(),
    {
        Self { suggestion: Some(suggestion), ..self }
    }

    pub fn with_help(self, help: String) -> (d: Self)
        ensures
            d.spec_help() matches Some(h) && h@ == help@,
            d.spec_severity() == self.spec_severity(),
            d.spec_source_id() == self.spec_source_id(),
            d.spec_span() == self.spec_span(),
            d.spec_message() == self.spec_message(),
            d.spec_label() == self.spec_label(),
            d.spec_suggestion() == self.spec_suggestion(),
    {
        Self { help: Some(help), ..self }
    }

    pub fn severity(&self) -> (s: DiagnosticSeverity)
        ensures
            s == self.spec_severity(),
    {
        self.severity
    }

    pub fn span(&self) -> (s: Span)
        ensures
            s == self.spec_span(),
    {
        self.span
    }

    pub fn message(&self) -> (m: &str)
        ensures
            m@ == self.spec_message(),
    {
        self.message.as_str()
    }

    pub fn source_id(&self) -> (s: &str)
        ensures
            s@ == self.spec_source_id(),
    {
        self.source_id.as_str()
    }

    pub fn error(source_id: String, span: Span, message: String) -> (d: Self)
        ensures
            d.spec_severity() == DiagnosticSeverity::Error,
            d.spec_source_id() == source_id@,
            d.spec_span() == span,
            d.spec_message() == message@,
    {
        Self::new(DiagnosticSeverity::Error, source_id, span, message)
    }

    pub fn warning(source_id: String, span: Span, message: String) -> (d: Self)
        ensures
            d.spec_severity() == DiagnosticSeverity::Warning,
            d.spec_source_id() == source_id@,
            d.spec_span() == span,
            d.spec_message() == message@,
    {
        Self::new(DiagnosticSeverity::Warning, source_id, span, message)
    }

    pub fn info(source_id: String, span: Span, message: String) -> (d: Self)
        ensures
            d.spec_severity() == DiagnosticSeverity::Info,
            d.spec_source_id() == source_id@,
            d.spec_span() == span,
            d.spec_message() == message@,
    {
        Self::new(DiagnosticSeverity::Info, source_id, span, message)
    }

    pub fn hint(source_id: String, span: Span, message: String) -> (d: Self)
        ensures
            d.spec_severity() == DiagnosticSeverity::Hint,
            d.spec_source_id() == source_id@,
            d.spec_span() == span,
            d.spec_message() == message@,
    {
        Self::new(DiagnosticSeverity::Hint, source_id, span, message)
    }
}

} // verus!
