//! Diagnostics collected by semantic analysis.
use vstd::prelude::*;
use crate::error::errors::{CompileError, CompileErrorView};
use crate::location::source_span::{SourceSpan, SpanView};
use crate::semantic::symbol_table::opt_span_view;

verus! {

/// How serious a diagnostic is.
#[derive(Debug, Clone, Copy, PartialEq, Eq, Structural, Hash, PartialOrd, Ord)]
pub enum DiagnosticSeverity {
    Warning,
    Error,
    Fatal,
    Internal,
    Recovery,
}

/// The severities that make an analysis fail.
pub open spec fn is_failure(s: DiagnosticSeverity) -> bool {
    s == DiagnosticSeverity::Error || s == DiagnosticSeverity::Fatal || s == DiagnosticSeverity::Internal
}

/// A diagnostic: its severity, the compiler error it reports if any, its
/// message, and where it applies if anywhere.
#[derive(Debug)]
pub struct Diagnostic {
    severity: DiagnosticSeverity,
    error: Option<CompileError>,
    message: String,
    span: Option<SourceSpan>,
}

/// The mathematical value of a [`Diagnostic`].
pub struct DiagnosticView {
    pub severity: DiagnosticSeverity,
    pub error: Option<CompileErrorView>,
    pub message: Seq<char>,
    pub span: Option<SpanView>,
}

impl View for Diagnostic {
    type V = DiagnosticView;

    closed spec fn view(&self) -> DiagnosticView {
        DiagnosticView {
            severity: self.severity,
            error: match self.error {
                Some(e) => Some(e@),
                None => None,
            },
            message: self.message@,
            span: opt_span_view(self.span),
        }
    }
}

impl Diagnostic {
    /// An error diagnostic reporting a compiler error: the error's message
    /// and span.
    pub fn error(error: CompileError) -> (r: Self)
        ensures
            r@ == (DiagnosticView {
                severity: DiagnosticSeverity::Error,
                error: Some(error@),
                message: error@.message(),
                span: match error@ {
                    CompileErrorView::Located { span, .. } => Some(span),
                    CompileErrorView::Io(_) => None,
                },
            }),
    {
        let message = error.message().to_owned();
        let span = match error.span() {
            Some(s) => Some(s.clone()),
            None => None,
        };
        Self { severity: DiagnosticSeverity::Error, error: Some(error), message, span }
    }

    /// An internal diagnostic with a message and an optional span.
    pub fn internal(message: String, span: Option<SourceSpan>) -> (r: Self)
        ensures
            r@ == (DiagnosticView {
                severity: DiagnosticSeverity::Internal,
                error: None,
                message: message@,
                span: opt_span_view(span),
            }),
    {
        Self { severity: DiagnosticSeverity::Internal, error: None, message, span }
    }

    /// The severity.
    pub fn severity(&self) -> (r: DiagnosticSeverity)
        ensures
            r == self@.severity,
    {
        self.severity
    }

    /// The message.
    pub fn message(&self) -> (r: &str)
        ensures
            r@ == self@.message,
    {
        self.message.as_str()
    }

    /// Where the diagnostic applies, if anywhere.
    pub fn span(&self) -> (r: Option<&SourceSpan>)
        ensures
            match r {
                Some(s) => self@.span == Some(s@),
                None => self@.span is None,
            },
    {
        match &self.span {
            Some(s) => Some(s),
            None => None,
        }
    }

    /// The compiler error reported, if any.
    pub fn reported_error(&self) -> (r: Option<&CompileError>)
        ensures
            match r {
                Some(e) => self@.error == Some(e@),
                None => self@.error is None,
            },
    {
        match &self.error {
            Some(e) => Some(e),
            None => None,
        }
    }
}

/// The diagnostics emitted so far, in order.
#[derive(Debug)]
pub struct DiagnosticEngine {
    diagnostics: Vec<Diagnostic>,
}

/// The views of a list of diagnostics.
pub open spec fn diagnostics_view(s: Seq<Diagnostic>) -> Seq<DiagnosticView> {
    s.map_values(|d: Diagnostic| d@)
}

impl View for DiagnosticEngine {
    type V = Seq<DiagnosticView>;

    closed spec fn view(&self) -> Seq<DiagnosticView> {
        diagnostics_view(self.diagnostics@)
    }
}

impl DiagnosticEngine {
    /// An engine without diagnostics.
    pub fn new() -> (r: Self)
        ensures
            r@ == Seq::<DiagnosticView>::empty(),
    {
        let r = Self { diagnostics: Vec::new() };
        assert(r@ =~= Seq::<DiagnosticView>::empty());
        r
    }

    /// Records a diagnostic after the others.
    pub fn emit(&mut self, diagnostic: Diagnostic)
        ensures
            final(self)@ == old(self)@.push(diagnostic@),
    {
        let ghost d = diagnostic@;
        self.diagnostics.push(diagnostic);
        assert(self@ =~= old(self)@.push(d));
    }

    /// The diagnostics, in the order emitted.
    pub fn diagnostics(&self) -> (r: &[Diagnostic])
        ensures
            diagnostics_view(r@) == self@,
    {
        let r = self.diagnostics.as_slice();
        assert(r@ == self.diagnostics@);
        r
    }

    /// Whether some diagnostic is an error, a fatal error or an internal error.
    pub fn has_errors(&self) -> (r: bool)
        ensures
            r == exists|i: int| 0 <= i < self@.len() && is_failure(#[trigger] self@[i].severity),
    {
        let mut i: usize = 0;
        while i < self.diagnostics.len()
            invariant
                i <= self@.len(),
                self@.len() == self.diagnostics@.len(),
                forall|k: int| 0 <= k < i ==> !is_failure(#[trigger] self@[k].severity),
            decreases self.diagnostics.len() - i,
        {
            let s = self.diagnostics[i].severity;
            assert(self@[i as int] == self.diagnostics@[i as int]@);
            if s == DiagnosticSeverity::Error || s == DiagnosticSeverity::Fatal || s == DiagnosticSeverity::Internal {
                assert(self@[i as int].severity == s);
                assert(is_failure(self@[i as int].severity));
                return true;
            }
            i = i + 1;
        }
        false
    }

    /// The number of diagnostics.
    pub fn len(&self) -> (r: usize)
        ensures
            r == self@.len(),
    {
        self.diagnostics.len()
    }

    /// Whether there are no diagnostics.
    pub fn is_empty(&self) -> (r: bool)
        ensures
            r == (self@.len() == 0),
    {
        self.diagnostics.len() == 0
    }
}

impl Default for DiagnosticEngine {
    fn default() -> (r: Self)
        ensures
            r@ == Seq::<DiagnosticView>::empty(),
    {
        Self::new()
    }
}

} // verus!
