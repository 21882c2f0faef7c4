//! Errors reported by the compiler phases.
use vstd::prelude::*;
use crate::error::error_code::ErrorCode;
use crate::location::source_span::{SourceSpan, SpanView};

verus! {

/// An error found by one of the compiler phases.
#[derive(Debug, PartialEq, Eq)]
pub enum CompileError {
    LexerError { code: Option<ErrorCode>, message: String, span: SourceSpan, help: Option<String> },
    SyntaxError { code: Option<ErrorCode>, message: String, span: SourceSpan, help: Option<String> },
    TypeError { code: Option<ErrorCode>, message: String, span: SourceSpan, help: Option<String> },
    IoError(String),
}

/// The phase an error comes from.
#[derive(PartialEq, Eq)]
pub enum ErrorPhase {
    Lexer,
    Syntax,
    Type,
}

/// The mathematical value of a [`CompileError`].
pub enum CompileErrorView {
    Located {
        phase: ErrorPhase,
        code: Option<ErrorCode>,
        message: Seq<char>,
        span: SpanView,
        help: Option<Seq<char>>,
    },
    Io(Seq<char>),
}

pub open spec fn opt_text(s: Option<String>) -> Option<Seq<char>> {
    match s {
        Some(t) => Some(t@),
        None => None,
    }
}

impl View for CompileError {
    type V = CompileErrorView;

    open spec fn view(&self) -> CompileErrorView {
        match self {
            CompileError::LexerError { code, message, span, help } => CompileErrorView::Located {
                phase: ErrorPhase::Lexer,
                code: *code,
                message: message@,
                span: span@,
                help: opt_text(*help),
            },
            CompileError::SyntaxError { code, message, span, help } => CompileErrorView::Located {
                phase: ErrorPhase::Syntax,
                code: *code,
                message: message@,
                span: span@,
                help: opt_text(*help),
            },
            CompileError::TypeError { code, message, span, help } => CompileErrorView::Located {
                phase: ErrorPhase::Type,
                code: *code,
                message: message@,
                span: span@,
                help: opt_text(*help),
            },
            CompileError::IoError(message) => CompileErrorView::Io(message@),
        }
    }
}

impl CompileErrorView {
    pub open spec fn code(self) -> Option<ErrorCode> {
        match self {
            CompileErrorView::Located { code, .. } => code,
            CompileErrorView::Io(_) => None,
        }
    }

    pub open spec fn message(self) -> Seq<char> {
        match self {
            CompileErrorView::Located { message, .. } => message,
            CompileErrorView::Io(message) => message,
        }
    }
}

fn clone_opt_text(s: &Option<String>) -> (r: Option<String>)
    ensures
        opt_text(r) == opt_text(*s),
{
    match s {
        Some(t) => Some(t.clone()),
        None => None,
    }
}

impl Clone for CompileError {
    fn clone(&self) -> (r: Self)
        ensures
            r@ == self@,
    {
        match self {
            CompileError::LexerError { code, message, span, help } => CompileError::LexerError {
                code: *code,
                message: message.clone(),
                span: span.clone(),
                help: clone_opt_text(help),
            },
            CompileError::SyntaxError { code, message, span, help } => CompileError::SyntaxError {
                code: *code,
                message: message.clone(),
                span: span.clone(),
                help: clone_opt_text(help),
            },
            CompileError::TypeError { code, message, span, help } => CompileError::TypeError {
                code: *code,
                message: message.clone(),
                span: span.clone(),
                help: clone_opt_text(help),
            },
            CompileError::IoError(message) => CompileError::IoError(message.clone()),
        }
    }
}

impl CompileError {
    /// The diagnostic code of the error, if it has one.
    pub fn error_code(&self) -> (r: Option<&ErrorCode>)
        ensures
            match r {
                Some(c) => self@.code() == Some(*c),
                None => self@.code() is None,
            },
    {
        match self {
            CompileError::LexerError { code, .. }
            | CompileError::SyntaxError { code, .. }
            | CompileError::TypeError { code, .. } => match code {
                Some(c) => Some(c),
                None => None,
            },
            CompileError::IoError(_) => None,
        }
    }

    /// The source span of the error; I/O errors have none.
    pub fn span(&self) -> (r: Option<&SourceSpan>)
        ensures
            match r {
                Some(s) => self@ matches CompileErrorView::Located { span, .. } && span == s@,
                None => self@ is Io,
            },
    {
        match self {
            CompileError::LexerError { span, .. }
            | CompileError::SyntaxError { span, .. }
            | CompileError::TypeError { span, .. } => Some(span),
            CompileError::IoError(_) => None,
        }
    }

    /// The message of the error.
    pub fn message(&self) -> (r: &str)
        ensures
            r@ == self@.message(),
    {
        match self {
            CompileError::LexerError { message, .. }
            | CompileError::SyntaxError { message, .. }
            | CompileError::TypeError { message, .. }
            | CompileError::IoError(message) => message.as_str(),
        }
    }
}

} // verus!
