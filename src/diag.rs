//! Diagnostics collected during execution.
use vstd::prelude::*;

verus! {

/// A location in the source text, as a range of byte offsets.
#[derive(Clone, Copy, Debug, PartialEq, Eq, Structural, Default)]
pub struct Span {
    pub start: usize,
    pub end: usize,
}

/// How severe a diagnostic is.
#[derive(Clone, Copy, Debug, PartialEq, Eq, Structural)]
pub enum Level {
    Warning,
    Error,
}

/// A diagnostic with a severity level, a message and the place it concerns.
#[derive(Debug)]
pub struct Diag {
    pub level: Level,
    pub span: Span,
    pub message: String,
}

/// The plain content of a diagnostic.
pub struct DiagView {
    pub level: Level,
    pub span: Span,
    pub message: Seq<char>,
}

impl View for Diag {
    type V = DiagView;

    open spec fn view(&self) -> DiagView {
        DiagView { level: self.level, span: self.span, message: self.message@ }
    }
}

impl Diag {
    /// Create an error diagnostic.
    pub fn error(span: Span, message: &str) -> (r: Diag)
        ensures
            r@ == (DiagView { level: Level::Error, span, message: message@ }),
    {
        Diag { level: Level::Error, span, message: message.to_string() }
    }
}

/// The result of a pass together with the diagnostics it produced.
pub struct Pass<T> {
    pub output: T,
    pub diags: Vec<Diag>,
}

} // verus!
