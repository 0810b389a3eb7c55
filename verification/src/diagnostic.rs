//! Structured error reports: a primary message with a location, and notes.

use crate::span::Span;
use vstd::prelude::*;

verus! {

/// A remark added to a diagnostic, pointing at a place of its own.
#[derive(Clone, Debug, PartialEq, Eq)]
pub struct DiagnosticNote {
    pub message: String,
    pub span: Option<Span>,
}

/// What a note says, as a mathematical value.
pub struct NoteView {
    pub message: Seq<char>,
    pub span: Option<Span>,
}

impl View for DiagnosticNote {
    type V = NoteView;

    open spec fn view(&self) -> NoteView {
        NoteView { message: self.message@, span: self.span }
    }
}

/// An error report for the author of a query: the primary message, where in
/// the query it applies, and the notes in the order in which they were added.
#[derive(Clone, Debug, PartialEq, Eq)]
pub struct Diagnostic {
    pub message: String,
    pub span: Option<Span>,
    pub notes: Vec<DiagnosticNote>,
}

/// What a diagnostic says, as a mathematical value.
pub struct DiagnosticView {
    pub message: Seq<char>,
    pub span: Option<Span>,
    pub notes: Seq<NoteView>,
}

impl View for Diagnostic {
    type V = DiagnosticView;

    open spec fn view(&self) -> DiagnosticView {
        DiagnosticView {
            message: self.message@,
            span: self.span,
            notes: self.notes@.map_values(|note: DiagnosticNote| note@),
        }
    }
}

impl Diagnostic {
    /// A diagnostic with the given primary message and location, and no notes.
    pub fn new_error(message: String, span: Option<Span>) -> (diagnostic: Diagnostic)
        ensures
            diagnostic@ == (DiagnosticView { message: message@, span, notes: Seq::empty() }),
    {
        let diagnostic = Diagnostic { message, span, notes: Vec::new() };
        assert(diagnostic@.notes =~= Seq::empty());
        diagnostic
    }

    /// The same diagnostic with one more note after those it already has.
    pub fn with_note(self, message: String, span: Option<Span>) -> (diagnostic: Diagnostic)
        ensures
            diagnostic@ == (DiagnosticView {
                notes: self@.notes.push(NoteView { message: message@, span }),
                ..self@
            }),
    {
        let mut diagnostic = self;
        let ghost before = diagnostic.notes@;
        diagnostic.notes.push(DiagnosticNote { message, span });
        assert(diagnostic@.notes =~= before.map_values(|note: DiagnosticNote| note@).push(
            NoteView { message: message@, span },
        ));
        diagnostic
    }
}

} // verus!
