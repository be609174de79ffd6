//! Errors and the diagnostics they become.

use vstd::prelude::*;
use crate::ids::{LiveFileId, LiveTokenId, TextPos};
use crate::text::{decimal, push_decimal, push_text};

verus! {

/// The call site that reports an error: a name for grouping, and a line.
#[derive(Clone, Debug, PartialEq, Eq)]
pub struct LiveErrorOrigin {
    pub filename: String,
    pub line: u32,
}

/// The part of the source that an error is about.
#[derive(Clone, Copy, Debug, PartialEq, Eq, Structural)]
pub enum LiveErrorSpan {
    /// A token of a registered file.
    Token(LiveTokenId),
    /// A position in a registered file.
    Text { file_id: LiveFileId, start: TextPos },
}

/// An error that is not yet tied to a file name and position.
#[derive(Clone, Debug, PartialEq, Eq)]
pub struct LiveError {
    pub origin: LiveErrorOrigin,
    pub span: LiveErrorSpan,
    pub message: String,
}

/// A file name and a position in that file.
#[derive(Clone, Debug, PartialEq, Eq)]
pub struct LivePlace {
    pub file: String,
    pub pos: TextPos,
}

/// An error with the place it is about, where the place is known.
#[derive(Clone, Debug, PartialEq, Eq)]
pub struct LiveFileError {
    pub origin: LiveErrorOrigin,
    pub message: String,
    pub place: Option<LivePlace>,
}

/// Why a pointer could not be resolved.
#[derive(Clone, Copy, Debug, PartialEq, Eq, Structural)]
pub enum LiveResolveError {
    /// The pointer's generation is not the current generation of its
    /// document, or its file was never registered.
    StaleReference,
    /// The generation is current, but the document has no node at the
    /// pointer's index.
    NoSuchNode,
}

/// The classes of diagnostics.
#[derive(Clone, Copy, Debug, PartialEq, Eq, Structural)]
pub enum DiagnosticKind {
    ParseFailure,
    ExpansionFailure,
    StaleReference,
    StructuralApplyError,
    DegradedDiagnostic,
}

/// One reported line.
#[derive(Clone, Debug, PartialEq, Eq)]
pub struct Diagnostic {
    pub kind: DiagnosticKind,
    pub text: String,
}

/// A diagnostic as contracts speak of it: its class and its characters.
pub struct DiagnosticView {
    pub kind: DiagnosticKind,
    pub text: Seq<char>,
}

impl View for Diagnostic {
    type V = DiagnosticView;

    open spec fn view(&self) -> DiagnosticView {
        DiagnosticView { kind: self.kind, text: self.text@ }
    }
}

/// The views of a list of diagnostics, in order.
pub open spec fn diagnostics_view(log: Seq<Diagnostic>) -> Seq<DiagnosticView> {
    log.map_values(|d: Diagnostic| d@)
}

/// Appends one diagnostic to a log.
pub fn push_diagnostic(log: &mut Vec<Diagnostic>, kind: DiagnosticKind, text: String)
    ensures
        diagnostics_view(final(log)@) == diagnostics_view(old(log)@).push(
            DiagnosticView { kind, text: text@ },
        ),
{
    let ghost entry = DiagnosticView { kind, text: text@ };
    log.push(Diagnostic { kind, text });
    assert(diagnostics_view(log@) =~= diagnostics_view(old(log)@).push(entry));
}

impl LiveErrorOrigin {
    /// The origin with the given name and line.
    pub fn new(filename: &str, line: u32) -> (origin: LiveErrorOrigin)
        ensures
            origin.filename@ == filename@,
            origin.line == line,
    {
        LiveErrorOrigin { filename: String::from_str(filename), line }
    }

    /// The text of an origin: its name, a colon, and its line in decimal.
    pub open spec fn text(&self) -> Seq<char> {
        self.filename@ + ":"@ + decimal(self.line as nat)
    }

    /// Appends the text of the origin.
    pub fn push_to(&self, out: &mut String)
        ensures
            final(out)@ == old(out)@ + self.text(),
    {
        push_text(out, self.filename.as_str());
        push_text(out, ":");
        push_decimal(out, self.line as u64);
        assert(out@ =~= old(out)@ + self.text());
    }
}

/// The text of a place: ` at `, the file name, and line and column in
/// decimal, each after a colon. No place gives no text.
pub open spec fn place_text(place: Option<(Seq<char>, TextPos)>) -> Seq<char> {
    match place {
        Some((file, pos)) => " at "@ + file + ":"@ + decimal(pos.line as nat) + ":"@ + decimal(
            pos.column as nat,
        ),
        None => Seq::<char>::empty(),
    }
}

/// The line that reports an error: the origin, a colon and a space, the
/// message, and the place where there is one.
pub open spec fn file_error_text(
    origin: Seq<char>,
    message: Seq<char>,
    place: Option<(Seq<char>, TextPos)>,
) -> Seq<char> {
    origin + ": "@ + message + place_text(place)
}

impl LiveFileError {
    /// The place as contracts speak of it.
    pub open spec fn spec_place(&self) -> Option<(Seq<char>, TextPos)> {
        match self.place {
            Some(p) => Some((p.file@, p.pos)),
            None => None,
        }
    }

    /// The line that reports this error.
    pub open spec fn text(&self) -> Seq<char> {
        file_error_text(self.origin.text(), self.message@, self.spec_place())
    }

    /// Appends the line that reports this error.
    pub fn push_to(&self, out: &mut String)
        ensures
            final(out)@ == old(out)@ + self.text(),
    {
        self.origin.push_to(out);
        push_text(out, ": ");
        push_text(out, self.message.as_str());
        match &self.place {
            Some(p) => {
                push_text(out, " at ");
                push_text(out, p.file.as_str());
                push_text(out, ":");
                push_decimal(out, p.pos.line as u64);
                push_text(out, ":");
                push_decimal(out, p.pos.column as u64);
            },
            None => {},
        }
        assert(out@ =~= old(out)@ + self.text());
    }

    /// The line that reports this error, as a string of its own.
    pub fn to_text(&self) -> (line: String)
        ensures
            line@ == self.text(),
    {
        let mut line = String::new();
        self.push_to(&mut line);
        assert(line@ =~= self.text());
        line
    }
}

} // verus!
