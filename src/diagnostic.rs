use vstd::prelude::*;

use crate::expression::Span;

verus! {

/// A message attached to a place in the source. The primary label marks
/// where the rule was broken; a context label explains why.
#[derive(Clone, Debug, PartialEq)]
pub struct Label {
    pub message: String,
    pub primary: bool,
    pub span: Span,
}

/// What a label shows: its text, its span, and whether it is primary.
pub open spec fn label_view(l: Label) -> (Seq<char>, Span, bool) {
    (l.message@, l.span, l.primary)
}

impl Label {
    pub fn primary(message: String, span: Span) -> (r: Label)
        ensures
            r.message == message,
            r.span == span,
            r.primary,
    {
        Label { message, primary: true, span }
    }

    pub fn context(message: String, span: Span) -> (r: Label)
        ensures
            r.message == message,
            r.span == span,
            !r.primary,
    {
        Label { message, primary: false, span }
    }
}

/// A hint on how to mend an error.
#[derive(Clone, Debug, PartialEq)]
pub enum Note {
    /// Values can be coerced to the kind that is needed.
    CoerceValue,
    /// Documentation about a topic, at an address.
    SeeDocs(String, String),
}

pub open spec fn note_text(n: Note) -> Seq<char> {
    match n {
        Note::CoerceValue => "you can coerce the value to the kind needed with a coercion function"@,
        Note::SeeDocs(topic, url) => "see documentation about "@ + topic@ + " at "@ + url@,
    }
}

impl Note {
    /// How this note reads.
    pub fn message(&self) -> (r: String)
        ensures
            r@ == note_text(*self),
    {
        match self {
            Note::CoerceValue => String::from_str(
                "you can coerce the value to the kind needed with a coercion function",
            ),
            Note::SeeDocs(topic, url) => {
                let mut out = String::from_str("see documentation about ");
                out.append(topic.as_str());
                out.append(" at ");
                out.append(url.as_str());
                out
            },
        }
    }
}

/// Addresses of the documentation.
pub struct Urls;

pub open spec fn func_docs_url(anchor: Seq<char>) -> Seq<char> {
    "https://vrl.dev/functions/"@ + anchor
}

impl Urls {
    /// The address of the function documentation at `anchor`.
    pub fn func_docs(anchor: &str) -> (r: String)
        ensures
            r@ == func_docs_url(anchor@),
    {
        let mut out = String::from_str("https://vrl.dev/functions/");
        out.append(anchor);
        out
    }
}

} // verus!
