//! The icon rewrite from bytes to text: parse, set every `fill` to
//! `currentColor`, write the document out again.

use vstd::prelude::*;
use vstd::utf8::{decode_utf8, encode_utf8, encode_utf8_decode_utf8, valid_utf8};
use crate::event::EventView;
use crate::reader::{parse_document, parse_failure, parsed_events, xml_parse, ParsedDocument};
use crate::rewrite::{
    has_no_fill, rewrite_document_is_idempotent, rewrite_events,
    rewrite_keeps_document_without_fill, rewritten_document,
};
use crate::writer::{render_events, written_after, xml_render};

verus! {

/// Why an icon could not be rewritten.
#[derive(Debug, Clone, PartialEq, Eq)]
pub enum IconError {
    /// The input is not well-formed XML; the text is the parser's error.
    Parse(String),
    /// The writer refused an event; the text is the writer's error.
    Write(String),
    /// The written document is not valid UTF-8.
    Encoding,
}

/// The mathematical value of an [`IconError`].
pub enum IconErrorView {
    Parse(Seq<char>),
    Write(Seq<char>),
    Encoding,
}

impl DeepView for IconError {
    type V = IconErrorView;

    open spec fn deep_view(&self) -> IconErrorView {
        match self {
            IconError::Parse(message) => IconErrorView::Parse(message@),
            IconError::Write(message) => IconErrorView::Write(message@),
            IconError::Encoding => IconErrorView::Encoding,
        }
    }
}

impl View for IconError {
    type V = IconErrorView;

    open spec fn view(&self) -> IconErrorView {
        self.deep_view()
    }
}

/// The mathematical value of the result of a rewrite.
pub open spec fn outcome_view(outcome: Result<String, IconError>) -> Result<
    Seq<char>,
    IconErrorView,
> {
    match outcome {
        Ok(text) => Ok(text@),
        Err(error) => Err(error@),
    }
}

/// The text that `bytes` encode, where they are valid UTF-8.
pub open spec fn document_text(bytes: Seq<u8>) -> Result<Seq<char>, IconErrorView> {
    if valid_utf8(bytes) {
        Ok(decode_utf8(bytes))
    } else {
        Err(IconErrorView::Encoding)
    }
}

/// What the rewrite gives for a document that was read as `events`, the
/// parser having stopped with `failure` or at the end of the document.
///
/// The events are rewritten and written in order. An event that the writer
/// refuses ends the rewrite with a write error. A parser error comes after
/// the events that precede it, so it is reported if they were all written.
/// Only a document that was read to its end and written in full gives text.
pub open spec fn rewrite_outcome(events: Seq<EventView>, failure: Option<Seq<char>>) -> Result<
    Seq<char>,
    IconErrorView,
> {
    match written_after(Seq::empty(), rewritten_document(events)) {
        Err(message) => Err(IconErrorView::Write(message)),
        Ok(accepted) => match failure {
            Some(message) => Err(IconErrorView::Parse(message)),
            None => document_text(xml_render(accepted)),
        },
    }
}

/// Calls `String::from_utf8`, which gives the bytes back as a `String` where
/// they are valid UTF-8 and an error where they are not.
#[verifier::external_body]
fn text_from_utf8(bytes: Vec<u8>) -> (text: Option<String>)
    ensures
        text is Some <==> valid_utf8(bytes@),
        text matches Some(decoded) ==> encode_utf8(decoded@) == bytes@,
{
    match String::from_utf8(bytes) {
        Ok(decoded) => Some(decoded),
        Err(_) => None,
    }
}

/// Rewrites a document that has been read already, and writes it out.
pub fn rewrite_parsed(parsed: ParsedDocument) -> (outcome: Result<String, IconError>)
    ensures
        outcome_view(outcome) == rewrite_outcome(
            parsed.events.deep_view(),
            parsed.failure.deep_view(),
        ),
{
    let ParsedDocument { events, failure } = parsed;
    let mut events = events;
    rewrite_events(&mut events);
    match render_events(&events) {
        Err(message) => Err(IconError::Write(message)),
        Ok(bytes) => match failure {
            Some(message) => Err(IconError::Parse(message)),
            None => {
                match text_from_utf8(bytes) {
                    Some(text) => {
                        proof {
                            encode_utf8_decode_utf8(text@);
                        }
                        Ok(text)
                    },
                    None => Err(IconError::Encoding),
                }
            },
        },
    }
}

/// Rewrites the icon in `bytes`: the result is the document with the value
/// of every unqualified `fill` attribute set to `currentColor`, indented.
///
/// Malformed input gives [`IconError::Parse`] and no text.
pub fn fix_icon_content(bytes: &[u8]) -> (outcome: Result<String, IconError>)
    ensures
        outcome_view(outcome) == rewrite_outcome(
            parsed_events(xml_parse(bytes@)),
            parse_failure(xml_parse(bytes@)),
        ),
{
    rewrite_parsed(parse_document(bytes))
}

/// Input on which the parser stopped with an error gives an error and no
/// text, whatever was read before the error.
pub proof fn malformed_input_gives_no_text(events: Seq<EventView>, message: Seq<char>)
    ensures
        rewrite_outcome(events, Some(message)) is Err,
{
}

/// Rewriting a document that has been rewritten gives the same result as
/// rewriting it once: the second pass finds every `fill` set already.
pub proof fn second_rewrite_gives_the_same(events: Seq<EventView>, failure: Option<Seq<char>>)
    ensures
        rewrite_outcome(rewritten_document(events), failure) == rewrite_outcome(events, failure),
{
    rewrite_document_is_idempotent(events);
}

/// A document without an attribute named `fill` is written exactly as it
/// was read: the writer gets the events of the input, in their order.
pub proof fn document_without_fill_is_written_as_read(
    events: Seq<EventView>,
    failure: Option<Seq<char>>,
)
    requires
        forall|i: int| 0 <= i < events.len() ==> has_no_fill(#[trigger] events[i]),
    ensures
        rewrite_outcome(events, failure) == match written_after(Seq::empty(), events) {
            Err(message) => Err(IconErrorView::Write(message)),
            Ok(accepted) => match failure {
                Some(message) => Err(IconErrorView::Parse(message)),
                None => document_text(xml_render(accepted)),
            },
        },
{
    rewrite_keeps_document_without_fill(events);
}

} // verus!
