//! Reading a document: the bytes go through the pull parser of the `xml`
//! crate, and each of its events is taken over as a plain [`Event`].

use vstd::prelude::*;
use crate::event::{Attribute, Event, EventView, Name, XmlVersion};

verus! {

/// An event as the parser of the `xml` crate hands it out. Nothing inside it
/// is visible to the verifier.
#[verifier::external_type_specification]
#[verifier::external_body]
pub struct ExParserEvent(xml::reader::XmlEvent);

/// What the parser of the `xml` crate yields for `bytes` when it is set to
/// keep comments and is otherwise in its default configuration: its events in
/// order, each `Ok` with the event's content or `Err` with the text of the
/// parser's error.
pub uninterp spec fn xml_parse(bytes: Seq<u8>) -> Seq<Result<EventView, Seq<char>>>;

/// What a parser event holds: its variant and its fields, as plain values.
pub uninterp spec fn event_content(event: xml::reader::XmlEvent) -> EventView;

/// What one item of the parser's output holds.
pub open spec fn item_content(item: Result<xml::reader::XmlEvent, String>) -> Result<
    EventView,
    Seq<char>,
> {
    match item {
        Ok(event) => Ok(event_content(event)),
        Err(message) => Err(message@),
    }
}

/// Whether the event is the start or the end of the document, or a
/// processing instruction.
pub open spec fn is_prolog(event: EventView) -> bool {
    event is StartDocument || event is EndDocument || event is ProcessingInstruction
}

/// Whether the event carries one run of text: a CDATA section, a comment,
/// character data or white space.
pub open spec fn is_text(event: EventView) -> bool {
    event is CData || event is Comment || event is Characters || event is Whitespace
}

/// Runs a reader of the `xml` crate over `bytes` to its end through its
/// iterator, which stops after the end of the document or after the first
/// error. The reader has the default configuration, except that it keeps
/// comments. The contract claims that the items are those named by
/// [`xml_parse`], an error being given by its `Display` text.
#[verifier::external_body]
fn read_items(bytes: &[u8]) -> (items: Vec<Result<xml::reader::XmlEvent, String>>)
    ensures
        items@.map_values(|item| item_content(item)) == xml_parse(bytes@),
{
    let reader = xml::ParserConfig::new().ignore_comments(false).create_reader(bytes);
    reader.into_iter().map(|item| item.map_err(|e| e.to_string())).collect()
}

/// Takes a `StartElement` of the `xml` crate apart: its name, its attributes
/// in order, and its namespace map as pairs in the map's order. The contract
/// claims that these are the event's content, and that any other event
/// gives `None`.
#[verifier::external_body]
fn opening_tag(event: &xml::reader::XmlEvent) -> (decoded: Option<Event>)
    ensures
        decoded.deep_view() == if event_content(*event) is StartElement {
            Some(event_content(*event))
        } else {
            None
        },
{
    match event {
        xml::reader::XmlEvent::StartElement { name: n, attributes, namespace } => Some(Event::StartElement {
            name: Name { local_name: n.local_name.clone(), namespace: n.namespace.clone(), prefix: n.prefix.clone() },
            attributes: attributes.iter().map(|a| Attribute {
                name: Name { local_name: a.name.local_name.clone(), namespace: a.name.namespace.clone(), prefix: a.name.prefix.clone() },
                value: a.value.clone(),
            }).collect(),
            namespace: namespace.0.iter().map(|(prefix, uri)| (prefix.clone(), uri.clone())).collect(),
        }),
        _ => None,
    }
}

/// Takes an `EndElement` of the `xml` crate apart. The contract claims that
/// the name is the event's content, and that any other event gives `None`.
#[verifier::external_body]
fn closing_tag(event: &xml::reader::XmlEvent) -> (decoded: Option<Event>)
    ensures
        decoded.deep_view() == if event_content(*event) is EndElement {
            Some(event_content(*event))
        } else {
            None
        },
{
    match event {
        xml::reader::XmlEvent::EndElement { name: n } => Some(Event::EndElement {
            name: Name { local_name: n.local_name.clone(), namespace: n.namespace.clone(), prefix: n.prefix.clone() },
        }),
        _ => None,
    }
}

/// Takes a `StartDocument`, `EndDocument` or `ProcessingInstruction` of the
/// `xml` crate apart. The contract claims that the fields are the event's
/// content, and that any other event gives `None`.
#[verifier::external_body]
fn prolog_event(event: &xml::reader::XmlEvent) -> (decoded: Option<Event>)
    ensures
        decoded.deep_view() == if is_prolog(event_content(*event)) {
            Some(event_content(*event))
        } else {
            None
        },
{
    match event {
        xml::reader::XmlEvent::StartDocument { version, encoding, standalone } => Some(Event::StartDocument {
            version: match version {
                xml::common::XmlVersion::Version10 => XmlVersion::Version10,
                xml::common::XmlVersion::Version11 => XmlVersion::Version11,
            },
            encoding: encoding.clone(),
            standalone: *standalone,
        }),
        xml::reader::XmlEvent::EndDocument => Some(Event::EndDocument),
        xml::reader::XmlEvent::ProcessingInstruction { name, data } =>
            Some(Event::ProcessingInstruction { target: name.clone(), data: data.clone() }),
        _ => None,
    }
}

/// Takes a `CData`, `Comment`, `Characters` or `Whitespace` of the `xml`
/// crate apart. The contract claims that the string is the event's content,
/// and that any other event gives `None`.
#[verifier::external_body]
fn text_event(event: &xml::reader::XmlEvent) -> (decoded: Option<Event>)
    ensures
        decoded.deep_view() == if is_text(event_content(*event)) {
            Some(event_content(*event))
        } else {
            None
        },
{
    match event {
        xml::reader::XmlEvent::CData(content) => Some(Event::CData(content.clone())),
        xml::reader::XmlEvent::Comment(content) => Some(Event::Comment(content.clone())),
        xml::reader::XmlEvent::Characters(content) => Some(Event::Characters(content.clone())),
        xml::reader::XmlEvent::Whitespace(content) => Some(Event::Whitespace(content.clone())),
        _ => None,
    }
}

/// Takes a parser event over as a plain [`Event`].
fn decode(event: &xml::reader::XmlEvent) -> (decoded: Event)
    ensures
        decoded@ == event_content(*event),
{
    if let Some(decoded) = opening_tag(event) {
        decoded
    } else if let Some(decoded) = closing_tag(event) {
        decoded
    } else if let Some(decoded) = prolog_event(event) {
        decoded
    } else if let Some(decoded) = text_event(event) {
        decoded
    } else {
        // Every event is of one of the four groups, so this is never reached.
        Event::EndDocument
    }
}

/// The events that come before the first error.
pub open spec fn parsed_events(items: Seq<Result<EventView, Seq<char>>>) -> Seq<EventView>
    decreases items.len(),
{
    if items.len() == 0 {
        Seq::empty()
    } else {
        match items[0] {
            Ok(event) => seq![event] + parsed_events(items.skip(1)),
            Err(_) => Seq::empty(),
        }
    }
}

/// The text of the first error, if there is one.
pub open spec fn parse_failure(items: Seq<Result<EventView, Seq<char>>>) -> Option<Seq<char>>
    decreases items.len(),
{
    if items.len() == 0 {
        None
    } else {
        match items[0] {
            Ok(_) => parse_failure(items.skip(1)),
            Err(message) => Some(message),
        }
    }
}

/// A document as far as it could be read.
#[derive(Debug, Clone, PartialEq, Eq)]
pub struct ParsedDocument {
    /// The events read before the parser stopped, in document order.
    pub events: Vec<Event>,
    /// The parser's error, where it stopped on one.
    pub failure: Option<String>,
}

/// Parses `bytes` as one XML document.
///
/// The result holds every event up to the end of the document or, where the
/// input is malformed, up to the first error, together with that error.
pub fn parse_document(bytes: &[u8]) -> (parsed: ParsedDocument)
    ensures
        parsed.events.deep_view() == parsed_events(xml_parse(bytes@)),
        parsed.failure.deep_view() == parse_failure(xml_parse(bytes@)),
{
    let items = read_items(bytes);
    let ghost all = xml_parse(bytes@);
    let mut events: Vec<Event> = Vec::new();
    let mut i: usize = 0;
    assert(all.skip(0) =~= all);
    while i < items.len()
        invariant
            i <= items.len(),
            all == xml_parse(bytes@),
            items@.map_values(|item| item_content(item)) == all,
            parsed_events(all) == events.deep_view() + parsed_events(all.skip(i as int)),
            parse_failure(all) == parse_failure(all.skip(i as int)),
        decreases items.len() - i,
    {
        proof {
            assert(all.skip(i as int)[0] == item_content(items@[i as int]));
            assert(all.skip(i as int).skip(1) =~= all.skip(i + 1));
        }
        match &items[i] {
            Ok(event) => {
                let decoded = decode(event);
                let ghost before = events.deep_view();
                events.push(decoded);
                assert(events.deep_view() =~= before + seq![decoded@]);
                assert(before + (seq![decoded@] + parsed_events(all.skip(i + 1))) =~= (before
                    + seq![decoded@]) + parsed_events(all.skip(i + 1)));
            },
            Err(message) => {
                assert(events.deep_view() + Seq::<EventView>::empty() =~= events.deep_view());
                return ParsedDocument { events, failure: Some(message.clone()) };
            },
        }
        i = i + 1;
    }
    assert(events.deep_view() + Seq::<EventView>::empty() =~= events.deep_view());
    ParsedDocument { events, failure: None }
}

} // verus!
