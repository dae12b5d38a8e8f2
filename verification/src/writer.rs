//! Writing a document: the events go, one by one, to the event writer of the
//! `xml` crate, which is set to indent its output.

use vstd::prelude::*;
use crate::event::{Attribute, Event, EventView, Name, XmlVersion};

verus! {

/// The event writer of the `xml` crate. Nothing inside it is visible to the
/// verifier.
#[verifier::external_type_specification]
#[verifier::external_body]
#[verifier::reject_recursive_types(W)]
pub struct ExEventWriter<W>(xml::writer::EventWriter<W>);

/// The events that a writer has accepted since it was made, in order.
pub uninterp spec fn written(writer: xml::writer::EventWriter<Vec<u8>>) -> Seq<EventView>;

/// Whether an indenting writer that has accepted `written` refuses `event`
/// next: `None` where it accepts it, else the text of its error.
pub uninterp spec fn write_rejection(written: Seq<EventView>, event: EventView) -> Option<
    Seq<char>,
>;

/// The bytes that an indenting writer has put out once it has accepted
/// `written`.
pub uninterp spec fn xml_render(written: Seq<EventView>) -> Seq<u8>;

/// The error text of a write that failed, `None` for one that succeeded.
pub open spec fn refusal(result: Result<xml::writer::EventWriter<Vec<u8>>, String>) -> Option<
    Seq<char>,
> {
    match result {
        Ok(_) => None,
        Err(message) => Some(message@),
    }
}

/// Makes a writer into a fresh `Vec<u8>` with
/// `xml::EmitterConfig::new().perform_indent(true)`. The contract claims that
/// it has accepted nothing yet.
#[verifier::external_body]
fn indenting_writer() -> (writer: xml::writer::EventWriter<Vec<u8>>)
    ensures
        written(writer) == Seq::<EventView>::empty(),
{
    xml::EmitterConfig::new().perform_indent(true).create_writer(Vec::new())
}

/// Calls `EventWriter::write` with a `StartDocument`, the encoding given as
/// `Some`. The contract claims that the outcome depends only on what the
/// writer had accepted and on the event.
#[verifier::external_body]
fn write_start_document(
    writer: xml::writer::EventWriter<Vec<u8>>,
    version: XmlVersion,
    encoding: &str,
    standalone: Option<bool>,
) -> (result: Result<xml::writer::EventWriter<Vec<u8>>, String>)
    ensures
        refusal(result) == write_rejection(
            written(writer),
            EventView::StartDocument {
                version,
                encoding: encoding@,
                standalone,
            },
        ),
        result matches Ok(next) ==> written(next) == written(writer).push(
            EventView::StartDocument {
                version,
                encoding: encoding@,
                standalone,
            },
        ),
{
    let mut writer = writer;
    let version = match version {
        XmlVersion::Version10 => xml::common::XmlVersion::Version10,
        XmlVersion::Version11 => xml::common::XmlVersion::Version11,
    };
    let event = xml::writer::XmlEvent::StartDocument { version, encoding: Some(encoding), standalone };
    writer.write(event).map_err(|e| e.to_string())?;
    Ok(writer)
}

/// Calls `EventWriter::write` with a `ProcessingInstruction`. The contract
/// claims that the outcome depends only on what the writer had accepted and
/// on the event.
#[verifier::external_body]
fn write_processing_instruction(
    writer: xml::writer::EventWriter<Vec<u8>>,
    target: &str,
    data: &Option<String>,
) -> (result: Result<xml::writer::EventWriter<Vec<u8>>, String>)
    ensures
        refusal(result) == write_rejection(
            written(writer),
            EventView::ProcessingInstruction {
                target: target@,
                data: data.deep_view(),
            },
        ),
        result matches Ok(next) ==> written(next) == written(writer).push(
            EventView::ProcessingInstruction {
                target: target@,
                data: data.deep_view(),
            },
        ),
{
    let mut writer = writer;
    let event = xml::writer::XmlEvent::ProcessingInstruction { name: target, data: data.as_deref() };
    writer.write(event).map_err(|e| e.to_string())?;
    Ok(writer)
}

/// Calls `EventWriter::write` with a `StartElement` that borrows the name
/// and the attributes and owns a namespace map collected from the pairs. The
/// contract claims that the outcome depends only on what the writer had
/// accepted and on the event.
#[verifier::external_body]
fn write_start_element(
    writer: xml::writer::EventWriter<Vec<u8>>,
    name: &Name,
    attributes: &Vec<Attribute>,
    namespace: &Vec<(String, String)>,
) -> (result: Result<xml::writer::EventWriter<Vec<u8>>, String>)
    ensures
        refusal(result) == write_rejection(
            written(writer),
            EventView::StartElement {
                name: name@,
                attributes: attributes.deep_view(),
                namespace: namespace.deep_view(),
            },
        ),
        result matches Ok(next) ==> written(next) == written(writer).push(
            EventView::StartElement {
                name: name@,
                attributes: attributes.deep_view(),
                namespace: namespace.deep_view(),
            },
        ),
{
    let mut writer = writer;
    let event = xml::writer::XmlEvent::StartElement {
        name: xml::name::Name { local_name: &name.local_name, namespace: name.namespace.as_deref(), prefix: name.prefix.as_deref() },
        attributes: attributes.iter().map(|a| xml::attribute::Attribute {
            name: xml::name::Name { local_name: &a.name.local_name, namespace: a.name.namespace.as_deref(), prefix: a.name.prefix.as_deref() },
            value: &a.value,
        }).collect(),
        namespace: std::borrow::Cow::Owned(xml::namespace::Namespace(namespace.iter().cloned().collect())),
    };
    writer.write(event).map_err(|e| e.to_string())?;
    Ok(writer)
}

/// Calls `EventWriter::write` with an `EndElement` that names the element.
/// The contract claims that the outcome depends only on what the writer had
/// accepted and on the event.
#[verifier::external_body]
fn write_end_element(writer: xml::writer::EventWriter<Vec<u8>>, name: &Name) -> (result: Result<
    xml::writer::EventWriter<Vec<u8>>,
    String,
>)
    ensures
        refusal(result) == write_rejection(written(writer), EventView::EndElement { name: name@ }),
        result matches Ok(next) ==> written(next) == written(writer).push(EventView::EndElement { name: name@ }),
{
    let mut writer = writer;
    let name = xml::name::Name { local_name: &name.local_name, namespace: name.namespace.as_deref(), prefix: name.prefix.as_deref() };
    writer.write(xml::writer::XmlEvent::EndElement { name: Some(name) }).map_err(|e| e.to_string())?;
    Ok(writer)
}

/// Calls `EventWriter::write` with a `CData`. The contract claims that the
/// outcome depends only on what the writer had accepted and on the event.
#[verifier::external_body]
fn write_cdata(writer: xml::writer::EventWriter<Vec<u8>>, content: &str) -> (result: Result<
    xml::writer::EventWriter<Vec<u8>>,
    String,
>)
    ensures
        refusal(result) == write_rejection(written(writer), EventView::CData(content@)),
        result matches Ok(next) ==> written(next) == written(writer).push(EventView::CData(content@)),
{
    let mut writer = writer;
    writer.write(xml::writer::XmlEvent::CData(content)).map_err(|e| e.to_string())?;
    Ok(writer)
}

/// Calls `EventWriter::write` with a `Comment`. The contract claims that the
/// outcome depends only on what the writer had accepted and on the event.
#[verifier::external_body]
fn write_comment(writer: xml::writer::EventWriter<Vec<u8>>, content: &str) -> (result: Result<
    xml::writer::EventWriter<Vec<u8>>,
    String,
>)
    ensures
        refusal(result) == write_rejection(written(writer), EventView::Comment(content@)),
        result matches Ok(next) ==> written(next) == written(writer).push(EventView::Comment(content@)),
{
    let mut writer = writer;
    writer.write(xml::writer::XmlEvent::Comment(content)).map_err(|e| e.to_string())?;
    Ok(writer)
}

/// Calls `EventWriter::write` with a `Characters`. The contract claims that
/// the outcome depends only on what the writer had accepted and on the
/// event.
#[verifier::external_body]
fn write_characters(writer: xml::writer::EventWriter<Vec<u8>>, content: &str) -> (result: Result<
    xml::writer::EventWriter<Vec<u8>>,
    String,
>)
    ensures
        refusal(result) == write_rejection(written(writer), EventView::Characters(content@)),
        result matches Ok(next) ==> written(next) == written(writer).push(EventView::Characters(content@)),
{
    let mut writer = writer;
    writer.write(xml::writer::XmlEvent::Characters(content)).map_err(|e| e.to_string())?;
    Ok(writer)
}

/// Calls `EventWriter::into_inner`, which hands out the `Vec<u8>` that the
/// writer wrote into. The contract claims that its bytes are those named by
/// [`xml_render`].
#[verifier::external_body]
fn written_bytes(writer: xml::writer::EventWriter<Vec<u8>>) -> (bytes: Vec<u8>)
    ensures
        bytes@ == xml_render(written(writer)),
{
    writer.into_inner()
}

/// The event that is written for a parsed event, if any: the end of the
/// document has no written form, white space is written as character data,
/// and every other event is written as it is.
pub open spec fn writer_form(event: EventView) -> Option<EventView> {
    match event {
        EventView::EndDocument => None,
        EventView::Whitespace(content) => Some(EventView::Characters(content)),
        other => Some(other),
    }
}

/// What the writer has accepted after `events` were offered to it in order,
/// starting from `written`; or the error of the first event that it refused.
pub open spec fn written_after(written: Seq<EventView>, events: Seq<EventView>) -> Result<
    Seq<EventView>,
    Seq<char>,
>
    decreases events.len(),
{
    if events.len() == 0 {
        Ok(written)
    } else {
        match writer_form(events[0]) {
            None => written_after(written, events.skip(1)),
            Some(form) => match write_rejection(written, form) {
                Some(message) => Err(message),
                None => written_after(written.push(form), events.skip(1)),
            },
        }
    }
}

/// Offers one event to the writer.
fn emit(writer: xml::writer::EventWriter<Vec<u8>>, event: &Event) -> (result: Result<
    xml::writer::EventWriter<Vec<u8>>,
    String,
>)
    ensures
        match writer_form(event@) {
            None => result == Ok::<xml::writer::EventWriter<Vec<u8>>, String>(writer),
            Some(form) => {
                &&& refusal(result) == write_rejection(written(writer), form)
                &&& result matches Ok(next) ==> written(next) == written(writer).push(form)
            },
        },
{
    match event {
        Event::StartDocument { version, encoding, standalone } => write_start_document(
            writer,
            *version,
            encoding.as_str(),
            *standalone,
        ),
        Event::EndDocument => Ok(writer),
        Event::ProcessingInstruction { target, data } => write_processing_instruction(
            writer,
            target.as_str(),
            data,
        ),
        Event::StartElement { name, attributes, namespace } => write_start_element(
            writer,
            name,
            attributes,
            namespace,
        ),
        Event::EndElement { name } => write_end_element(writer, name),
        Event::CData(content) => write_cdata(writer, content.as_str()),
        Event::Comment(content) => write_comment(writer, content.as_str()),
        Event::Characters(content) => write_characters(writer, content.as_str()),
        Event::Whitespace(content) => write_characters(writer, content.as_str()),
    }
}

/// Writes `events` in order as one indented document and returns its bytes.
///
/// The writer checks the stream as it goes (an end tag must name the element
/// that is open, a document starts once): the first event that it refuses
/// ends the run with its error, and no bytes are returned.
pub fn render_events(events: &Vec<Event>) -> (rendered: Result<Vec<u8>, String>)
    ensures
        match written_after(Seq::empty(), events.deep_view()) {
            Ok(accepted) => rendered matches Ok(bytes) && bytes@ == xml_render(accepted),
            Err(message) => rendered matches Err(text) && text@ == message,
        },
{
    let ghost all = events.deep_view();
    let mut writer = indenting_writer();
    let mut i: usize = 0;
    assert(all.skip(0) =~= all);
    while i < events.len()
        invariant
            i <= events.len(),
            all == events.deep_view(),
            written_after(Seq::empty(), all) == written_after(written(writer), all.skip(i as int)),
        decreases events.len() - i,
    {
        proof {
            assert(all.skip(i as int)[0] == events[i as int]@);
            assert(all.skip(i as int).skip(1) =~= all.skip(i + 1));
        }
        match emit(writer, &events[i]) {
            Ok(next) => {
                writer = next;
            },
            Err(message) => {
                return Err(message);
            },
        }
        i = i + 1;
    }
    Ok(written_bytes(writer))
}

} // verus!
