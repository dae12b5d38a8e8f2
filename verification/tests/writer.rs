use bookshelf_icons::event::{Attribute, Event, Name, XmlVersion};
use bookshelf_icons::writer::render_events;

fn local(name: &str) -> Name {
    Name { local_name: name.to_string(), namespace: None, prefix: None }
}

fn open(name: &str, attributes: Vec<Attribute>) -> Event {
    Event::StartElement { name: local(name), attributes, namespace: vec![] }
}

fn close(name: &str) -> Event {
    Event::EndElement { name: local(name) }
}

fn attribute(name: &str, value: &str) -> Attribute {
    Attribute { name: local(name), value: value.to_string() }
}

fn text(rendered: Result<Vec<u8>, String>) -> String {
    String::from_utf8(rendered.unwrap()).unwrap()
}

#[test]
fn no_events_give_no_bytes() {
    assert_eq!(render_events(&vec![]), Ok(vec![]));
}

#[test]
fn nested_elements_are_indented() {
    let events = vec![
        open("svg", vec![]),
        open("g", vec![]),
        open("path", vec![attribute("d", "M0 0")]),
        close("path"),
        close("g"),
        close("svg"),
    ];
    assert_eq!(
        text(render_events(&events)),
        "<?xml version=\"1.0\" encoding=\"UTF-8\"?>\n<svg>\n  <g>\n    <path d=\"M0 0\" />\n  </g>\n</svg>"
    );
}

#[test]
fn declaration_is_written_as_given() {
    let events = vec![
        Event::StartDocument {
            version: XmlVersion::Version11,
            encoding: "utf-8".to_string(),
            standalone: Some(false),
        },
        open("svg", vec![]),
        close("svg"),
    ];
    assert_eq!(
        text(render_events(&events)),
        "<?xml version=\"1.1\" encoding=\"utf-8\" standalone=\"no\"?>\n<svg />"
    );
}

#[test]
fn end_of_document_writes_nothing() {
    let with_end = vec![open("svg", vec![]), close("svg"), Event::EndDocument];
    let without_end = vec![open("svg", vec![]), close("svg")];
    assert_eq!(render_events(&with_end), render_events(&without_end));
    assert_eq!(render_events(&vec![Event::EndDocument]), Ok(vec![]));
}

#[test]
fn white_space_is_written_as_character_data() {
    let spaced = vec![open("a", vec![]), Event::Whitespace(" \n ".to_string()), close("a")];
    let characters = vec![open("a", vec![]), Event::Characters(" \n ".to_string()), close("a")];
    assert_eq!(render_events(&spaced), render_events(&characters));
    assert_eq!(
        text(render_events(&spaced)),
        "<?xml version=\"1.0\" encoding=\"UTF-8\"?>\n<a> \n </a>"
    );
}

#[test]
fn text_and_attribute_values_are_escaped() {
    let events = vec![
        open("a", vec![attribute("title", "x < \"y\" & z")]),
        Event::Characters("1 < 2 & 3".to_string()),
        Event::CData("<raw>".to_string()),
        close("a"),
    ];
    assert_eq!(
        text(render_events(&events)),
        "<?xml version=\"1.0\" encoding=\"UTF-8\"?>\n<a title=\"x &lt; &quot;y&quot; &amp; z\">1 &lt; 2 &amp; 3<![CDATA[<raw>]]></a>"
    );
}

#[test]
fn comment_and_processing_instruction_are_written() {
    let events = vec![
        Event::Comment("note".to_string()),
        Event::ProcessingInstruction { target: "pi".to_string(), data: Some("x y".to_string()) },
        Event::ProcessingInstruction { target: "bare".to_string(), data: None },
        open("svg", vec![]),
        close("svg"),
    ];
    assert_eq!(
        text(render_events(&events)),
        "<!-- note -->\n<?xml version=\"1.0\" encoding=\"UTF-8\"?>\n<?pi x y?>\n<?bare?>\n<svg />"
    );
}

#[test]
fn new_namespace_bindings_are_declared_once() {
    let scope = vec![
        ("".to_string(), "http://www.w3.org/2000/svg".to_string()),
        ("x".to_string(), "urn:x".to_string()),
        ("xml".to_string(), "http://www.w3.org/XML/1998/namespace".to_string()),
    ];
    let svg = Name {
        local_name: "svg".to_string(),
        namespace: Some("http://www.w3.org/2000/svg".to_string()),
        prefix: None,
    };
    let rect = Name {
        local_name: "rect".to_string(),
        namespace: Some("urn:x".to_string()),
        prefix: Some("x".to_string()),
    };
    let events = vec![
        Event::StartElement { name: svg.clone(), attributes: vec![], namespace: scope.clone() },
        Event::StartElement { name: rect.clone(), attributes: vec![], namespace: scope },
        Event::EndElement { name: rect },
        Event::EndElement { name: svg },
    ];
    assert_eq!(
        text(render_events(&events)),
        "<?xml version=\"1.0\" encoding=\"UTF-8\"?>\n<svg xmlns=\"http://www.w3.org/2000/svg\" xmlns:x=\"urn:x\">\n  <x:rect />\n</svg>"
    );
}

#[test]
fn closing_tag_must_name_the_open_element() {
    let events = vec![open("svg", vec![]), close("g")];
    assert_eq!(
        render_events(&events),
        Err("emitter error: end element name is not equal to last start element name".to_string())
    );
}

#[test]
fn closing_tag_needs_an_open_element() {
    assert_eq!(
        render_events(&vec![close("svg")]),
        Err("emitter error: last element name is not available".to_string())
    );
}

#[test]
fn document_starts_only_once() {
    let declaration = Event::StartDocument {
        version: XmlVersion::Version10,
        encoding: "UTF-8".to_string(),
        standalone: None,
    };
    let events = vec![declaration.clone(), open("svg", vec![]), declaration, close("svg")];
    assert_eq!(
        render_events(&events),
        Err("emitter error: document start event has already been emitted".to_string())
    );
}
