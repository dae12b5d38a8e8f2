use bookshelf_icons::event::{Event, Name};
use bookshelf_icons::icon::{fix_icon_content, rewrite_parsed, IconError};
use bookshelf_icons::reader::{parse_document, ParsedDocument};
use bookshelf_icons::rewrite::is_fill_name;

fn local(name: &str) -> Name {
    Name { local_name: name.to_string(), namespace: None, prefix: None }
}

fn without_layout(events: Vec<Event>) -> Vec<Event> {
    events.into_iter().filter(|event| !matches!(event, Event::Whitespace(_))).collect()
}

#[test]
fn selective_replacement() {
    let output = fix_icon_content(
        b"<svg><path fill=\"#FF0000\" stroke=\"#000\"/><path d=\"M0 0\"/></svg>",
    );
    assert_eq!(
        output,
        Ok("<?xml version=\"1.0\" encoding=\"UTF-8\"?>\n<svg>\n  <path fill=\"currentColor\" stroke=\"#000\" />\n  <path d=\"M0 0\" />\n</svg>".to_string())
    );
    let output = output.unwrap();
    assert_eq!(output.matches("fill=\"currentColor\"").count(), 1);
    assert!(output.contains("stroke=\"#000\""));
    assert!(output.contains("d=\"M0 0\""));
    assert_eq!(output.matches("<path").count(), 2);
    assert_eq!(output.matches("<svg").count(), 1);
}

#[test]
fn unclosed_tag_is_a_parse_error() {
    assert_eq!(
        fix_icon_content(b"<svg><path>"),
        Err(IconError::Parse(
            "1:12 Unexpected end of stream: still inside the root element".to_string()
        ))
    );
}

#[test]
fn empty_input_is_a_parse_error() {
    assert_eq!(
        fix_icon_content(b""),
        Err(IconError::Parse("1:1 Unexpected end of stream: no root element found".to_string()))
    );
}

#[test]
fn unknown_entity_is_a_parse_error() {
    assert_eq!(
        fix_icon_content(b"<svg>&bogus;</svg>"),
        Err(IconError::Parse("1:12 Unexpected entity: bogus".to_string()))
    );
}

#[test]
fn invalid_encoding_is_a_parse_error() {
    assert!(matches!(fix_icon_content(b"<svg>\xff</svg>"), Err(IconError::Parse(_))));
}

#[test]
fn fill_in_a_namespace_is_not_replaced() {
    let output = fix_icon_content(
        b"<svg xmlns:x=\"urn:x\"><path x:fill=\"red\" fill=\"blue\"/></svg>",
    );
    assert_eq!(
        output,
        Ok("<?xml version=\"1.0\" encoding=\"UTF-8\"?>\n<svg xmlns:x=\"urn:x\">\n  <path x:fill=\"red\" fill=\"currentColor\" />\n</svg>".to_string())
    );
}

#[test]
fn everything_but_fill_survives() {
    let output = fix_icon_content(
        b"<?xml version=\"1.1\" encoding=\"UTF-8\" standalone=\"yes\"?><!-- c --><?pi some data?><svg xmlns=\"http://www.w3.org/2000/svg\" xmlns:x=\"urn:x\" x:fill=\"red\" fill=\"blue\"><![CDATA[raw]]>text <g/> </svg>",
    );
    assert_eq!(
        output,
        Ok("<?xml version=\"1.1\" encoding=\"UTF-8\" standalone=\"yes\"?>\n<!-- c -->\n<?pi some data?>\n<svg xmlns=\"http://www.w3.org/2000/svg\" xmlns:x=\"urn:x\" x:fill=\"red\" fill=\"currentColor\"><![CDATA[raw]]>text <g /> </svg>".to_string())
    );
}

#[test]
fn second_pass_changes_no_fill() {
    let first = fix_icon_content(
        b"<svg fill=\"none\"><g fill=\"#fff\"><path fill=\"red\" d=\"M1 1\"/></g><text>fill</text></svg>",
    )
    .unwrap();
    let second = fix_icon_content(first.as_bytes()).unwrap();
    assert_eq!(second.matches("fill=\"currentColor\"").count(), 3);
    let parsed = parse_document(second.as_bytes());
    assert_eq!(parsed.failure, None);
    for event in &parsed.events {
        if let Event::StartElement { attributes, .. } = event {
            for attribute in attributes {
                if is_fill_name(&attribute.name) {
                    assert_eq!(attribute.value, "currentColor");
                }
            }
        }
    }
    assert_eq!(
        without_layout(parsed.events),
        without_layout(parse_document(first.as_bytes()).events)
    );
}

#[test]
fn document_without_fill_keeps_its_structure() {
    let input: &[u8] =
        b"<svg viewBox=\"0 0 24 24\"><g stroke=\"#000\"><path d=\"M0 0\"/></g><title>An icon</title></svg>";
    let output = fix_icon_content(input).unwrap();
    assert_eq!(
        without_layout(parse_document(output.as_bytes()).events),
        without_layout(parse_document(input).events)
    );
    assert!(!output.contains("currentColor"));
}

#[test]
fn parser_error_is_reported_for_a_parsed_document() {
    let parsed = ParsedDocument { events: vec![], failure: Some("boom".to_string()) };
    assert_eq!(rewrite_parsed(parsed), Err(IconError::Parse("boom".to_string())));
}

#[test]
fn writer_error_is_reported_for_a_parsed_document() {
    let parsed = ParsedDocument {
        events: vec![
            Event::StartElement { name: local("svg"), attributes: vec![], namespace: vec![] },
            Event::EndElement { name: local("g") },
        ],
        failure: None,
    };
    assert_eq!(
        rewrite_parsed(parsed),
        Err(IconError::Write(
            "emitter error: end element name is not equal to last start element name".to_string()
        ))
    );
}

#[test]
fn writer_error_comes_before_a_later_parser_error() {
    let parsed = ParsedDocument {
        events: vec![Event::EndElement { name: local("svg") }],
        failure: Some("boom".to_string()),
    };
    assert_eq!(
        rewrite_parsed(parsed),
        Err(IconError::Write("emitter error: last element name is not available".to_string()))
    );
}

#[test]
fn parsed_document_is_rewritten_and_written() {
    let parsed = parse_document(b"<svg><circle fill=\"red\"/></svg>");
    assert_eq!(
        rewrite_parsed(parsed),
        Ok("<?xml version=\"1.0\" encoding=\"UTF-8\"?>\n<svg>\n  <circle fill=\"currentColor\" />\n</svg>".to_string())
    );
}

#[test]
fn text_outside_ascii_is_kept() {
    assert_eq!(
        fix_icon_content("<svg><title>Pfeil \u{2192} rechts</title></svg>".as_bytes()),
        Ok("<?xml version=\"1.0\" encoding=\"UTF-8\"?>\n<svg>\n  <title>Pfeil \u{2192} rechts</title>\n</svg>".to_string())
    );
}
