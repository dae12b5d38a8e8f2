use bookshelf_icons::commands::{add_icon, AddIconError, AddedIcon};
use bookshelf_icons::icon::IconError;

#[test]
fn icon_is_rewritten_and_placed() {
    let added = add_icon(b"<svg fill=\"#123456\"/>", Some("My Icon"), Some("svg"), "Arrow Icons");
    assert_eq!(
        added,
        Ok(AddedIcon {
            directory: "src/v2/icons/arrow-icons".to_string(),
            file_name: "my-icon.svg".to_string(),
            content: "<?xml version=\"1.0\" encoding=\"UTF-8\"?>\n<svg fill=\"currentColor\" />"
                .to_string(),
        })
    );
}

#[test]
fn path_without_stem_is_refused() {
    assert_eq!(
        add_icon(b"<svg/>", None, None, "Arrows"),
        Err(AddIconError::MissingFileStem)
    );
}

#[test]
fn malformed_icon_is_refused() {
    assert_eq!(
        add_icon(b"<svg><path>", Some("icon"), Some("svg"), "Arrows"),
        Err(AddIconError::Content(IconError::Parse(
            "1:12 Unexpected end of stream: still inside the root element".to_string()
        )))
    );
}

#[test]
fn malformed_icon_is_reported_before_a_missing_stem() {
    assert!(matches!(
        add_icon(b"not xml", None, None, "Arrows"),
        Err(AddIconError::Content(IconError::Parse(_)))
    ));
}
