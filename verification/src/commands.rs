//! The commands of the tool, as far as they compute.

use vstd::prelude::*;
use crate::destination::{category_directory, icon_destination, icon_file_name, IconDestination};
use crate::icon::{fix_icon_content, rewrite_outcome, IconError};
use crate::reader::{parse_failure, parsed_events, xml_parse};

verus! {

/// An icon that is ready to be written into the bookshelf package.
#[derive(Debug, Clone, PartialEq, Eq)]
pub struct AddedIcon {
    /// The directory of the icon, relative to the root of the package.
    pub directory: String,
    /// The file name of the icon inside that directory.
    pub file_name: String,
    /// The rewritten document.
    pub content: String,
}

/// Why an icon could not be added.
#[derive(Debug, Clone, PartialEq, Eq)]
pub enum AddIconError {
    /// The icon could not be rewritten.
    Content(IconError),
    /// The source path has no file stem to name the icon after.
    MissingFileStem,
}

/// Prepares an icon for the bookshelf package.
///
/// `icon` holds the bytes of the source file, `file_stem` and `extension`
/// are those of its path, and `category` is the category that the user
/// chose. The content is rewritten first, so an icon that cannot be rewritten
/// is reported as such whatever its path; then the path must have a stem.
pub fn add_icon(
    icon: &[u8],
    file_stem: Option<&str>,
    extension: Option<&str>,
    category: &str,
) -> (added: Result<AddedIcon, AddIconError>)
    ensures
        match rewrite_outcome(parsed_events(xml_parse(icon@)), parse_failure(xml_parse(icon@))) {
            Err(reason) => added matches Err(AddIconError::Content(error)) && error@ == reason,
            Ok(text) => match file_stem {
                None => added matches Err(AddIconError::MissingFileStem),
                Some(stem) => {
                    &&& added matches Ok(icon)
                    &&& icon.content@ == text
                    &&& icon.directory@ == category_directory(category@)
                    &&& icon.file_name@ == icon_file_name(stem@, extension.deep_view())
                },
            },
        },
{
    let content = match fix_icon_content(icon) {
        Ok(content) => content,
        Err(error) => {
            return Err(AddIconError::Content(error));
        },
    };
    match file_stem {
        None => Err(AddIconError::MissingFileStem),
        Some(stem) => {
            let IconDestination { directory, file_name } = icon_destination(category, stem, extension);
            Ok(AddedIcon { directory, file_name, content })
        },
    }
}

} // verus!
