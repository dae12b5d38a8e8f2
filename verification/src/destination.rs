//! Where an icon goes inside the bookshelf package.

use convert_case::{Case, Casing};
use vstd::prelude::*;
use vstd::string::StringExecFns;

verus! {

/// What `to_case(Case::Kebab)` of the `convert_case` crate gives for `text`.
pub uninterp spec fn kebab_case(text: Seq<char>) -> Seq<char>;

/// Calls `Casing::to_case` with `Case::Kebab`, which splits the text into
/// words, puts them in lower case and joins them with hyphens.
#[verifier::external_body]
fn to_kebab_case(text: &str) -> (kebab: String)
    ensures
        kebab@ == kebab_case(text@),
{
    text.to_case(Case::Kebab)
}

/// The icons directory, relative to the root of the bookshelf package, with
/// the separator that precedes a category.
pub open spec fn icons_root() -> Seq<char> {
    "src/v2/icons/"@
}

/// The directory of a category, relative to the root of the package.
pub open spec fn category_directory(category: Seq<char>) -> Seq<char> {
    icons_root() + kebab_case(category)
}

/// The file name of an icon: its stem in kebab case, and the extension of
/// the source file appended after a dot where it has one.
pub open spec fn icon_file_name(file_stem: Seq<char>, extension: Option<Seq<char>>) -> Seq<char> {
    match extension {
        Some(extension) => kebab_case(file_stem) + "."@ + extension,
        None => kebab_case(file_stem),
    }
}

/// Where an icon is written, relative to the root of the bookshelf package.
#[derive(Debug, Clone, PartialEq, Eq)]
pub struct IconDestination {
    /// The directory of the icon's category.
    pub directory: String,
    /// The icon's file name inside that directory.
    pub file_name: String,
}

/// Derives the destination of an icon from its category and from the stem
/// and extension of the source file's name.
pub fn icon_destination(category: &str, file_stem: &str, extension: Option<&str>) -> (destination:
    IconDestination)
    ensures
        destination.directory@ == category_directory(category@),
        destination.file_name@ == icon_file_name(file_stem@, extension.deep_view()),
{
    let directory = String::from_str("src/v2/icons/").concat(to_kebab_case(category).as_str());
    let stem = to_kebab_case(file_stem);
    let file_name = match extension {
        Some(extension) => stem.concat(".").concat(extension),
        None => stem,
    };
    IconDestination { directory, file_name }
}

} // verus!
