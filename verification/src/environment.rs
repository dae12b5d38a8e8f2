//! The check that the tool runs inside the bookshelf package.

use vstd::prelude::*;
use vstd::string::StringExecFns;

verus! {

/// The name that the package manifest of bookshelf declares.
pub open spec fn bookshelf_package() -> Seq<char> {
    "@connecteam/bookshelf"@
}

/// The working directory belongs to another package.
#[derive(Debug, Clone, PartialEq, Eq)]
pub struct EnvironmentError {
    /// The package name that was found in the manifest.
    pub found: String,
}

/// The text of the message for a manifest that names `found`.
pub open spec fn mismatch_message(found: Seq<char>) -> Seq<char> {
    "This must be executed inside the bookshelf package, found "@ + found + " instead"@
}

impl EnvironmentError {
    /// The message for the user; it names the package that was found.
    pub fn message(&self) -> (text: String)
        ensures
            text@ == mismatch_message(self.found@),
    {
        String::from_str("This must be executed inside the bookshelf package, found ").concat(
            self.found.as_str(),
        ).concat(" instead")
    }
}

/// Accepts the manifest's package name if it is that of bookshelf, and
/// reports the name that was found if it is not.
pub fn is_bookshelf_environment(package_name: &str) -> (checked: Result<(), EnvironmentError>)
    ensures
        checked is Ok <==> package_name@ == bookshelf_package(),
        checked matches Err(error) ==> error.found@ == package_name@,
{
    let found = String::from_str(package_name);
    if found == String::from_str("@connecteam/bookshelf") {
        Ok(())
    } else {
        Err(EnvironmentError { found })
    }
}

} // verus!
