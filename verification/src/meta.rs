//! What a build leaves behind besides the site itself.

use crate::args::BuildMode;
use vstd::prelude::*;
use vstd::string::StringExecFns;

verus! {

/// The name of the file, in the output directory, that records how the site
/// was built.
pub const META_FILE: &'static str = "sitegen_meta.toml";

/// The contents of the metadata file of a build in the given mode.
pub open spec fn meta_text(mode: BuildMode) -> Seq<char> {
    "mode = "@ + mode.name() + "\n"@
}

/// Renders the metadata file of a build in the given mode.
pub fn meta_contents(mode: BuildMode) -> (contents: String)
    ensures
        contents@ == meta_text(mode),
{
    let mut contents = String::from_str("mode = ");
    contents.append(mode.as_str());
    contents.append("\n");
    contents
}

} // verus!
