//! Why a build did not finish.

use vstd::prelude::*;

verus! {

/// A failure of the build pipeline. Each variant but one carries the
/// diagnostic of the component that failed, as text.
#[derive(Debug, PartialEq, Eq)]
pub enum Error {
    /// A document's front matter is not valid TOML.
    Toml(String),
    /// A path matched by a pattern could not be read.
    Glob(String),
    /// A file could not be read or written.
    Io(String),
    /// A document is not valid Markdown.
    MarkdownError(String),
    /// A document does not start with front matter.
    MissingFrontMatter,
    /// A pattern is malformed.
    Pattern(String),
    /// A stylesheet did not compile.
    Sass(String),
    /// A template did not render.
    Handlebars(String),
}

impl Error {
    /// The diagnostic that is shown for this error.
    pub open spec fn text(self) -> Seq<char> {
        match self {
            Error::Toml(text) => text@,
            Error::Glob(text) => text@,
            Error::Io(text) => text@,
            Error::MarkdownError(text) => text@,
            Error::MissingFrontMatter => "missing front matter"@,
            Error::Pattern(text) => text@,
            Error::Sass(text) => text@,
            Error::Handlebars(text) => text@,
        }
    }

    /// Renders the error for a log line.
    pub fn message(&self) -> (message: String)
        ensures
            message@ == self.text(),
    {
        match self {
            Error::Toml(text) => text.clone(),
            Error::Glob(text) => text.clone(),
            Error::Io(text) => text.clone(),
            Error::MarkdownError(text) => text.clone(),
            Error::MissingFrontMatter => String::from_str("missing front matter"),
            Error::Pattern(text) => text.clone(),
            Error::Sass(text) => text.clone(),
            Error::Handlebars(text) => text.clone(),
        }
    }
}

} // verus!
