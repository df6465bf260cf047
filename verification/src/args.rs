//! The command line as the rest of the crate sees it.

use vstd::prelude::*;

verus! {

/// What the program was asked to do.
#[derive(Copy, Clone, Debug, PartialEq, Eq, Structural)]
pub enum Command {
    /// Build the site.
    Build,
    /// Remove previously built artifacts.
    Clean,
    /// Start a development server and host the site locally.
    Serve,
}

/// How the site is built.
#[derive(Copy, Clone, Debug, PartialEq, Eq, Structural)]
pub enum BuildMode {
    /// Non-optimized build with devtools support.
    Development,
    /// Optimized build without any extra functionality.
    Release,
}

impl BuildMode {
    /// The mode's name as it is written on the command line and in the
    /// metadata file of a build.
    pub open spec fn name(self) -> Seq<char> {
        match self {
            BuildMode::Development => "development"@,
            BuildMode::Release => "release"@,
        }
    }

    /// The text that stands for this mode wherever it is printed.
    pub fn as_str(&self) -> (text: &'static str)
        ensures
            text@ == self.name(),
    {
        match self {
            BuildMode::Development => "development",
            BuildMode::Release => "release",
        }
    }

    /// Whether unfinished content is left out of the build.
    pub fn is_release(&self) -> (release: bool)
        ensures
            release == (*self == BuildMode::Release),
    {
        match self {
            BuildMode::Development => false,
            BuildMode::Release => true,
        }
    }
}

/// The parsed command line.
#[derive(Clone, Debug)]
pub struct Args {
    /// The command to run.
    pub command: Command,
    /// The mode to build the site in.
    pub mode: BuildMode,
}

} // verus!
