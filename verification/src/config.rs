//! The configuration file as the rest of the crate sees it.

use vstd::prelude::*;

verus! {

/// The whole configuration.
#[derive(Clone, Debug)]
pub struct Config {
    pub build: BuildConfig,
    pub http: HttpConfig,
    pub watch: WatchConfig,
}

/// Where the sources of the site are found and where the site goes.
#[derive(Clone, Debug)]
pub struct BuildConfig {
    /// The directory that the site is built into.
    pub out_dir: String,
    /// The pattern of the page templates.
    pub page_pattern: String,
    /// The pattern of the partial templates.
    pub partials_pattern: String,
    /// The pattern of the posts.
    pub post_pattern: String,
    /// The pattern of the stylesheets.
    pub style_pattern: String,
    /// The patterns of the files that are copied as they are.
    pub copy: Option<Vec<String>>,
}

/// The command that serves the built site over HTTP.
#[derive(Clone, Debug)]
pub struct HttpConfig {
    pub command: String,
    pub args: Option<Vec<String>>,
}

/// The roots that are watched for changes.
#[derive(Clone, Debug)]
pub struct WatchConfig {
    pub paths: Vec<String>,
}

impl HttpConfig {
    /// The arguments that the command is started with: those of the
    /// configuration, or none where it names none.
    pub fn arguments(&self) -> (arguments: &[String])
        ensures
            arguments@ == match self.args {
                Some(args) => args@,
                None => Seq::empty(),
            },
    {
        match &self.args {
            Some(args) => args.as_slice(),
            None => &[],
        }
    }
}

} // verus!
