//! The stage that copies files into the site as they are.

use vstd::prelude::*;

verus! {

/// What is copied, and where to.
pub struct FileCopier<'a> {
    paths: Option<&'a Vec<String>>,
    out_dir: &'a str,
}

impl<'a> FileCopier<'a> {
    /// A copier of the files that match `paths` into `out_dir`.
    pub fn new(paths: Option<&'a Vec<String>>, out_dir: &'a str) -> (copier: Self)
        ensures
            copier.patterns() == paths,
            copier.destination() == out_dir,
    {
        Self { out_dir, paths }
    }

    /// The patterns of the files to copy.
    pub closed spec fn patterns(&self) -> Option<&'a Vec<String>> {
        self.paths
    }

    /// The directory that the files are copied into.
    pub closed spec fn destination(&self) -> &'a str {
        self.out_dir
    }

    /// The patterns of the files to copy, if any are configured.
    pub fn paths(&self) -> (paths: Option<&'a Vec<String>>)
        ensures
            paths == self.patterns(),
    {
        self.paths
    }

    /// The directory that the files are copied into.
    pub fn out_dir(&self) -> (out_dir: &'a str)
        ensures
            out_dir == self.destination(),
    {
        self.out_dir
    }
}

} // verus!
