//! The front matter of the posts of a build, for the pages that list them.

use crate::compilers::markdown::FrontMatter;
use vstd::prelude::*;

verus! {

/// The front matter of the posts that were rendered, in the order in which
/// they were rendered.
pub struct PostCache {
    posts: Vec<FrontMatter>,
}

impl View for PostCache {
    type V = Seq<FrontMatter>;

    closed spec fn view(&self) -> Seq<FrontMatter> {
        self.posts@
    }
}

impl PostCache {
    /// A cache without posts.
    pub fn new() -> (cache: Self)
        ensures
            cache@ == Seq::<FrontMatter>::empty(),
    {
        let posts = Vec::new();
        Self { posts }
    }

    /// Adds the front matter of a post behind those that are there.
    pub fn add_ref(&mut self, post: FrontMatter)
        ensures
            final(self)@ == old(self)@.push(post),
    {
        self.posts.push(post);
    }

    /// The front matter of all the posts.
    pub fn posts(&self) -> (posts: &[FrontMatter])
        ensures
            posts@ == self@,
    {
        self.posts.as_slice()
    }
}

} // verus!
