//! The stage that compiles the stylesheets.

use vstd::prelude::*;

verus! {

/// The settings of the Sass compiler. Nothing in this crate looks inside
/// them.
#[verifier::external_type_specification]
#[verifier::external_body]
pub struct ExSassOptions<'a>(grass::Options<'a>);

/// Which stylesheets are compiled, and where the results go.
pub struct CompilerOptions<'a> {
    pub input_pattern: &'a str,
    pub output_path: &'a str,
}

/// `Default::default` of `grass::Options`: the settings that the Sass
/// compiler works with unless it is told otherwise. The contract claims
/// nothing of them.
#[verifier::external_body]
fn default_sass_options<'a>() -> grass::Options<'a> {
    Default::default()
}

/// The Sass compiler as a build sets it up.
pub struct SassCompiler<'a> {
    compiler_options: grass::Options<'a>,
    options: CompilerOptions<'a>,
}

impl<'a> SassCompiler<'a> {
    /// A compiler with the default settings, for the given stylesheets.
    pub fn new(options: CompilerOptions<'a>) -> (compiler: Self)
        ensures
            compiler.options() == options,
    {
        let compiler_options = default_sass_options();
        Self { compiler_options, options }
    }

    /// Which stylesheets are compiled, and where the results go.
    pub closed spec fn options(&self) -> CompilerOptions<'a> {
        self.options
    }

    /// The settings that the stylesheets are compiled with.
    pub fn compiler_options(&self) -> (settings: &grass::Options<'a>)
        ensures
            *settings == self.settings(),
    {
        &self.compiler_options
    }

    /// The settings that this compiler was set up with.
    pub closed spec fn settings(&self) -> grass::Options<'a> {
        self.compiler_options
    }

    /// The pattern of the stylesheets.
    pub fn input_pattern(&self) -> (pattern: &'a str)
        ensures
            pattern == self.options().input_pattern,
    {
        self.options.input_pattern
    }

    /// The directory that the compiled stylesheets are written into.
    pub fn output_path(&self) -> (path: &'a str)
        ensures
            path == self.options().output_path,
    {
        self.options.output_path
    }
}

} // verus!
