//! The stage that renders the page templates.

use crate::args::BuildMode;
use vstd::prelude::*;

verus! {

/// The name under which templates call the helper that renders its
/// argument in development builds only.
pub const DEV_ONLY_HELPER: &'static str = "ifdev";

/// The name under which templates call the helper that inlines an image.
pub const INLINE_SVG_HELPER: &'static str = "svg";

/// How the template registry is set up for a build.
pub struct HandlebarsCompiler {
    build_mode: BuildMode,
    strict_mode: bool,
    dev_mode: bool,
}

/// The view of a `HandlebarsCompiler`.
pub struct HandlebarsSettings {
    pub build_mode: BuildMode,
    /// A template that names a missing value fails to render.
    pub strict_mode: bool,
    /// Templates are read again whenever they are rendered.
    pub dev_mode: bool,
}

impl View for HandlebarsCompiler {
    type V = HandlebarsSettings;

    closed spec fn view(&self) -> HandlebarsSettings {
        HandlebarsSettings {
            build_mode: self.build_mode,
            strict_mode: self.strict_mode,
            dev_mode: self.dev_mode,
        }
    }
}

impl HandlebarsCompiler {
    /// The settings for a build in the given mode: always strict, and in
    /// development mode exactly for a development build.
    pub fn new(build_mode: BuildMode) -> (compiler: Self)
        ensures
            compiler@ == (HandlebarsSettings {
                build_mode,
                strict_mode: true,
                dev_mode: build_mode == BuildMode::Development,
            }),
    {
        let dev_mode = match build_mode {
            BuildMode::Development => true,
            BuildMode::Release => false,
        };
        Self { build_mode, strict_mode: true, dev_mode }
    }

    /// The mode of the build.
    pub fn build_mode(&self) -> (mode: BuildMode)
        ensures
            mode == self@.build_mode,
    {
        self.build_mode
    }

    /// Whether a missing value fails the rendering.
    pub fn strict_mode(&self) -> (strict: bool)
        ensures
            strict == self@.strict_mode,
    {
        self.strict_mode
    }

    /// Whether pages are rendered for development. This is also the
    /// `dev_mode` that the pages see in their context.
    pub fn dev_mode(&self) -> (dev: bool)
        ensures
            dev == self@.dev_mode,
    {
        self.dev_mode
    }
}

/// Whether the development-only helper renders its argument, given the
/// `dev_mode` of the page's context: it does unless the context says, with
/// a boolean, that this is no development build.
pub fn renders_dev_only(dev_mode: Option<bool>) -> (renders: bool)
    ensures
        renders == (dev_mode != Some(false)),
{
    match dev_mode {
        Some(flag) => flag,
        None => true,
    }
}

} // verus!
