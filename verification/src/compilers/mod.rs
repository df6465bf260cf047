//! The settings of the stages of the build pipeline.

pub mod file_copier;
pub mod handlebars;
pub mod markdown;
pub mod scss;

pub use self::file_copier::FileCopier;
pub use self::handlebars::HandlebarsCompiler;
pub use self::markdown::{FrontMatter, MarkdownCompiler};
pub use self::scss::{CompilerOptions, SassCompiler};
