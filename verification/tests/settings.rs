use sitegen::args::{Args, BuildMode, Command};
use sitegen::compilers::handlebars::{renders_dev_only, DEV_ONLY_HELPER, INLINE_SVG_HELPER};
use sitegen::compilers::markdown::{is_published, publication_day, Day, Moment};
use sitegen::compilers::{
    CompilerOptions, FileCopier, HandlebarsCompiler, MarkdownCompiler, SassCompiler,
};
use sitegen::config::{BuildConfig, Config, HttpConfig, WatchConfig};
use sitegen::error::Error;
use sitegen::meta::{meta_contents, META_FILE};
use sitegen::post_cache::PostCache;

#[test]
fn build_modes_have_their_names() {
    assert_eq!(BuildMode::Development.as_str(), "development");
    assert_eq!(BuildMode::Release.as_str(), "release");
    assert!(BuildMode::Release.is_release());
    assert!(!BuildMode::Development.is_release());
}

#[test]
fn args_hold_command_and_mode() {
    let args = Args { command: Command::Serve, mode: BuildMode::Development };
    let copy = args.clone();
    assert_eq!(copy.command, Command::Serve);
    assert_eq!(copy.mode, BuildMode::Development);
    assert_ne!(Command::Build, Command::Clean);
}

#[test]
fn meta_file_records_the_mode() {
    assert_eq!(META_FILE, "sitegen_meta.toml");
    assert_eq!(meta_contents(BuildMode::Development), "mode = development\n");
    assert_eq!(meta_contents(BuildMode::Release), "mode = release\n");
}

#[test]
fn errors_show_their_diagnostic() {
    assert_eq!(Error::MissingFrontMatter.message(), "missing front matter");
    assert_eq!(Error::Toml("bad key".to_string()).message(), "bad key");
    assert_eq!(Error::Glob("denied".to_string()).message(), "denied");
    assert_eq!(Error::Io("not found".to_string()).message(), "not found");
    assert_eq!(Error::MarkdownError("unclosed".to_string()).message(), "unclosed");
    assert_eq!(Error::Pattern("**a".to_string()).message(), "**a");
    assert_eq!(Error::Sass("no such mixin".to_string()).message(), "no such mixin");
    assert_eq!(Error::Handlebars("no partial".to_string()).message(), "no partial");
}

fn config(args: Option<Vec<String>>) -> Config {
    Config {
        build: BuildConfig {
            out_dir: "dist".to_string(),
            page_pattern: "pages/*.hbs".to_string(),
            partials_pattern: "partials/*.hbs".to_string(),
            post_pattern: "posts/*.md".to_string(),
            style_pattern: "styles/*.scss".to_string(),
            copy: Some(vec!["static/**/*".to_string()]),
        },
        http: HttpConfig { command: "python3".to_string(), args },
        watch: WatchConfig { paths: vec!["pages".to_string(), "posts".to_string()] },
    }
}

#[test]
fn http_arguments_default_to_none() {
    let with = config(Some(vec!["-m".to_string(), "http.server".to_string()]));
    assert_eq!(with.http.arguments(), ["-m".to_string(), "http.server".to_string()]);
    let without = config(None);
    assert!(without.http.arguments().is_empty());
    assert_eq!(without.clone().watch.paths.len(), 2);
}

#[test]
fn file_copier_keeps_what_it_is_given() {
    let cfg = config(None);
    let copier = FileCopier::new(cfg.build.copy.as_ref(), cfg.build.out_dir.as_str());
    assert_eq!(copier.paths(), Some(&vec!["static/**/*".to_string()]));
    assert_eq!(copier.out_dir(), "dist");
    let nothing = FileCopier::new(None, "out");
    assert!(nothing.paths().is_none());
    assert_eq!(nothing.out_dir(), "out");
}

#[test]
fn compiler_options_hold_pattern_and_path() {
    let options = CompilerOptions { input_pattern: "styles/*.scss", output_path: "dist" };
    assert_eq!(options.input_pattern, "styles/*.scss");
    assert_eq!(options.output_path, "dist");
}

#[test]
fn sass_compiler_keeps_its_options() {
    let options = CompilerOptions { input_pattern: "styles/*.scss", output_path: "dist" };
    let compiler = SassCompiler::new(options);
    assert_eq!(compiler.input_pattern(), "styles/*.scss");
    assert_eq!(compiler.output_path(), "dist");
    let css = grass::from_string("a { b { color: red; } }".to_string(), compiler.compiler_options());
    assert_eq!(css.unwrap(), "a b {\n  color: red;\n}\n");
}

#[test]
fn handlebars_is_strict_and_in_dev_mode_for_development() {
    let dev = HandlebarsCompiler::new(BuildMode::Development);
    assert_eq!(dev.build_mode(), BuildMode::Development);
    assert!(dev.strict_mode());
    assert!(dev.dev_mode());
    let release = HandlebarsCompiler::new(BuildMode::Release);
    assert_eq!(release.build_mode(), BuildMode::Release);
    assert!(release.strict_mode());
    assert!(!release.dev_mode());
    assert_eq!(DEV_ONLY_HELPER, "ifdev");
    assert_eq!(INLINE_SVG_HELPER, "svg");
}

#[test]
fn dev_only_helper_renders_unless_told_otherwise() {
    assert!(renders_dev_only(None));
    assert!(renders_dev_only(Some(true)));
    assert!(!renders_dev_only(Some(false)));
}

#[test]
fn markdown_reads_front_matter_and_footnotes() {
    let compiler = MarkdownCompiler::new(BuildMode::Release);
    assert_eq!(compiler.build_mode(), BuildMode::Release);
    assert!(compiler.frontmatter());
    assert!(compiler.gfm_footnote_definition());
    assert!(compiler.gfm_label_start_footnote());
}

#[test]
fn release_build_leaves_out_unpublished_posts() {
    let release = MarkdownCompiler::new(BuildMode::Release);
    assert!(release.renders(true));
    assert!(!release.renders(false));
    let dev = MarkdownCompiler::new(BuildMode::Development);
    assert!(dev.renders(true));
    assert!(dev.renders(false));
}

#[test]
fn undated_post_is_published_in_the_year_3000() {
    assert_eq!(publication_day(None), Day { year: 3000, month: 1, day: 1 });
    assert_eq!(publication_day(Some((2024, 2, 29))), Day { year: 2024, month: 2, day: 29 });
    assert_eq!(publication_day(Some((u16::MAX, u8::MAX, 0))), Day { year: 65535, month: 255, day: 0 });
}

#[test]
fn post_is_published_once_its_day_has_begun() {
    let midnight = Moment { seconds: 1_700_000_000, nanos: 0 };
    assert!(!is_published(None, midnight));
    assert!(!is_published(Some(midnight), midnight));
    assert!(is_published(Some(midnight), Moment { seconds: 1_700_000_000, nanos: 1 }));
    assert!(is_published(Some(midnight), Moment { seconds: 1_700_000_001, nanos: 0 }));
    assert!(!is_published(Some(midnight), Moment { seconds: 1_699_999_999, nanos: 999_999_999 }));
    assert!(is_published(Some(Moment { seconds: -5, nanos: 0 }), Moment { seconds: 0, nanos: 0 }));
}

#[test]
fn post_cache_keeps_posts_in_order() {
    let mut cache = PostCache::new();
    assert!(cache.posts().is_empty());
    let mut first = toml::Table::new();
    first.insert("slug".to_string(), toml::Value::String("first".to_string()));
    let mut second = toml::Table::new();
    second.insert("slug".to_string(), toml::Value::String("second".to_string()));
    cache.add_ref(first.clone());
    cache.add_ref(second.clone());
    assert_eq!(cache.posts().len(), 2);
    assert_eq!(cache.posts()[0], first);
    assert_eq!(cache.posts()[1], second);
}
