use sitegen::args::BuildMode;
use sitegen::compilers::markdown::{publication, slug, template, Day, PostPlan};
use sitegen::compilers::{FrontMatter, MarkdownCompiler};
use sitegen::error::Error;

const POST: &str = "+++\ntitle = \"Moons\"\nslug = \"2024/moons\"\ntemplate = \"post\"\npublished = 2024-02-29T08:00:00Z\n+++\n\n# Moons\n\nTitan[^1] is one.\n\n[^1]: Of Saturn.\n";

fn compiler() -> MarkdownCompiler {
    MarkdownCompiler::new(BuildMode::Release)
}

fn front_matter(text: &str) -> FrontMatter {
    compiler().parse_front_matter(text).unwrap()
}

#[test]
fn markdown_is_rendered_as_html() {
    let html = compiler().to_html("# Hi *Earth*!").unwrap();
    assert_eq!(html, "<h1>Hi <em>Earth</em>!</h1>");
}

#[test]
fn front_matter_is_left_out_of_the_html() {
    let html = compiler().to_html("+++\ntitle = \"x\"\n+++\n\nText.").unwrap();
    assert_eq!(html, "<p>Text.</p>");
}

#[test]
fn footnotes_are_rendered() {
    let html = compiler().to_html(POST).unwrap();
    assert!(html.contains("<h1>Moons</h1>"));
    assert!(html.contains("data-footnote-ref"));
    assert!(html.contains("Of Saturn."));
}

#[test]
fn strikethrough_is_not_switched_on() {
    let html = compiler().to_html("~Venus~Mars!").unwrap();
    assert_eq!(html, "<p>~Venus~Mars!</p>");
}

#[test]
fn front_matter_is_read_from_the_leading_toml_block() {
    let fm = front_matter(POST);
    assert_eq!(fm.get("title").and_then(|v| v.as_str()), Some("Moons"));
    assert_eq!(fm.len(), 4);
    assert_eq!(slug(&fm), Some("2024/moons".to_string()));
    assert_eq!(template(&fm), Some("post".to_string()));
    assert_eq!(publication(&fm), Some(Day { year: 2024, month: 2, day: 29 }));
}

#[test]
fn post_without_front_matter_is_refused() {
    assert_eq!(compiler().parse_front_matter("# Just a heading\n"), Err(Error::MissingFrontMatter));
    assert_eq!(compiler().parse_front_matter(""), Err(Error::MissingFrontMatter));
}

#[test]
fn front_matter_must_come_first() {
    let text = "# Heading\n\n+++\nslug = \"late\"\n+++\n";
    assert_eq!(compiler().parse_front_matter(text), Err(Error::MissingFrontMatter));
}

#[test]
fn yaml_front_matter_is_not_front_matter() {
    let text = "---\nslug: yaml\n---\n\nText.\n";
    assert_eq!(compiler().parse_front_matter(text), Err(Error::MissingFrontMatter));
}

#[test]
fn broken_front_matter_is_refused_with_the_readers_diagnostic() {
    let text = "+++\nslug = \n+++\n\nText.\n";
    match compiler().parse_front_matter(text) {
        Err(Error::Toml(message)) => {
            assert!(!message.is_empty());
            assert!(message.contains("line 1"));
        }
        other => panic!("expected a TOML error, got {:?}", other),
    }
}

#[test]
fn empty_front_matter_is_an_empty_table() {
    let fm = front_matter("+++\n+++\n\nText.\n");
    assert!(fm.is_empty());
    assert_eq!(slug(&fm), None);
    assert_eq!(template(&fm), None);
    assert_eq!(publication(&fm), None);
}

#[test]
fn slug_and_template_must_be_strings() {
    let fm = front_matter("+++\nslug = 7\ntemplate = [\"post\"]\npublished = \"2024-01-01\"\n+++\n");
    assert_eq!(slug(&fm), None);
    assert_eq!(template(&fm), None);
    assert_eq!(publication(&fm), None);
}

#[test]
fn publication_without_a_date_is_in_the_far_future() {
    let fm = front_matter("+++\npublished = 08:30:00\n+++\n");
    assert_eq!(publication(&fm), Some(Day { year: 3000, month: 1, day: 1 }));
    let dated = front_matter("+++\npublished = 1999-12-31\n+++\n");
    assert_eq!(publication(&dated), Some(Day { year: 1999, month: 12, day: 31 }));
}

#[test]
fn unpublished_post_is_skipped_in_a_release_build() {
    let fm = front_matter(POST);
    let release = MarkdownCompiler::new(BuildMode::Release);
    assert_eq!(release.plan_post(&fm, false), Some(PostPlan::Skip));
    assert_eq!(
        release.plan_post(&fm, true),
        Some(PostPlan::Render { template: "post".to_string(), slug: "2024/moons".to_string() })
    );
    let dev = MarkdownCompiler::new(BuildMode::Development);
    assert_eq!(
        dev.plan_post(&fm, false),
        Some(PostPlan::Render { template: "post".to_string(), slug: "2024/moons".to_string() })
    );
}

#[test]
fn post_without_template_or_slug_has_no_plan() {
    let no_template = front_matter("+++\nslug = \"a\"\n+++\n");
    let no_slug = front_matter("+++\ntemplate = \"post\"\n+++\n");
    let dev = MarkdownCompiler::new(BuildMode::Development);
    assert_eq!(dev.plan_post(&no_template, true), None);
    assert_eq!(dev.plan_post(&no_slug, true), None);
    // a post that is skipped needs neither
    let release = MarkdownCompiler::new(BuildMode::Release);
    assert_eq!(release.plan_post(&no_template, false), Some(PostPlan::Skip));
}
