use sitegen::change::ChangeBatch;
use sitegen::error::Error;
use sitegen::rebuild::{Completion, RebuildCoordinator, Verdict};

fn batch(paths: &[&str]) -> ChangeBatch {
    ChangeBatch::new(paths.iter().map(|p| p.to_string()).collect()).unwrap()
}

#[test]
fn new_coordinator_is_idle() {
    let coordinator = RebuildCoordinator::new();
    assert!(!coordinator.is_building());
    assert_eq!(coordinator.waiting(), 0);
}

#[test]
fn first_batch_starts_a_build_for_its_first_path() {
    let mut coordinator = RebuildCoordinator::new();
    let start = coordinator.submit(batch(&["posts/a.md", "posts/b.md"]));
    assert_eq!(start, Some("posts/a.md".to_string()));
    assert!(coordinator.is_building());
    assert_eq!(coordinator.waiting(), 0);
}

#[test]
fn batch_during_a_build_waits() {
    let mut coordinator = RebuildCoordinator::new();
    coordinator.submit(batch(&["one"]));
    assert_eq!(coordinator.submit(batch(&["two"])), None);
    assert_eq!(coordinator.submit(batch(&["three"])), None);
    assert!(coordinator.is_building());
    assert_eq!(coordinator.waiting(), 2);
}

#[test]
fn successful_build_leads_to_a_reload() {
    let mut coordinator = RebuildCoordinator::new();
    coordinator.submit(batch(&["one"]));
    let completion = coordinator.complete(Ok(()));
    assert_eq!(completion, Some(Completion { verdict: Verdict::Reload, next: None }));
    assert!(!coordinator.is_building());
}

#[test]
fn failed_build_leads_to_a_report_with_the_triggering_path() {
    let mut coordinator = RebuildCoordinator::new();
    coordinator.submit(batch(&["styles/site.scss", "styles/other.scss"]));
    let completion = coordinator.complete(Err(Error::Sass("unexpected token".to_string())));
    assert_eq!(
        completion,
        Some(Completion {
            verdict: Verdict::Report {
                path: "styles/site.scss".to_string(),
                message: "unexpected token".to_string(),
            },
            next: None,
        })
    );
    assert!(!coordinator.is_building());
}

#[test]
fn waiting_batches_are_built_in_arrival_order() {
    let mut coordinator = RebuildCoordinator::new();
    assert_eq!(coordinator.submit(batch(&["one"])), Some("one".to_string()));
    assert_eq!(coordinator.submit(batch(&["two", "too"])), None);
    assert_eq!(coordinator.submit(batch(&["three"])), None);

    let first = coordinator.complete(Ok(())).unwrap();
    assert_eq!(first.verdict, Verdict::Reload);
    assert_eq!(first.next, Some("two".to_string()));
    assert!(coordinator.is_building());
    assert_eq!(coordinator.waiting(), 1);

    let second = coordinator.complete(Err(Error::MissingFrontMatter)).unwrap();
    assert_eq!(
        second.verdict,
        Verdict::Report { path: "two".to_string(), message: "missing front matter".to_string() }
    );
    assert_eq!(second.next, Some("three".to_string()));
    assert_eq!(coordinator.waiting(), 0);

    let third = coordinator.complete(Ok(())).unwrap();
    assert_eq!(third, Completion { verdict: Verdict::Reload, next: None });
    assert!(!coordinator.is_building());
}

#[test]
fn completion_without_a_build_is_ignored() {
    let mut coordinator = RebuildCoordinator::new();
    assert_eq!(coordinator.complete(Ok(())), None);
    assert_eq!(coordinator.complete(Err(Error::Io("gone".to_string()))), None);
    assert!(!coordinator.is_building());
    assert_eq!(coordinator.submit(batch(&["one"])), Some("one".to_string()));
}

#[test]
fn build_after_a_failure_starts_as_usual() {
    let mut coordinator = RebuildCoordinator::new();
    coordinator.submit(batch(&["bad.md"]));
    coordinator.complete(Err(Error::MarkdownError("unclosed".to_string())));
    assert_eq!(coordinator.submit(batch(&["good.md"])), Some("good.md".to_string()));
    assert_eq!(
        coordinator.complete(Ok(())),
        Some(Completion { verdict: Verdict::Reload, next: None })
    );
}
