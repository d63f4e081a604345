use sheepstor::git::GitRepository;
use sheepstor::job::{Action, Event, Phase};
use sheepstor::website::{ContentProcessor, Website};
use sheepstor::website_registry::{BatchPhase, WebsiteRegistry};

fn site(id: &str) -> Website {
    Website {
        id: id.to_string(),
        content_processor: ContentProcessor::Hugo,
        processor_root: "site".to_string(),
        github_webhook_secret_env_key: "SECRET".to_string(),
        webroot: String::new(),
        index: false,
        git: GitRepository {
            clone_id: format!("https://example.org/{id}.git"),
            branch: "main".to_string(),
            working_dir: String::new(),
        },
        ingest_token_env_key: Some("TOKEN".to_string()),
        content_root: "content/{YEAR}".to_string(),
    }
}

fn registry(ids: &[&str]) -> WebsiteRegistry {
    WebsiteRegistry {
        source_root: "/srv/sources".to_string(),
        docs_root: "/srv/docs".to_string(),
        tmp_folder: "/tmp".to_string(),
        websites: ids.iter().map(|id| site(id)).collect(),
    }
}

#[test]
fn count_counts_websites() {
    assert_eq!(registry(&["a", "b", "c"]).count(), 3);
    assert_eq!(registry(&[]).count(), 0);
}

#[test]
fn count_wraps_at_256() {
    let ids: Vec<String> = (0..300).map(|i| format!("s{i}")).collect();
    let refs: Vec<&str> = ids.iter().map(|s| s.as_str()).collect();
    assert_eq!(registry(&refs).count(), 44);
}

#[test]
fn lookup_finds_website_by_id() {
    let r = registry(&["blog", "docs"]);
    assert_eq!(r.get_website_by_id("docs").unwrap().id, "docs");
    assert!(r.get_website_by_id("shop").is_none());
    assert!(r.get_website_by_id("").is_none());
}

#[test]
fn lookup_gives_first_of_equal_ids() {
    let mut r = registry(&["blog", "blog"]);
    r.websites[1].git.branch = "second".to_string();
    assert_eq!(r.get_website_by_id("blog").unwrap().git.branch, "main");
}

#[test]
fn initialise_places_folders_under_roots() {
    let mut r = registry(&["blog"]);
    r.initialise();
    let w = &r.websites[0];
    assert_eq!(w.git.working_dir, "/srv/sources/blog");
    assert_eq!(w.processor_root, "/srv/sources/blog/site");
    assert_eq!(w.webroot, "/srv/docs/blog");
    assert_eq!(w.id, "blog");
    assert_eq!(w.git.branch, "main");
    assert_eq!(w.content_root, "content/{YEAR}");
    assert_eq!(r.source_root, "/srv/sources");
}

#[test]
fn initialise_keeps_order_and_number() {
    let mut r = registry(&["a", "b", "c"]);
    r.initialise();
    let ids: Vec<&str> = r.websites.iter().map(|w| w.id.as_str()).collect();
    assert_eq!(ids, vec!["a", "b", "c"]);
    assert_eq!(r.websites[2].webroot, "/srv/docs/c");
}

#[test]
fn process_and_push_jobs_start_at_their_first_step() {
    let r = registry(&["blog"]);
    let w = r.get_website_by_id("blog").unwrap();
    assert_eq!(r.process_website(w).phase, Phase::Start);
    assert_eq!(r.push_website(w).phase, Phase::StartPush);
}

#[test]
fn batch_goes_on_after_a_failure_and_finishes_ok() {
    let mut r = registry(&["a", "b"]);
    r.initialise();
    let mut batch = r.process_all_websites();
    assert_eq!(batch.phase, BatchPhase::Next);
    let mut reports = Vec::new();
    let mut event = Event::Begin;
    let mut checked = Vec::new();
    let mut steps = 0;
    loop {
        steps += 1;
        assert!(steps < 100);
        match batch.advance(&r, event) {
            Action::Finish(outcome) => {
                assert_eq!(outcome, Ok(()));
                break;
            }
            Action::Report { site, outcome } => {
                reports.push((site, outcome));
                event = Event::Begin;
            }
            Action::CheckExists(p) => {
                checked.push(p);
                event = Event::Exists(true);
            }
            Action::RunCommand(c) => {
                // the first website's pull fails, everything else works
                if c.args.iter().any(|a| a == "/srv/sources/a") {
                    event = Event::Outcome(Err("no network".to_string()));
                } else {
                    event = Event::Outcome(Ok(()));
                }
            }
            Action::ReadLink(_) => event = Event::Link(None),
            _ => event = Event::Outcome(Ok(())),
        }
    }
    assert!(batch.is_done());
    assert_eq!(reports, vec![(0, Err("no network".to_string())), (1, Ok(()))]);
    assert_eq!(checked[0], "/srv/sources/a/.git");
    assert_eq!(checked[1], "/srv/sources/b/.git");
}

#[test]
fn empty_batch_finishes_at_once() {
    let r = registry(&[]);
    let mut batch = r.process_all_websites();
    match batch.advance(&r, Event::Begin) {
        Action::Finish(outcome) => assert_eq!(outcome, Ok(())),
        _ => panic!("expected the batch to finish"),
    }
}
