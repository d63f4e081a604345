use sheepstor::git::GitRepository;
use sheepstor::website::{ContentProcessor, Website};
use sheepstor::website_builders::{build_index, build_with_hugo, build_with_verbatim_copy};
use sheepstor::job::Action;

fn site(processor: ContentProcessor) -> Website {
    Website {
        id: "blog".to_string(),
        content_processor: processor,
        processor_root: "/src/blog/site".to_string(),
        github_webhook_secret_env_key: "BLOG_SECRET".to_string(),
        webroot: "/www/blog".to_string(),
        index: true,
        git: GitRepository {
            clone_id: "https://example.org/blog.git".to_string(),
            branch: "main".to_string(),
            working_dir: "/src/blog".to_string(),
        },
        ingest_token_env_key: None,
        content_root: "content".to_string(),
    }
}

fn strings(items: &[&str]) -> Vec<String> {
    items.iter().map(|s| s.to_string()).collect()
}

#[test]
fn clone_command_names_branch_source_and_folder() {
    let cmd = site(ContentProcessor::Hugo).git.clone_command();
    assert_eq!(cmd.program, "git");
    assert_eq!(cmd.args, strings(&["clone", "-b", "main", "https://example.org/blog.git", "/src/blog"]));
}

#[test]
fn pull_command_runs_in_working_folder() {
    let cmd = site(ContentProcessor::Hugo).git.pull_command();
    assert_eq!(cmd.program, "git");
    assert_eq!(cmd.args, strings(&["-C", "/src/blog", "pull"]));
}

#[test]
fn push_command_runs_in_working_folder() {
    let cmd = site(ContentProcessor::Hugo).push();
    assert_eq!(cmd.program, "git");
    assert_eq!(cmd.args, strings(&["-C", "/src/blog", "push"]));
}

#[test]
fn update_clones_without_checkout_and_pulls_with_one() {
    let w = site(ContentProcessor::Hugo);
    assert_eq!(w.update_sources(false).args[0], "clone");
    assert_eq!(w.update_sources(true).args[2], "pull");
}

#[test]
fn website_folders() {
    let w = site(ContentProcessor::Hugo);
    assert_eq!(w.git_dir(), "/src/blog/.git");
    assert_eq!(w.logs_dir(), "/www/blog/logs");
    assert_eq!(w.live_link(), "/www/blog/public");
    assert_eq!(w.build_slot(false), "/www/blog/public_1");
    assert_eq!(w.build_slot(true), "/www/blog/public_2");
}

#[test]
fn build_goes_to_second_folder_when_first_is_live() {
    let w = site(ContentProcessor::Hugo);
    assert!(w.chooses_second_slot(Some("/www/blog/public_1")));
    assert!(!w.chooses_second_slot(Some("/www/blog/public_2")));
    assert!(!w.chooses_second_slot(Some("elsewhere")));
    assert!(!w.chooses_second_slot(None));
}

#[test]
fn live_link_compared_as_path_not_as_text() {
    let w = site(ContentProcessor::Hugo);
    assert!(w.chooses_second_slot(Some("/www//blog/public_1/")));
}

#[test]
fn hugo_command_builds_into_target() {
    let w = site(ContentProcessor::Hugo);
    let cmd = build_with_hugo(&w, "/www/blog/public_2");
    assert_eq!(cmd.program, "hugo");
    assert_eq!(
        cmd.args,
        strings(&["--quiet", "--ignoreCache", "--source", "/src/blog/site", "--destination", "/www/blog/public_2"])
    );
}

#[test]
fn index_command_indexes_target() {
    let cmd = build_index("/www/blog/public_1");
    assert_eq!(cmd.program, "pagefind");
    assert_eq!(cmd.args, strings(&["--site", "/www/blog/public_1"]));
}

#[test]
fn verbatim_copy_copies_processor_root() {
    let w = site(ContentProcessor::Verbatim);
    match build_with_verbatim_copy(&w, "/www/blog/public_1") {
        Action::CopyDirAll { from, to } => {
            assert_eq!(from, "/src/blog/site");
            assert_eq!(to, "/www/blog/public_1");
        }
        _ => panic!("expected a copy"),
    }
}

#[test]
fn second_folder_live_gives_first() {
    let w = site(ContentProcessor::Hugo);
    assert!(!w.chooses_second_slot(Some("/www/blog/public_2/")));
    assert!(!w.chooses_second_slot(Some("/www/blog/./public_2")));
}

#[test]
fn relative_and_rooted_links_differ() {
    let w = site(ContentProcessor::Hugo);
    assert!(!w.chooses_second_slot(Some("www/blog/public_1")));
    assert!(w.chooses_second_slot(Some("/www/blog/./public_1")));
}
