use sheepstor::access::{
    accepted_reply, admit_request, authorize, ingest_failure_reply, ingest_reply, ingest_target_folder,
    not_found_reply, trigger_update_reply,
    rejection_reply, upload_path, IngestFailure, Rejection,
};
use sheepstor::git::GitRepository;
use sheepstor::website::{ContentProcessor, Website};

#[test]
fn matching_bearer_token_is_accepted() {
    assert_eq!(authorize(Some("s3cret"), Some("Bearer s3cret")), Ok(()));
}

#[test]
fn unknown_token_is_rejected_first() {
    assert_eq!(authorize(None, Some("Bearer s3cret")), Err(Rejection::TokenUnavailable));
    assert_eq!(authorize(None, None), Err(Rejection::TokenUnavailable));
}

#[test]
fn missing_header_is_rejected() {
    assert_eq!(authorize(Some("s3cret"), None), Err(Rejection::MissingHeader));
}

#[test]
fn header_without_bearer_is_rejected() {
    assert_eq!(authorize(Some("s3cret"), Some("Basic s3cret")), Err(Rejection::MalformedHeader));
    assert_eq!(authorize(Some("s3cret"), Some("")), Err(Rejection::MalformedHeader));
    assert_eq!(authorize(Some("s3cret"), Some("bearer s3cret")), Err(Rejection::MalformedHeader));
    assert_eq!(authorize(Some("s3cret"), Some("Bearer")), Err(Rejection::MalformedHeader));
}

#[test]
fn wrong_token_is_rejected() {
    assert_eq!(authorize(Some("s3cret"), Some("Bearer other")), Err(Rejection::InvalidToken));
    assert_eq!(authorize(Some("s3cret"), Some("Bearer s3cret ")), Err(Rejection::InvalidToken));
    assert_eq!(authorize(Some("s3cret"), Some("Bearer ")), Err(Rejection::InvalidToken));
}

#[test]
fn empty_token_matches_bare_prefix() {
    assert_eq!(authorize(Some(""), Some("Bearer ")), Ok(()));
}

#[test]
fn rejection_replies_are_unauthorized() {
    let r = rejection_reply(Rejection::TokenUnavailable);
    assert_eq!((r.status, r.body.as_str()), (401, "Failed to retrieve ingest token"));
    let r = rejection_reply(Rejection::MissingHeader);
    assert_eq!((r.status, r.body.as_str()), (401, "Missing Authorization header"));
    let r = rejection_reply(Rejection::MalformedHeader);
    assert_eq!((r.status, r.body.as_str()), (401, "Invalid Authorization header"));
    let r = rejection_reply(Rejection::InvalidToken);
    assert_eq!((r.status, r.body.as_str()), (401, "Invalid ingest token"));
}

#[test]
fn unknown_website_reply() {
    let r = not_found_reply("shop");
    assert_eq!(r.status, 404);
    assert_eq!(r.body, "Website shop not found");
}

#[test]
fn accepted_reply_is_created_ok() {
    let r = accepted_reply();
    assert_eq!((r.status, r.body.as_str()), (201, "OK"));
}

#[test]
fn ingest_failure_replies() {
    let r = ingest_failure_reply(IngestFailure::CreateUploadFile);
    assert_eq!((r.status, r.body.as_str()), (500, "Failed to process uploaded file"));
    for f in [IngestFailure::WriteUpload, IngestFailure::Unpack, IngestFailure::CopyUpload] {
        let r = ingest_failure_reply(f);
        assert_eq!((r.status, r.body.as_str()), (500, "Failed to save uploaded zip file"));
    }
}

#[test]
fn upload_goes_to_tmp_folder() {
    assert_eq!(upload_path("/tmp/sheepstor"), "/tmp/sheepstor/upload.zip");
}

#[test]
fn ingest_target_puts_year_into_content_root() {
    let w = Website {
        id: "blog".to_string(),
        content_processor: ContentProcessor::Hugo,
        processor_root: "site".to_string(),
        github_webhook_secret_env_key: String::new(),
        webroot: String::new(),
        index: false,
        git: GitRepository {
            clone_id: String::new(),
            branch: String::new(),
            working_dir: "/srv/sources/blog".to_string(),
        },
        ingest_token_env_key: None,
        content_root: "content/{YEAR}/posts".to_string(),
    };
    let target = ingest_target_folder(&w);
    assert!(target.starts_with("/srv/sources/blog/content/"));
    assert!(target.ends_with("/posts"));
    assert!(!target.contains("{YEAR}"));
    let year = &target["/srv/sources/blog/content/".len()..target.len() - "/posts".len()];
    assert!(year.len() >= 4 && year.chars().all(|c| c.is_ascii_digit()));
}

#[test]
fn admission_turns_away_unknown_website_with_404() {
    let r = admit_request(None, "shop", Some("t"), Some("Bearer t")).unwrap_err();
    assert_eq!((r.status, r.body.as_str()), (404, "Website shop not found"));
}

#[test]
fn admission_checks_token_of_known_website() {
    let w = website();
    assert!(admit_request(Some(&w), "blog", Some("t"), Some("Bearer t")).is_ok());
    let r = admit_request(Some(&w), "blog", Some("t"), Some("Bearer u")).unwrap_err();
    assert_eq!((r.status, r.body.as_str()), (401, "Invalid ingest token"));
    let r = admit_request(Some(&w), "blog", None, Some("Bearer t")).unwrap_err();
    assert_eq!((r.status, r.body.as_str()), (401, "Failed to retrieve ingest token"));
}

#[test]
fn trigger_reply_is_created_whatever_the_update() {
    let r = trigger_update_reply(&Err("pull failed".to_string()));
    assert_eq!((r.status, r.body.as_str()), (201, "OK"));
    let r = trigger_update_reply(&Ok(()));
    assert_eq!((r.status, r.body.as_str()), (201, "OK"));
}

#[test]
fn ingest_reply_follows_the_steps() {
    let r = ingest_reply(Ok(()));
    assert_eq!((r.status, r.body.as_str()), (201, "OK"));
    let r = ingest_reply(Err(IngestFailure::Unpack));
    assert_eq!((r.status, r.body.as_str()), (500, "Failed to save uploaded zip file"));
    let r = ingest_reply(Err(IngestFailure::CreateUploadFile));
    assert_eq!((r.status, r.body.as_str()), (500, "Failed to process uploaded file"));
}

fn website() -> Website {
    Website {
        id: "blog".to_string(),
        content_processor: ContentProcessor::Hugo,
        processor_root: "site".to_string(),
        github_webhook_secret_env_key: String::new(),
        webroot: String::new(),
        index: false,
        git: GitRepository { clone_id: String::new(), branch: String::new(), working_dir: String::new() },
        ingest_token_env_key: Some("TOKEN".to_string()),
        content_root: String::new(),
    }
}
