use release_dashboard::changelog::{CurrentCommit, MergeRequest};
use release_dashboard::fetch::{
    credential, helper_arguments, snapshot_from_run, ChangelogPayload, ConfigurationError,
    FetchError,
};

fn payload(version: Option<u32>, next_version_number: Option<u32>) -> ChangelogPayload {
    ChangelogPayload {
        version,
        next_version_number,
        current_time: "2024-05-01 10:00".to_string(),
        commit: Some(CurrentCommit {
            commit_hash: "abc123".to_string(),
            title: "Bump".to_string(),
            author_name: "Grace".to_string(),
        }),
        merge_requests: vec![
            MergeRequest {
                ticket_number: "T-10".to_string(),
                title: "First".to_string(),
                github: "https://example.org/10".to_string(),
                flags: "".to_string(),
            },
            MergeRequest {
                ticket_number: "T-11".to_string(),
                title: "Second".to_string(),
                github: "https://example.org/11".to_string(),
                flags: "breaking".to_string(),
            },
        ],
    }
}

#[test]
fn payload_with_next_version_number_is_kept_as_it_is() {
    let changelog = payload(None, Some(251)).normalize().expect("one version");
    assert_eq!(changelog.next_version_number, 251);
    assert_eq!(changelog.current_time, "2024-05-01 10:00");
    let commit = changelog.commit.expect("the commit is kept");
    assert_eq!(commit.commit_hash, "abc123");
    assert_eq!(commit.title, "Bump");
    assert_eq!(commit.author_name, "Grace");
    assert_eq!(changelog.merge_requests.len(), 2);
    assert_eq!(changelog.merge_requests[0].ticket_number, "T-10");
    assert_eq!(changelog.merge_requests[0].title, "First");
    assert_eq!(changelog.merge_requests[1].github, "https://example.org/11");
    assert_eq!(changelog.merge_requests[1].flags, "breaking");
}

#[test]
fn payload_with_version_is_accepted_too() {
    let changelog = payload(Some(65), None).normalize().expect("one version");
    assert_eq!(changelog.next_version_number, 65);
    assert_eq!(changelog.merge_requests.len(), 2);
}

#[test]
fn payload_without_a_commit_is_accepted() {
    let mut p = payload(Some(1), None);
    p.commit = None;
    p.merge_requests = vec![];
    let changelog = p.normalize().expect("one version");
    assert_eq!(changelog.next_version_number, 1);
    assert!(changelog.commit.is_none());
    assert!(changelog.merge_requests.is_empty());
}

#[test]
fn payload_without_a_version_is_malformed() {
    assert!(matches!(payload(None, None).normalize(), Err(FetchError::Malformed)));
}

#[test]
fn payload_with_two_versions_is_malformed() {
    assert!(matches!(payload(Some(1), Some(2)).normalize(), Err(FetchError::Malformed)));
    assert!(matches!(payload(Some(3), Some(3)).normalize(), Err(FetchError::Malformed)));
}

#[test]
fn largest_version_is_kept() {
    let changelog = payload(None, Some(u32::MAX)).normalize().expect("one version");
    assert_eq!(changelog.next_version_number, u32::MAX);
    let changelog = payload(Some(0), None).normalize().expect("one version");
    assert_eq!(changelog.next_version_number, 0);
}

#[test]
fn a_failed_run_gives_the_helpers_diagnostics() {
    let result = snapshot_from_run(false, "401 Unauthorized".to_string(), None);
    match result {
        Err(FetchError::HelperFailed(detail)) => assert_eq!(detail, "401 Unauthorized"),
        _ => panic!("a failed run must fail the fetch"),
    }
}

#[test]
fn a_failed_run_fails_even_with_a_good_payload() {
    let result = snapshot_from_run(false, "boom".to_string(), Some(payload(Some(5), None)));
    match result {
        Err(e) => assert_eq!(e.message(), "boom"),
        Ok(_) => panic!("a failed run must fail the fetch"),
    }
}

#[test]
fn a_good_run_without_a_payload_is_malformed() {
    let result = snapshot_from_run(true, "a warning".to_string(), None);
    assert!(matches!(result, Err(FetchError::Malformed)));
}

#[test]
fn a_good_run_with_a_bad_payload_is_malformed() {
    let result = snapshot_from_run(true, String::new(), Some(payload(None, None)));
    assert!(matches!(result, Err(FetchError::Malformed)));
}

#[test]
fn a_good_run_with_a_good_payload_gives_the_changelog() {
    let result = snapshot_from_run(true, "ignored".to_string(), Some(payload(None, Some(9))));
    let changelog = result.expect("a good run");
    assert_eq!(changelog.next_version_number, 9);
    assert_eq!(changelog.merge_requests[1].ticket_number, "T-11");
}

#[test]
fn fetch_error_messages() {
    assert_eq!(FetchError::HelperFailed("stderr text".to_string()).message(), "stderr text");
    assert_eq!(FetchError::HelperFailed(String::new()).message(), "");
    assert_eq!(FetchError::Malformed.message(), "JSON was not well-formatted");
}

#[test]
fn credential_must_be_there_and_not_empty() {
    assert!(matches!(credential(None), Err(ConfigurationError::MissingCredential)));
    assert!(matches!(credential(Some(String::new())), Err(ConfigurationError::MissingCredential)));
    assert_eq!(credential(Some("glpat-1".to_string())).expect("a credential"), "glpat-1");
    assert_eq!(credential(Some(" ".to_string())).expect("a credential"), " ");
}

#[test]
fn helper_arguments_name_the_repository_and_the_credential() {
    let arguments = helper_arguments("251", "s3cret");
    assert_eq!(
        arguments,
        vec![
            "--format=json".to_string(),
            "--projectId=251".to_string(),
            "--token=s3cret".to_string()
        ]
    );
    let arguments = helper_arguments("", "t");
    assert_eq!(arguments[1], "--projectId=");
    assert_eq!(arguments[2], "--token=t");
}
