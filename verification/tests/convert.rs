use pr_ticket_sync::{Card, CardConvertError, Issue, PullConvertError, PullRequest};

/// A detail response with repository, owner and visibility becomes a pull
/// request with exactly those fields.
#[test]
fn test_pull_from_parts_complete() {
    let pull = PullRequest::from_parts(
        "https://example.com/pull".to_owned(),
        "request-123".to_owned(),
        true,
        Some(true),
        Some("owner".to_owned()),
    )
    .unwrap();
    assert_eq!(pull.url, "https://example.com/pull");
    assert_eq!(pull.head_reference, "request-123");
    assert!(pull.is_private);
    assert_eq!(pull.repository_owner, "owner");
}

/// Unreported visibility is taken to be private.
#[test]
fn test_pull_from_parts_default_private() {
    let pull = PullRequest::from_parts(
        "https://example.com/pull".to_owned(),
        "request-123".to_owned(),
        true,
        None,
        Some("owner".to_owned()),
    )
    .unwrap();
    assert!(pull.is_private);
}

/// A response without a repository is rejected.
#[test]
fn test_pull_from_parts_no_repository() {
    let err = PullRequest::from_parts(
        "https://example.com/pull".to_owned(),
        "request-123".to_owned(),
        false,
        None,
        None,
    )
    .unwrap_err();
    assert_eq!(err, PullConvertError::RepositoryNotFound);
    assert_eq!(err.message(), "repository of pull request not found");
}

/// A repository without an owner login is rejected.
#[test]
fn test_pull_from_parts_no_owner() {
    let err = PullRequest::from_parts(
        "https://example.com/pull".to_owned(),
        "request-123".to_owned(),
        true,
        Some(true),
        None,
    )
    .unwrap_err();
    assert_eq!(err, PullConvertError::OwnerNotFound);
    assert_eq!(err.message(), "owner not found");
}

/// A listing entry's missing body is read as the empty body.
#[test]
fn test_issue_from_parts_missing_body() {
    let issue = Issue::from_parts(
        "https://example.com/issue".to_owned(),
        None,
        Some("https://example.com/pull".to_owned()),
    );
    assert_eq!(issue.body, "");
    assert_eq!(
        issue.pull_request_url,
        Some("https://example.com/pull".to_owned())
    );
}

/// A card response's description is kept; a missing one is read as empty.
#[test]
fn test_card_from_parts() {
    let card = Card::from_parts(true, Some("Card description".to_owned())).unwrap();
    assert_eq!(card.description, "Card description");
    let card = Card::from_parts(true, None).unwrap();
    assert_eq!(card.description, "");
}

/// A card response without data is rejected.
#[test]
fn test_card_from_parts_no_data() {
    let err = Card::from_parts(false, None).unwrap_err();
    assert_eq!(err, CardConvertError::DataMissing);
    assert_eq!(err.message(), "card has no data");
}
