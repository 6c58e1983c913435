use good_first_bot::storage::{RepoEntity, RepoEntityError};
use std::str::FromStr;

#[test]
fn test_from_str() {
    let repo = RepoEntity::from_str("rust-lang/rust").unwrap();
    assert_eq!(repo.owner, "rust-lang");
    assert_eq!(repo.name, "rust");
    assert_eq!(repo.name_with_owner, "rust-lang/rust");
}

#[test]
fn test_from_str_invalid() {
    let repo = RepoEntity::from_str("rust-lang");
    assert!(repo.is_err());
}

#[test]
fn test_from_str_invalid_owner() {
    let repo = RepoEntity::from_str("/rust-lang/rust");
    assert!(repo.is_err());
}

#[test]
fn test_from_str_missing_name() {
    let repo = RepoEntity::from_str("rust-lang/");
    assert!(repo.is_err());
}

#[test]
fn test_from_str_missing_slash() {
    let result = RepoEntity::from_str("ownerrepo");
    assert!(matches!(result, Err(RepoEntityError::Format(s)) if s == "ownerrepo"));
}

#[test]
fn test_from_str_empty_owner() {
    let result = RepoEntity::from_str("/repo");
    assert!(matches!(result, Err(RepoEntityError::NameWithOwner)));
}

#[test]
fn test_from_str_empty_name() {
    let result = RepoEntity::from_str("owner/");
    assert!(matches!(result, Err(RepoEntityError::NameWithOwner)));
}

#[test]
fn test_from_str_name_contains_slash() {
    let result = RepoEntity::from_str("owner/repo/extra");
    assert!(matches!(result, Err(RepoEntityError::Format(s)) if s == "Name contains '/'"));
}

#[test]
fn test_repo_entity_url_and_display() {
    let repo = RepoEntity::from_str("rust-lang/rust").unwrap();
    assert_eq!(repo.url(), "https://github.com/rust-lang/rust");
    assert_eq!(repo.to_display_string(), "rust-lang/rust (https://github.com/rust-lang/rust)");
}

#[test]
fn test_from_str_through_trait() {
    let repo: RepoEntity = "owner/repo".parse().unwrap();
    assert_eq!(repo.name_with_owner, "owner/repo");
}

#[test]
fn test_from_str_non_ascii() {
    let repo = RepoEntity::from_str("ówner/répo").unwrap();
    assert_eq!(repo.owner, "ówner");
    assert_eq!(repo.name, "répo");
}

#[test]
fn test_from_url() {
    let repo = RepoEntity::from_url("https://github.com/rust-lang/rust").unwrap();
    assert_eq!(repo.owner, "rust-lang");
    assert_eq!(repo.name, "rust");
    assert_eq!(repo.name_with_owner, "rust-lang/rust");
}

#[test]
fn test_from_url_invalid() {
    let repo = RepoEntity::from_url("https://gitlab.com/rust-lang/rust");
    assert!(repo.is_err());
}

#[test]
fn test_from_url_with_path() {
    let repo = RepoEntity::from_url("https://github.com/rust-lang/rust/issues").unwrap();

    assert_eq!(repo.owner, "rust-lang");
    assert_eq!(repo.name, "rust");
    assert_eq!(repo.name_with_owner, "rust-lang/rust");
}

#[test]
fn test_from_url_with_query() {
    let repo = RepoEntity::from_url("https://github.com/rust-lang/rust?tab=issues").unwrap();

    assert_eq!(repo.owner, "rust-lang");
    assert_eq!(repo.name, "rust");
    assert_eq!(repo.name_with_owner, "rust-lang/rust");
}

#[test]
fn test_from_url_not_github_domain() {
    let result = RepoEntity::from_url("https://gitlab.com/foo/bar");
    assert!(matches!(result, Err(RepoEntityError::Url(s)) if s == "https://gitlab.com/foo/bar"));
}

#[test]
fn test_from_url_not_a_url_is_url_error() {
    let result = RepoEntity::from_url("not a url");
    assert!(matches!(result, Err(RepoEntityError::Url(s)) if s == "not a url"));
}

#[test]
fn test_from_url_single_segment_is_url_error() {
    let result = RepoEntity::from_url("https://github.com/rust-lang");
    assert!(matches!(result, Err(RepoEntityError::Url(_))));
}

#[test]
fn test_from_url_empty_owner_segment() {
    let result = RepoEntity::from_url("https://github.com//rust");
    assert!(matches!(result, Err(RepoEntityError::NameWithOwner)));
}

#[test]
fn test_repo_entity_error_messages() {
    assert_eq!(RepoEntityError::Url("x".to_string()).message(), "Invalid URL: x");
    assert_eq!(
        RepoEntityError::Format("y".to_string()).message(),
        "Invalid repository format: y"
    );
    assert_eq!(
        RepoEntityError::NameWithOwner.message(),
        "Owner or repository name cannot be empty"
    );
}

#[test]
fn test_url_reads_back_through_from_url() {
    for text in ["rust-lang/rust", "Owner_1/Repo-Name", "a/b"] {
        let repo = RepoEntity::from_str(text).unwrap();
        assert_eq!(RepoEntity::from_url(&repo.url()).unwrap(), repo);
    }
}
