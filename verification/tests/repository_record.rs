use good_first_bot::bot_handler::utils::format_tracked_repos;
use good_first_bot::storage::Repository;

#[test]
fn test_format_tracked_repos() {
    let repos = vec![
        Repository::from_str("rust-lang/rust").unwrap(),
        Repository::from_str("tokio-rs/tokio").unwrap(),
    ];
    assert_eq!(
        format_tracked_repos(&repos),
        "rust-lang/rust (https://github.com/rust-lang/rust)\ntokio-rs/tokio (https://github.com/tokio-rs/tokio)"
    );
    assert_eq!(format_tracked_repos(&vec![]), "");
}

#[test]
fn test_repository_record_parsing() {
    let repo = Repository::from_str("owner/name").unwrap();
    assert_eq!(repo.owner, "owner");
    assert_eq!(repo.name, "name");
    assert_eq!(repo.name_with_owner, "owner/name");
    assert_eq!(repo.url(), "https://github.com/owner/name");
    assert_eq!(repo.to_display_string(), "owner/name (https://github.com/owner/name)");
    assert_eq!(
        Repository::from_str("nope"),
        Err("Invalid repository format, expected 'owner/name'".to_string())
    );
    assert_eq!(Repository::from_str("/x"), Err("Owner cannot be empty".to_string()));
    assert_eq!(Repository::from_str("x/"), Err("Repository name cannot be empty".to_string()));
    assert_eq!(
        Repository::from_str("x/y/z"),
        Err("Repository name cannot contain '/'".to_string())
    );
}

#[test]
fn test_repository_record_from_url() {
    let repo = Repository::from_url("https://github.com/owner/name/pulls").unwrap();
    assert_eq!(repo.name_with_owner, "owner/name");
    assert_eq!(
        Repository::from_url("https://gitlab.com/owner/name"),
        Err("URL must be from github.com".to_string())
    );
    assert_eq!(
        Repository::from_url("https://github.com/owner"),
        Err("URL must be in the format https://github.com/owner/repo".to_string())
    );
    assert!(Repository::from_url("not a url").is_err());
}
