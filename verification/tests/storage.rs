use good_first_bot::storage::memory_storage::InMemoryStorage;
use good_first_bot::storage::sqlite::{
    count_to_usize, decode_tracked_labels, encode_labels, repos_from_rows, toggle_label_in,
    INITIAL_DEFAULT_LABELS_JSON,
};
use good_first_bot::storage::{RepoEntityError, Repository, StorageError};

fn repo(s: &str) -> Repository {
    Repository::from_str(s).unwrap()
}

#[test]
fn test_memory_add_and_get_repository() {
    let mut storage = InMemoryStorage::new();
    storage.add_repository(1, repo("owner/repo"));
    let repos = storage.get_repos_per_user(1);
    assert_eq!(repos, vec![repo("owner/repo")]);
    assert!(storage.contains(1, &repo("owner/repo")));
    assert!(!storage.contains(2, &repo("owner/repo")));
}

#[test]
fn test_memory_add_same_repository() {
    let mut storage = InMemoryStorage::new();
    storage.add_repository(1, repo("owner/repo"));
    storage.add_repository(1, repo("owner/repo"));
    assert_eq!(storage.get_repos_per_user(1).len(), 1);
}

#[test]
fn test_memory_remove_repository() {
    let mut storage = InMemoryStorage::new();
    storage.add_repository(1, repo("owner/repo"));
    storage.add_repository(1, repo("owner/other"));
    assert!(storage.remove_repository(1, "owner/repo"));
    assert!(!storage.remove_repository(1, "owner/repo"));
    assert!(!storage.remove_repository(2, "owner/other"));
    assert_eq!(storage.get_repos_per_user(1), vec![repo("owner/other")]);
}

#[test]
fn test_memory_get_all_repos() {
    let mut storage = InMemoryStorage::new();
    storage.add_repository(1, repo("a/b"));
    storage.add_repository(2, repo("c/d"));
    let all = storage.get_all_repos();
    assert_eq!(all.len(), 2);
    assert_eq!(all[&1], vec![repo("a/b")]);
    assert_eq!(all[&2], vec![repo("c/d")]);
    assert!(storage.get_repos_per_user(3).is_empty());
}

#[test]
fn test_repos_from_rows() {
    let rows = vec!["a/b".to_string(), "c/d".to_string()];
    let repos = repos_from_rows(&rows).unwrap();
    assert_eq!(repos.len(), 2);
    assert_eq!(repos[1].name_with_owner, "c/d");

    let bad = vec!["a/b".to_string(), "broken".to_string(), "x/".to_string()];
    match repos_from_rows(&bad) {
        Err(StorageError::DataIntegrityError(name, RepoEntityError::Format(f))) => {
            assert_eq!(name, "broken");
            assert_eq!(f, "broken");
        }
        other => panic!("unexpected {:?}", other),
    }
}

#[test]
fn test_toggle_labels() {
    let labels = vec!["bug".to_string()];
    let (labels, on) = toggle_label_in(labels, "help wanted");
    assert!(on);
    assert_eq!(labels, vec!["bug".to_string(), "help wanted".to_string()]);
    let (labels, on) = toggle_label_in(labels, "bug");
    assert!(!on);
    assert_eq!(labels, vec!["help wanted".to_string()]);
}

#[test]
fn test_encode_and_decode_labels() {
    let labels = vec!["good first issue".to_string(), "a\"b".to_string()];
    let text = encode_labels(&labels);
    assert_eq!(text, r#"["good first issue","a\"b"]"#);
    assert_eq!(decode_tracked_labels("o/r", Some(text)).unwrap(), labels);
    assert!(decode_tracked_labels("o/r", None).unwrap().is_empty());
    assert_eq!(
        decode_tracked_labels("o/r", Some(r#"["x","x","y"]"#.to_string())).unwrap(),
        vec!["x".to_string(), "y".to_string()]
    );
    assert_eq!(
        decode_tracked_labels("o/r", Some(INITIAL_DEFAULT_LABELS_JSON.to_string())).unwrap(),
        vec![
            "good first issue".to_string(),
            "beginner-friendly".to_string(),
            "help wanted".to_string()
        ]
    );
    assert!(matches!(
        decode_tracked_labels("o/r", Some("{".to_string())),
        Err(StorageError::DbError(m)) if m.starts_with("Failed to decode tracked labels of o/r: ")
    ));
}

#[test]
fn test_count_repos_per_user() {
    assert_eq!(count_to_usize(3), 3);
    assert_eq!(count_to_usize(0), 0);
    assert_eq!(count_to_usize(-1), 0);
}

#[test]
fn test_storage_error_messages() {
    assert_eq!(StorageError::DbError("down".to_string()).message(), "Database error: down");
    assert_eq!(
        StorageError::DataIntegrityError("x".to_string(), RepoEntityError::NameWithOwner).message(),
        "Data integrity error: Stored repository 'x' is invalid: Owner or repository name cannot be empty"
    );
}
