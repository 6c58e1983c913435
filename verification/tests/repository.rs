use good_first_bot::github::LabelNode;
use good_first_bot::repository::{
    check_repo_limit, labels_page, normalize_labels, plan_toggle_label, sort_labels_by_count,
    LabelNormalized, RepositoryServiceError,
};

fn node(name: &str, issues: Option<i64>) -> LabelNode {
    LabelNode { name: name.to_string(), color: "ffffff".to_string(), issues }
}

#[test]
fn test_add_repo_limit_exceeded() {
    assert!(check_repo_limit(1, 19, 20).is_ok());
    assert_eq!(
        check_repo_limit(123, 20, 20),
        Err(RepositoryServiceError::LimitExceeded(
            "User 123 has reached the maximum number of repositories: 20".to_string()
        ))
    );
}

#[test]
fn test_toggle_label_limit_exceeded() {
    let selected = vec!["bug".to_string(), "docs".to_string()];
    assert_eq!(plan_toggle_label(1, &selected, "bug", 2), Ok(false));
    assert_eq!(plan_toggle_label(1, &selected, "new", 3), Ok(true));
    assert_eq!(
        plan_toggle_label(-5, &selected, "new", 2),
        Err(RepositoryServiceError::LimitExceeded(
            "User -5 has reached the maximum number of labels per repository: 2".to_string()
        ))
    );
}

#[test]
fn test_get_repo_labels() {
    let labels = vec![node("a", Some(1)), node("b", Some(5)), node("c", None), node("d", Some(5))];
    let sorted = sort_labels_by_count(labels.clone());
    let names: Vec<_> = sorted.iter().map(|l| l.name.clone()).collect();
    assert_eq!(names, vec!["b", "d", "a", "c"]);

    let shown = normalize_labels(&vec!["d".to_string()], labels.clone());
    assert_eq!(
        shown,
        vec![
            LabelNormalized { name: "b".into(), color: "ffffff".into(), count: 5, is_selected: false },
            LabelNormalized { name: "d".into(), color: "ffffff".into(), count: 5, is_selected: true },
            LabelNormalized { name: "a".into(), color: "ffffff".into(), count: 1, is_selected: false },
        ]
    );

    let page = labels_page(&vec![], labels, 7);
    assert_eq!(page.page, 1);
    assert_eq!(page.total_items, 3);
}

#[test]
fn test_service_error_messages() {
    assert_eq!(
        RepositoryServiceError::LimitExceeded("x".to_string()).message(),
        "Limit exceeded for user: x"
    );
}
