use good_first_bot::messaging::keyboards::{
    build_repo_item_keyboard, build_repo_labels_keyboard, build_repo_list_keyboard,
    command_keyboard,
};
use good_first_bot::pagination::Paginated;
use good_first_bot::repository::LabelNormalized;
use good_first_bot::storage::RepoEntity;
use std::str::FromStr;

#[test]
fn test_build_repo_list_keyboard() {
    let mut repos = vec![];
    for i in 1..=15 {
        repos.push(RepoEntity::from_str(&format!("owner/repo{}", i)).unwrap());
    }
    let paginated_repos = Paginated::new(repos, 1);

    let keyboard = build_repo_list_keyboard(&paginated_repos);

    // 10 repos + 1 nav row
    assert_eq!(keyboard.inline_keyboard.len(), 11);
    // Next button
    assert_eq!(keyboard.inline_keyboard[10].len(), 1);
    assert_eq!(keyboard.inline_keyboard[10][0].text, "Next ▶️");
}

#[test]
fn test_build_repo_item_keyboard() {
    let repo = RepoEntity::from_str("owner/repo").unwrap();
    let keyboard = build_repo_item_keyboard(&repo, 1);

    assert_eq!(keyboard.inline_keyboard.len(), 3);
    assert_eq!(keyboard.inline_keyboard[0][0].text, "🔙 Repository list");
    assert_eq!(keyboard.inline_keyboard[1][0].text, "⚙️ Labels");
    assert_eq!(keyboard.inline_keyboard[2][0].text, "❌ Remove");
}

#[test]
fn test_build_repo_labels_keyboard() {
    let mut labels = vec![];
    for i in 1..=15 {
        labels.push(LabelNormalized {
            name: format!("label{}", i),
            color: "ffffff".to_string(),
            count: i,
            is_selected: i % 2 == 0,
        });
    }
    let paginated_labels = Paginated::new(labels, 1);

    let keyboard = build_repo_labels_keyboard(&paginated_labels, "owner/repo", 1);

    // 1 back row + 10 labels + 1 nav row
    assert_eq!(keyboard.inline_keyboard.len(), 12);
    // Next button
    assert_eq!(keyboard.inline_keyboard[11].len(), 1);
    assert_eq!(keyboard.inline_keyboard[11][0].text, "Next ▶️");
}

#[test]
fn test_repo_list_keyboard_buttons_carry_actions() {
    let mut repos = vec![];
    for i in 1..=15 {
        repos.push(RepoEntity::from_str(&format!("owner/repo{}", i)).unwrap());
    }
    let keyboard = build_repo_list_keyboard(&Paginated::new(repos, 2));

    // 5 repos on page 2 + 1 nav row holding only "previous"
    assert_eq!(keyboard.inline_keyboard.len(), 6);
    assert_eq!(keyboard.inline_keyboard[0][0].text, "owner/repo11");
    assert_eq!(keyboard.inline_keyboard[0][0].callback_data, r#"{"vrd":["owner/repo11",2]}"#);
    assert_eq!(keyboard.inline_keyboard[5].len(), 1);
    assert_eq!(keyboard.inline_keyboard[5][0].text, "◀️ Previous");
    assert_eq!(keyboard.inline_keyboard[5][0].callback_data, r#"{"lrp":1}"#);
}

#[test]
fn test_repo_list_keyboard_single_page_has_no_nav_row() {
    let repos = vec![RepoEntity::from_str("a/b").unwrap()];
    let keyboard = build_repo_list_keyboard(&Paginated::new(repos, 1));
    assert_eq!(keyboard.inline_keyboard.len(), 1);
}

#[test]
fn test_repo_item_keyboard_actions() {
    let repo = RepoEntity::from_str("owner/repo").unwrap();
    let keyboard = build_repo_item_keyboard(&repo, 3);
    assert_eq!(keyboard.inline_keyboard[0][0].callback_data, r#"{"brl":3}"#);
    assert_eq!(keyboard.inline_keyboard[1][0].callback_data, r#"{"vrl":["owner/repo",1,3]}"#);
    assert_eq!(keyboard.inline_keyboard[2][0].callback_data, r#"{"rrp":"owner/repo"}"#);
}

#[test]
fn test_repo_labels_keyboard_label_buttons() {
    let labels = vec![
        LabelNormalized {
            name: "bug".to_string(),
            color: "D73A4A".to_string(),
            count: 3,
            is_selected: true,
        },
        LabelNormalized {
            name: "docs".to_string(),
            color: "0075ca".to_string(),
            count: 1,
            is_selected: false,
        },
    ];
    let keyboard = build_repo_labels_keyboard(&Paginated::new(labels, 1), "owner/repo", 2);

    assert_eq!(keyboard.inline_keyboard.len(), 3);
    assert_eq!(keyboard.inline_keyboard[0][0].text, "🔙 Back to repository");
    assert_eq!(keyboard.inline_keyboard[0][0].callback_data, r#"{"brd":["owner/repo",2]}"#);
    assert_eq!(keyboard.inline_keyboard[0][1].text, "🔙 Back to list");
    assert_eq!(keyboard.inline_keyboard[0][1].callback_data, r#"{"brl":2}"#);
    assert_eq!(keyboard.inline_keyboard[1][0].text, "✅  🔴 bug(3)");
    assert_eq!(keyboard.inline_keyboard[1][0].callback_data, r#"{"tl":["bug",1,2]}"#);
    assert_eq!(keyboard.inline_keyboard[2][0].text, " 🔵 docs(1)");
}

#[test]
fn test_repo_labels_keyboard_middle_page_navigation() {
    let mut labels = vec![];
    for i in 1..=25 {
        labels.push(LabelNormalized {
            name: format!("l{}", i),
            color: "000000".to_string(),
            count: i,
            is_selected: false,
        });
    }
    let keyboard = build_repo_labels_keyboard(&Paginated::new(labels, 2), "o/r", 4);
    let nav = keyboard.inline_keyboard.last().unwrap();
    assert_eq!(nav.len(), 2);
    assert_eq!(nav[0].text, "◀️ Previous");
    assert_eq!(nav[0].callback_data, r#"{"vrl":["o/r",1,4]}"#);
    assert_eq!(nav[1].text, "Next ▶️");
    assert_eq!(nav[1].callback_data, r#"{"vrl":["o/r",3,4]}"#);
}

#[test]
fn test_command_keyboard() {
    let keyboard = command_keyboard();
    assert_eq!(keyboard.inline_keyboard.len(), 4);
    assert_eq!(keyboard.inline_keyboard[0][0].text, "ℹ️ Help");
    assert_eq!(keyboard.inline_keyboard[0][0].callback_data, r#""cmd-help""#);
    assert_eq!(keyboard.inline_keyboard[1][0].callback_data, r#""cmd-overview""#);
    assert_eq!(keyboard.inline_keyboard[2][0].callback_data, r#""cmd-list""#);
    assert_eq!(keyboard.inline_keyboard[3][0].text, "➕ Add repository");
    assert_eq!(keyboard.inline_keyboard[3][0].callback_data, r#""cmd-add""#);
}
