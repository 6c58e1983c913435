use good_first_bot::bot_handler::commands::add::{AddRepoResult, AddSummary};
use good_first_bot::github::IssueNode;
use good_first_bot::messaging::TelegramMessagingService;
use good_first_bot::pagination::Paginated;
use good_first_bot::repository::LabelNormalized;
use good_first_bot::storage::RepoEntity;
use std::str::FromStr;

#[test]
fn test_format_paginated_message_text() {
    let items = vec![1, 2, 3, 4, 5, 6, 7, 8, 9, 10];
    let paginated =
        Paginated { items: items.clone(), page: 1, total_pages: 2, total_items: 20, page_size: 10 };

    let text =
        TelegramMessagingService::format_paginated_message_text("Test Title", &paginated, "items");

    assert_eq!(text, "Test Title (Page 1 of 2)\nTotal items: 20");
}

#[test]
fn test_format_paginated_message_text_no_items() {
    let items: Vec<i32> = vec![];
    let paginated = Paginated { items, page: 1, total_pages: 1, total_items: 0, page_size: 10 };

    let text =
        TelegramMessagingService::format_paginated_message_text("Test Title", &paginated, "items");

    assert_eq!(text, "Test Title\n\nNo items found.");
}

#[test]
fn test_add_summary_text_empty() {
    let summary = AddSummary::new();
    assert_eq!(
        TelegramMessagingService::add_summary_text(&summary),
        "<b>Summary of repository addition:</b>\n\nNo valid URLs were processed, or all inputs were empty."
    );
}

#[test]
fn test_add_summary_text_categories() {
    let mut summary = AddSummary::new();
    summary.record(AddRepoResult::Success("a/b".to_string()));
    summary.record(AddRepoResult::Success("c/d".to_string()));
    summary.record(AddRepoResult::InvalidUrl("<bad>".to_string()));
    summary.record(AddRepoResult::Error("e/f".to_string(), "boom & co".to_string()));
    assert_eq!(
        TelegramMessagingService::add_summary_text(&summary),
        "<b>Summary of repository addition:</b>\n\n\
         <b>✅ Successfully Added:</b>\n- a/b\n- c/d\n\n\
         <b>⚠️ Invalid URL:</b>\n- &lt;bad&gt;\n\n\
         ❌ <b>Errors:</b>\n- e/f: boom &amp; co"
    );
}

#[test]
fn test_details_text_without_labels() {
    let repo = RepoEntity::from_str("owner/repo").unwrap();
    assert_eq!(
        TelegramMessagingService::details_text(&repo, &[]),
        "📦 Repository: <a href=\"https://github.com/owner/repo\">owner/repo</a>\n\n\
         ⚠️ No labels are being tracked in this repository.\n"
    );
}

#[test]
fn test_details_text_with_labels() {
    let repo = RepoEntity::from_str("owner/repo").unwrap();
    let labels = vec![LabelNormalized {
        name: "a<b".to_string(),
        color: "0E8A16".to_string(),
        count: 2,
        is_selected: true,
    }];
    assert_eq!(
        TelegramMessagingService::details_text(&repo, &labels),
        "📦 Repository: <a href=\"https://github.com/owner/repo\">owner/repo</a>\n\n\
         🏷️ Tracked labels:\n- 🟢 a&lt;b\n"
    );
}

#[test]
fn test_overview_text() {
    let overview = vec![
        (RepoEntity::from_str("a/b").unwrap(), vec!["bug".to_string()]),
        (RepoEntity::from_str("c/d").unwrap(), vec![]),
    ];
    assert_eq!(
        TelegramMessagingService::overview_text(&overview),
        "📊 Overview of your tracked repositories and labels:\n\n\
         📦 <b>Repository:</b> <a href=\"https://github.com/a/b\">a/b</a>\n\
         🏷️ <b>Tracked labels:</b>\n- bug\n\n\
         📦 <b>Repository:</b> <a href=\"https://github.com/c/d\">c/d</a>\n\
         ⚠️ No labels are being tracked in this repository.\n"
    );
}

#[test]
fn test_new_issues_message() {
    let issues = vec![
        IssueNode {
            id: "1".to_string(),
            title: "First".to_string(),
            url: "https://github.com/a/b/issues/1".to_string(),
            created_at: "2024-05-16T00:00:01+00:00".to_string(),
        },
        IssueNode {
            id: "2".to_string(),
            title: "Second".to_string(),
            url: "https://github.com/a/b/issues/2".to_string(),
            created_at: "2024-05-16T00:00:02+00:00".to_string(),
        },
    ];
    assert_eq!(
        TelegramMessagingService::new_issues_message("a/b", &issues),
        "🚨 New issues in a/b:\n\n- First: https://github.com/a/b/issues/1\n- Second: https://github.com/a/b/issues/2"
    );
}

#[test]
fn test_toggle_and_remove_answers() {
    assert_eq!(
        TelegramMessagingService::toggle_label_message("bug", true),
        "✅ Label bug has been added."
    );
    assert_eq!(
        TelegramMessagingService::toggle_label_message("bug", false),
        "❌ Label bug has been removed."
    );
    assert_eq!(
        TelegramMessagingService::remove_answer_text(true),
        "✅ Repository removed successfully."
    );
    assert_eq!(TelegramMessagingService::remove_answer_text(false), "❌ Repository not found.");
}

#[test]
fn test_labels_message_text_escapes_repo() {
    let labels: Paginated<LabelNormalized> = Paginated::new(vec![], 1);
    assert_eq!(
        TelegramMessagingService::labels_message_text(&labels, "a&b/c"),
        "🏷️ Manage labels for a&amp;b/c:\n\nNo labels found."
    );
    assert_eq!(
        TelegramMessagingService::edit_labels_text(&labels),
        "⚠️ No labels available for this repository."
    );
}

#[test]
fn test_list_message_text() {
    let repos = vec![RepoEntity::from_str("a/b").unwrap()];
    assert_eq!(
        TelegramMessagingService::list_message_text(&Paginated::new(repos, 1)),
        "🔍 Your tracked repositories: (Page 1 of 1)\nTotal repositories: 1"
    );
}
