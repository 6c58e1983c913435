use good_first_bot::messaging::html::{escape, link};
use good_first_bot::bot_handler::CallbackAction;
use good_first_bot::messaging::utils::{
    github_color_to_emoji, lowercase_color_to_emoji, serialize_action,
};

#[test]
fn test_github_color_to_emoji() {
    assert_eq!(github_color_to_emoji("b60205"), "🔴");
    assert_eq!(github_color_to_emoji("f29513"), "🟠");
    assert_eq!(github_color_to_emoji("fef2c0"), "🟡");
    assert_eq!(github_color_to_emoji("0e8a16"), "🟢");
    assert_eq!(github_color_to_emoji("0052cc"), "🔵");
    assert_eq!(github_color_to_emoji("5319e7"), "🟣");
    assert_eq!(github_color_to_emoji("8b572a"), "🟤");
    assert_eq!(github_color_to_emoji("24292e"), "⚫️");
    assert_eq!(github_color_to_emoji("unknown"), "⚪️");
}

#[test]
fn test_github_color_to_emoji_is_case_insensitive() {
    assert_eq!(github_color_to_emoji("B60205"), "🔴");
    assert_eq!(github_color_to_emoji("D4C5F9"), "🟣");
}

#[test]
fn test_lowercase_color_to_emoji_is_exact() {
    assert_eq!(lowercase_color_to_emoji("B60205"), "⚪️");
    assert_eq!(lowercase_color_to_emoji("c4a661"), "🟤");
    assert_eq!(lowercase_color_to_emoji(""), "⚪️");
}

#[test]
fn test_serialize_action() {
    let action = CallbackAction::CmdHelp;
    let serialized = serialize_action(&action);
    assert_eq!(serialized, r#""cmd-help""#);
}

#[test]
fn test_serialize_unit_actions() {
    assert_eq!(serialize_action(&CallbackAction::CmdList), r#""cmd-list""#);
    assert_eq!(serialize_action(&CallbackAction::CmdAdd), r#""cmd-add""#);
    assert_eq!(serialize_action(&CallbackAction::CmdOverview), r#""cmd-overview""#);
}

#[test]
fn test_serialize_actions_with_data() {
    assert_eq!(
        serialize_action(&CallbackAction::ViewRepoDetails("owner/repo", 2)),
        r#"{"vrd":["owner/repo",2]}"#
    );
    assert_eq!(
        serialize_action(&CallbackAction::ViewRepoLabels("owner/repo", 1, 3)),
        r#"{"vrl":["owner/repo",1,3]}"#
    );
    assert_eq!(
        serialize_action(&CallbackAction::RemoveRepoPrompt("owner/repo")),
        r#"{"rrp":"owner/repo"}"#
    );
    assert_eq!(
        serialize_action(&CallbackAction::ToggleLabel("good first issue", 2, 1)),
        r#"{"tl":["good first issue",2,1]}"#
    );
    assert_eq!(
        serialize_action(&CallbackAction::BackToRepoDetails("a/b", 10)),
        r#"{"brd":["a/b",10]}"#
    );
    assert_eq!(serialize_action(&CallbackAction::ListReposPage(12)), r#"{"lrp":12}"#);
    assert_eq!(serialize_action(&CallbackAction::BackToRepoList(0)), r#"{"brl":0}"#);
}

#[test]
fn test_serialize_action_escapes_quotes() {
    assert_eq!(
        serialize_action(&CallbackAction::RemoveRepoPrompt("a\"b")),
        r#"{"rrp":"a\"b"}"#
    );
}

#[test]
fn test_serialize_action_escapes_controls() {
    assert_eq!(
        serialize_action(&CallbackAction::RemoveRepoPrompt("a\\b\n\t\u{1}\u{8}\u{c}\r\u{7f}é")),
        "{\"rrp\":\"a\\\\b\\n\\t\\u0001\\b\\f\\r\u{7f}é\"}"
    );
}

#[test]
fn test_html_escape_and_link() {
    assert_eq!(escape("a<b>&\"c\""), "a&lt;b&gt;&amp;\"c\"");
    assert_eq!(escape(""), "");
    assert_eq!(
        link("https://x.y/?a=1&b=2", "<tag>"),
        "<a href=\"https://x.y/?a=1&amp;b=2\">&lt;tag&gt;</a>"
    );
    assert_eq!(escape("a<b"), teloxide::utils::html::escape("a<b"));
}
