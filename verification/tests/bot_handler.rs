use good_first_bot::bot_handler::callbacks::{parse_repo_id, toggle_target, tracked_only};
use good_first_bot::bot_handler::commands::add::{
    after_add, after_exists, begin_add, parse_reply, summarize_results, AddRepoResult,
};
use good_first_bot::bot_handler::commands::list::{list_plan, ListPlan};
use good_first_bot::bot_handler::commands::overview::overview_entry;
use good_first_bot::bot_handler::routing::{
    callback_plan, next_dialogue_state, reply_plan, route_callback, route_command, CallbackPlan,
    ReplyPlan, Route,
};
use good_first_bot::bot_handler::{BotHandlerError, CallbackAction, Command, CommandState};
use good_first_bot::messaging::MessagingError;
use good_first_bot::repository::{LabelNormalized, RepositoryServiceError};
use good_first_bot::storage::{RepoEntity, StorageError};
use std::str::FromStr;

#[test]
fn test_route_callback() {
    assert_eq!(
        route_callback(CallbackAction::ViewRepoDetails("a/b", 2)),
        Route::ViewRepo { repo_id: "a/b", from_page: 2 }
    );
    assert_eq!(
        route_callback(CallbackAction::BackToRepoDetails("a/b", 3)),
        Route::ViewRepo { repo_id: "a/b", from_page: 3 }
    );
    assert_eq!(
        route_callback(CallbackAction::ViewRepoLabels("a/b", 1, 4)),
        Route::ViewLabels { repo_id: "a/b", page: 1, from_page: 4 }
    );
    assert_eq!(
        route_callback(CallbackAction::RemoveRepoPrompt("a/b")),
        Route::RemoveRepo { repo_id: "a/b", from_page: 1 }
    );
    assert_eq!(
        route_callback(CallbackAction::ToggleLabel("bug", 2, 5)),
        Route::ToggleLabel { label: "bug", label_page: 2 }
    );
    assert_eq!(route_callback(CallbackAction::BackToRepoList(3)), Route::EditList { page: 3 });
    assert_eq!(route_callback(CallbackAction::ListReposPage(4)), Route::EditList { page: 4 });
    assert_eq!(route_callback(CallbackAction::CmdHelp), Route::Help);
    assert_eq!(route_callback(CallbackAction::CmdList), Route::ListCommand { page: 1 });
    assert_eq!(route_callback(CallbackAction::CmdAdd), Route::AddPrompt);
    assert_eq!(route_callback(CallbackAction::CmdOverview), Route::Overview);
}

#[test]
fn test_route_command() {
    assert_eq!(route_command(Command::Start), Route::Start);
    assert_eq!(route_command(Command::Help), Route::Help);
    assert_eq!(route_command(Command::Add), Route::AddPrompt);
    assert_eq!(route_command(Command::List), Route::ListCommand { page: 1 });
    assert_eq!(route_command(Command::Overview), Route::Overview);
}

#[test]
fn test_callback_plan() {
    assert_eq!(
        callback_plan(None, true, true),
        CallbackPlan::NoData(Some(BotHandlerError::InvalidInput("Invalid callback data".to_string())))
    );
    assert_eq!(callback_plan(None, false, false), CallbackPlan::NoData(None));
    assert_eq!(
        callback_plan(Some(Err("bad".to_string())), true, true),
        CallbackPlan::Reject(BotHandlerError::InvalidInput("bad".to_string()))
    );
    assert_eq!(
        callback_plan(Some(Ok(CallbackAction::CmdHelp)), true, false),
        CallbackPlan::AnswerThenFail(BotHandlerError::InvalidInput(
            "Callback query has no message".to_string()
        ))
    );
    assert_eq!(
        callback_plan(Some(Ok(CallbackAction::CmdAdd)), true, true),
        CallbackPlan::AnswerThenDispatch(Route::AddPrompt)
    );
}

#[test]
fn test_handle_reply_invalid_state() {
    assert_eq!(
        reply_plan(Some(CommandState::Idle), Some("https://github.com/a/b")),
        ReplyPlan::ReportError(BotHandlerError::InvalidInput("Invalid state".to_string()))
    );
    assert_eq!(
        reply_plan(Some(CommandState::AwaitingAddRepo), None),
        ReplyPlan::ReportError(BotHandlerError::InvalidInput("Invalid state".to_string()))
    );
    assert_eq!(
        reply_plan(Some(CommandState::AwaitingAddRepo), Some("x")),
        ReplyPlan::AddRepos("x")
    );
}

#[test]
fn test_parse_reply() {
    assert_eq!(
        parse_reply(" https://github.com/a/b\n\thttps://github.com/c/d  ").unwrap(),
        vec!["https://github.com/a/b".to_string(), "https://github.com/c/d".to_string()]
    );
    assert_eq!(
        parse_reply(" \n "),
        Err(BotHandlerError::InvalidInput("Invalid repository URL".to_string()))
    );
}

#[test]
fn test_add_steps() {
    let repo = begin_add("https://github.com/owner/repo".to_string()).unwrap();
    assert_eq!(repo.name_with_owner, "owner/repo");
    assert_eq!(
        begin_add("invalid-url".to_string()),
        Err(AddRepoResult::InvalidUrl("invalid-url".to_string()))
    );
    assert_eq!(
        after_exists(repo.clone(), Ok(false)),
        Err(AddRepoResult::NotFound("owner/repo".to_string()))
    );
    let limit = RepositoryServiceError::LimitExceeded("User 1 is full".to_string());
    assert_eq!(
        after_exists(repo.clone(), Err(limit.clone())),
        Err(AddRepoResult::Error(
            "owner/repo".to_string(),
            "Limit exceeded for user: User 1 is full".to_string()
        ))
    );
    let checked = after_exists(repo.clone(), Ok(true)).unwrap();
    assert_eq!(after_add(checked.clone(), Ok(true)), AddRepoResult::Success("owner/repo".to_string()));
    assert_eq!(
        after_add(checked.clone(), Ok(false)),
        AddRepoResult::AlreadyTracked("owner/repo".to_string())
    );
    assert_eq!(
        after_add(checked, Err(limit)),
        AddRepoResult::Error(
            "owner/repo".to_string(),
            "Limit exceeded for user: User 1 is full".to_string()
        )
    );
}

#[test]
fn test_add_repos_multiple_mixed_outcomes() {
    let results = vec![
        AddRepoResult::Success("a/b".to_string()),
        AddRepoResult::AlreadyTracked("c/d".to_string()),
        AddRepoResult::NotFound("e/f".to_string()),
        AddRepoResult::InvalidUrl("bad".to_string()),
        AddRepoResult::Error("g/h".to_string(), "boom".to_string()),
        AddRepoResult::Success("a/b".to_string()),
    ];
    let summary = summarize_results(&results);
    assert_eq!(summary.successfully_added, vec!["a/b".to_string()]);
    assert_eq!(summary.already_tracked, vec!["c/d".to_string()]);
    assert_eq!(summary.not_found, vec!["e/f".to_string()]);
    assert_eq!(summary.invalid_urls, vec!["bad".to_string()]);
    assert_eq!(summary.errors, vec![("g/h".to_string(), "boom".to_string())]);
}

#[test]
fn test_list_plan() {
    assert_eq!(list_plan(true, Some(CommandState::AwaitingAddRepo)), ListPlan::SendEmpty);
    assert_eq!(list_plan(false, None), ListPlan::Send);
    assert_eq!(list_plan(false, Some(CommandState::Idle)), ListPlan::Send);
    assert_eq!(
        list_plan(
            false,
            Some(CommandState::ViewingRepoLabels { repo_id: "a/b".to_string(), from_page: 1 })
        ),
        ListPlan::EditAndReset
    );
}

#[test]
fn test_toggle_target() {
    let (repo, id, page) = toggle_target(Some(CommandState::ViewingRepoLabels {
        repo_id: "owner/repo".to_string(),
        from_page: 3,
    }))
    .unwrap();
    assert_eq!(repo, RepoEntity::from_str("owner/repo").unwrap());
    assert_eq!(id, "owner/repo");
    assert_eq!(page, 3);
    assert_eq!(
        toggle_target(Some(CommandState::Idle)),
        Err(BotHandlerError::InvalidInput("Invalid state: expected ViewingRepoLabels".to_string()))
    );
    assert_eq!(
        toggle_target(Some(CommandState::ViewingRepoLabels {
            repo_id: "broken".to_string(),
            from_page: 1
        })),
        Err(BotHandlerError::InvalidInput("Invalid repository format: broken".to_string()))
    );
}

#[test]
fn test_parse_repo_id() {
    assert_eq!(parse_repo_id("a/b").unwrap().name, "b");
    assert_eq!(
        parse_repo_id("/b"),
        Err(BotHandlerError::InvalidInput("Owner or repository name cannot be empty".to_string()))
    );
}

#[test]
fn test_tracked_only() {
    let label = |name: &str, is_selected: bool| LabelNormalized {
        name: name.to_string(),
        color: "ffffff".to_string(),
        count: 1,
        is_selected,
    };
    let out = tracked_only(vec![label("a", true), label("b", false), label("c", true)]);
    assert_eq!(out, vec![label("a", true), label("c", true)]);
}

#[test]
fn test_overview_entry() {
    let repo = RepoEntity::from_str("a/b").unwrap();
    assert_eq!(
        overview_entry(repo.clone(), Ok(vec!["bug".to_string()])),
        (repo.clone(), vec!["bug".to_string()])
    );
    assert_eq!(
        overview_entry(
            repo.clone(),
            Err(RepositoryServiceError::StorageError(StorageError::DbError("x".to_string())))
        ),
        (repo, vec![])
    );
}

#[test]
fn test_bot_handler_errors() {
    let limit: BotHandlerError = RepositoryServiceError::LimitExceeded("m".to_string()).into();
    assert_eq!(limit, BotHandlerError::LimitExceeded("m".to_string()));
    let internal: BotHandlerError =
        RepositoryServiceError::StorageError(StorageError::DbError("DB is down".to_string())).into();
    assert!(matches!(internal, BotHandlerError::InternalError(_)));
    assert_eq!(
        internal.message(),
        "Internal error: Storage error: Database error: DB is down"
    );
    let send: BotHandlerError = MessagingError::TeloxideRequest("timeout".to_string()).into();
    assert_eq!(
        send.message(),
        "Failed to send message: Teloxide API request failed: timeout"
    );
    assert_eq!(
        BotHandlerError::InvalidInput("x".to_string()).message(),
        "Invalid input: x"
    );
    assert_eq!(
        BotHandlerError::DialogueError("y".to_string()).message(),
        "Failed to get or update dialogue: y"
    );
    assert_eq!(BotHandlerError::LimitExceeded("z".to_string()).message(), "Limit exceeded: z");
}

#[test]
fn test_next_dialogue_state() {
    assert_eq!(
        next_dialogue_state(&Route::ViewRepo { repo_id: "a/b", from_page: 2 }, false, None),
        Some(CommandState::Idle)
    );
    assert_eq!(
        next_dialogue_state(&Route::ViewLabels { repo_id: "a/b", page: 3, from_page: 2 }, false, None),
        Some(CommandState::ViewingRepoLabels { repo_id: "a/b".to_string(), from_page: 2 })
    );
    assert_eq!(next_dialogue_state(&Route::EditList { page: 1 }, true, None), None);
    assert_eq!(
        next_dialogue_state(&Route::EditList { page: 1 }, false, None),
        Some(CommandState::Idle)
    );
    assert_eq!(
        next_dialogue_state(
            &Route::ListCommand { page: 1 },
            false,
            Some(CommandState::AwaitingAddRepo)
        ),
        Some(CommandState::Idle)
    );
    assert_eq!(
        next_dialogue_state(&Route::ListCommand { page: 1 }, false, Some(CommandState::Idle)),
        None
    );
    assert_eq!(next_dialogue_state(&Route::ListCommand { page: 1 }, true, None), None);
    assert_eq!(
        next_dialogue_state(&Route::AddPrompt, false, None),
        Some(CommandState::AwaitingAddRepo)
    );
    assert_eq!(next_dialogue_state(&Route::Help, false, None), None);
    assert_eq!(
        next_dialogue_state(&Route::RemoveRepo { repo_id: "a/b", from_page: 1 }, false, None),
        None
    );
}
