//! Which handler a command, a button press or a reply goes to.
use vstd::prelude::*;

use crate::bot_handler::callback_actions::CallbackAction;
use crate::bot_handler::{BotHandlerError, Command, CommandState};

verus! {

/// The handler that an input is dispatched to, with its arguments.
#[derive(Debug, Clone, PartialEq, Eq)]
pub enum Route<'a> {
    /// Show a repository's details and reset the dialogue.
    ViewRepo { repo_id: &'a str, from_page: usize },
    /// Show a page of a repository's labels and remember the repository.
    ViewLabels { repo_id: &'a str, page: usize, from_page: usize },
    /// Remove a repository, then show the given page of the list.
    RemoveRepo { repo_id: &'a str, from_page: usize },
    /// Toggle a label of the repository being viewed.
    ToggleLabel { label: &'a str, label_page: usize },
    /// Show a page of the repository list in the existing message.
    EditList { page: usize },
    /// Send the help text.
    Help,
    /// Send the welcome text.
    Start,
    /// The list command: send or edit the given page of the list.
    ListCommand { page: usize },
    /// Ask for repository URLs.
    AddPrompt,
    /// Send the overview of tracked repositories.
    Overview,
}

/// The handler of a button's action.
pub open spec fn callback_route<'a>(action: CallbackAction<'a>) -> Route<'a> {
    match action {
        CallbackAction::ViewRepoDetails(repo_id, from_page) => Route::ViewRepo { repo_id, from_page },
        CallbackAction::BackToRepoDetails(repo_id, from_page) => Route::ViewRepo { repo_id, from_page },
        CallbackAction::ViewRepoLabels(repo_id, page, from_page) => Route::ViewLabels {
            repo_id,
            page,
            from_page,
        },
        CallbackAction::RemoveRepoPrompt(repo_id) => Route::RemoveRepo { repo_id, from_page: 1 },
        CallbackAction::ToggleLabel(label, label_page, _) => Route::ToggleLabel { label, label_page },
        CallbackAction::BackToRepoList(page) => Route::EditList { page },
        CallbackAction::ListReposPage(page) => Route::EditList { page },
        CallbackAction::CmdHelp => Route::Help,
        CallbackAction::CmdList => Route::ListCommand { page: 1 },
        CallbackAction::CmdAdd => Route::AddPrompt,
        CallbackAction::CmdOverview => Route::Overview,
    }
}

/// The handler of a command.
pub open spec fn command_route(cmd: Command) -> Route<'static> {
    match cmd {
        Command::Help => Route::Help,
        Command::List => Route::ListCommand { page: 1 },
        Command::Add => Route::AddPrompt,
        Command::Start => Route::Start,
        Command::Overview => Route::Overview,
    }
}

/// Dispatches a button's action to its handler.
pub fn route_callback<'a>(action: CallbackAction<'a>) -> (res: Route<'a>)
    ensures
        res == callback_route(action),
{
    match action {
        CallbackAction::ViewRepoDetails(repo_id, from_page) => Route::ViewRepo { repo_id, from_page },
        CallbackAction::BackToRepoDetails(repo_id, from_page) => Route::ViewRepo { repo_id, from_page },
        CallbackAction::ViewRepoLabels(repo_id, page, from_page) => Route::ViewLabels {
            repo_id,
            page,
            from_page,
        },
        CallbackAction::RemoveRepoPrompt(repo_id) => Route::RemoveRepo { repo_id, from_page: 1 },
        CallbackAction::ToggleLabel(label, label_page, _) => Route::ToggleLabel { label, label_page },
        CallbackAction::BackToRepoList(page) => Route::EditList { page },
        CallbackAction::ListReposPage(page) => Route::EditList { page },
        CallbackAction::CmdHelp => Route::Help,
        CallbackAction::CmdList => Route::ListCommand { page: 1 },
        CallbackAction::CmdAdd => Route::AddPrompt,
        CallbackAction::CmdOverview => Route::Overview,
    }
}

/// Dispatches a command to its handler.
pub fn route_command(cmd: Command) -> (res: Route<'static>)
    ensures
        res == command_route(cmd),
{
    match cmd {
        Command::Help => Route::Help,
        Command::List => Route::ListCommand { page: 1 },
        Command::Add => Route::AddPrompt,
        Command::Start => Route::Start,
        Command::Overview => Route::Overview,
    }
}

/// What to do with a callback query.
#[derive(Debug, Clone, PartialEq, Eq)]
pub enum CallbackPlan<'a> {
    /// The query carries no data: report this error to the message's chat
    /// when there is a message, then finish.
    NoData(Option<BotHandlerError>),
    /// The data is not an action: fail without answering.
    Reject(BotHandlerError),
    /// Answer the query to clear its spinner, then fail: the query has no
    /// message to work on.
    AnswerThenFail(BotHandlerError),
    /// Answer the query, then run the handler.
    AnswerThenDispatch(Route<'a>),
}

/// The plan for a callback query: `data` is `None` without data, else the
/// decoded action or the decoder's message; `has_message` says whether
/// the query has a message at all, `has_regular_message` whether that
/// message can be worked on.
pub fn callback_plan<'a>(
    data: Option<Result<CallbackAction<'a>, String>>,
    has_message: bool,
    has_regular_message: bool,
) -> (res: CallbackPlan<'a>)
    ensures
        (match data {
            None => if has_message {
                (res matches CallbackPlan::NoData(Some(BotHandlerError::InvalidInput(m))) && m@
                    == "Invalid callback data"@)
            } else {
                res == CallbackPlan::NoData(None)
            },
            Some(Err(e)) => res == CallbackPlan::Reject(BotHandlerError::InvalidInput(e)),
            Some(Ok(action)) => if has_regular_message {
                res == CallbackPlan::AnswerThenDispatch(callback_route(action))
            } else {
                (res matches CallbackPlan::AnswerThenFail(BotHandlerError::InvalidInput(m))
                    && m@ == "Callback query has no message"@)
            },
        }),
{
    match data {
        None => if has_message {
            CallbackPlan::NoData(
                Some(BotHandlerError::InvalidInput(String::from_str("Invalid callback data"))),
            )
        } else {
            CallbackPlan::NoData(None)
        },
        Some(Err(e)) => CallbackPlan::Reject(BotHandlerError::InvalidInput(e)),
        Some(Ok(action)) => if has_regular_message {
            CallbackPlan::AnswerThenDispatch(route_callback(action))
        } else {
            CallbackPlan::AnswerThenFail(
                BotHandlerError::InvalidInput(String::from_str("Callback query has no message")),
            )
        },
    }
}

/// What to do with a reply message.
#[derive(Debug, Clone, PartialEq, Eq)]
pub enum ReplyPlan<'a> {
    /// Add the repositories whose URLs the text lists.
    AddRepos(&'a str),
    /// Report the error to the chat.
    ReportError(BotHandlerError),
}

/// The plan for a reply: only a text reply while repository URLs are
/// awaited is processed; anything else is reported as an invalid state.
/// Either way the dialogue is reset afterwards.
pub fn reply_plan<'a>(state: Option<CommandState>, text: Option<&'a str>) -> (res: ReplyPlan<'a>)
    ensures
        (match (state, text) {
            (Some(CommandState::AwaitingAddRepo), Some(t)) => res == ReplyPlan::AddRepos(t),
            _ => (res matches ReplyPlan::ReportError(BotHandlerError::InvalidInput(m)) && m@
                == "Invalid state"@),
        }),
{
    match (state, text) {
        (Some(CommandState::AwaitingAddRepo), Some(t)) => ReplyPlan::AddRepos(t),
        _ => ReplyPlan::ReportError(BotHandlerError::InvalidInput(String::from_str("Invalid state"))),
    }
}

/// The dialogue state that a handler leaves once its work is done, or
/// `None` when it leaves the state as it is. `list_empty` says whether the
/// page of repositories a list handler read was empty, `state` is the
/// state that the list command read. Viewing a repository resets the
/// dialogue; viewing its labels remembers the repository and the list page;
/// a list shown in place of another view resets it; asking for URLs awaits
/// them.
pub fn next_dialogue_state(route: &Route, list_empty: bool, state: Option<CommandState>) -> (res:
    Option<CommandState>)
    ensures
        (match *route {
            Route::ViewRepo { .. } => res == Some(CommandState::Idle),
            Route::ViewLabels { repo_id, from_page, .. } => (res matches Some(
                CommandState::ViewingRepoLabels { repo_id: r, from_page: f },
            ) && r@ == repo_id@ && f == from_page),
            Route::EditList { .. } => res == if list_empty {
                None
            } else {
                Some(CommandState::Idle)
            },
            Route::ListCommand { .. } => res == if !list_empty && (state matches Some(s) && s
                != CommandState::Idle) {
                Some(CommandState::Idle)
            } else {
                None
            },
            Route::AddPrompt => res == Some(CommandState::AwaitingAddRepo),
            _ => res == None::<CommandState>,
        }),
{
    match route {
        Route::ViewRepo { .. } => Some(CommandState::Idle),
        Route::ViewLabels { repo_id, from_page, .. } => Some(
            CommandState::ViewingRepoLabels { repo_id: String::from_str(repo_id), from_page: *from_page },
        ),
        Route::EditList { .. } => if list_empty {
            None
        } else {
            Some(CommandState::Idle)
        },
        Route::ListCommand { .. } => match state {
            Some(CommandState::Idle) => None,
            Some(_) => if list_empty {
                None
            } else {
                Some(CommandState::Idle)
            },
            None => None,
        },
        Route::AddPrompt => Some(CommandState::AwaitingAddRepo),
        _ => None,
    }
}

} // verus!
