//! The bot's decision logic: callback actions, command states and the
//! steps of each command.
pub mod callback_actions;
pub mod callbacks;
pub mod commands;
pub mod routing;
pub mod utils;

use vstd::prelude::*;

pub use callback_actions::CallbackAction;

use crate::messaging::{messaging_error_text, MessagingError};
use crate::repository::{service_error_text, RepositoryServiceError};

verus! {

/// Represents errors that can occur in the bot handler.
#[derive(Debug, Clone, PartialEq, Eq)]
pub enum BotHandlerError {
    /// Represents an error with invalid user input.
    InvalidInput(String),
    /// Represents an error with the dialogue storage (the storage error's message).
    DialogueError(String),
    /// Represents an error sending a message.
    SendMessageError(MessagingError),
    /// Represents an internal error from the repository service.
    InternalError(RepositoryServiceError),
    /// Represents an error when a user exceeds a limit.
    LimitExceeded(String),
}

/// The text of a bot-handler error.
pub open spec fn bot_error_text(e: BotHandlerError) -> Seq<char> {
    match e {
        BotHandlerError::InvalidInput(m) => "Invalid input: "@ + m@,
        BotHandlerError::DialogueError(m) => "Failed to get or update dialogue: "@ + m@,
        BotHandlerError::SendMessageError(m) => "Failed to send message: "@ + messaging_error_text(m),
        BotHandlerError::InternalError(r) => "Internal error: "@ + service_error_text(r),
        BotHandlerError::LimitExceeded(m) => "Limit exceeded: "@ + m@,
    }
}

impl BotHandlerError {
    /// The error's text.
    pub fn message(&self) -> (res: String)
        ensures
            res@ == bot_error_text(*self),
    {
        match self {
            BotHandlerError::InvalidInput(m) => String::from_str("Invalid input: ").concat(m.as_str()),
            BotHandlerError::DialogueError(m) => String::from_str(
                "Failed to get or update dialogue: ",
            ).concat(m.as_str()),
            BotHandlerError::SendMessageError(m) => String::from_str("Failed to send message: ").concat(
                m.message().as_str(),
            ),
            BotHandlerError::InternalError(r) => String::from_str("Internal error: ").concat(
                r.message().as_str(),
            ),
            BotHandlerError::LimitExceeded(m) => String::from_str("Limit exceeded: ").concat(m.as_str()),
        }
    }
}

/// The bot-handler error for a repository-service error: a limit stays a
/// limit, anything else is internal.
pub open spec fn from_service_error(err: RepositoryServiceError) -> BotHandlerError {
    match err {
        RepositoryServiceError::LimitExceeded(msg) => BotHandlerError::LimitExceeded(msg),
        _ => BotHandlerError::InternalError(err),
    }
}

impl From<RepositoryServiceError> for BotHandlerError {
    fn from(err: RepositoryServiceError) -> (res: Self) {
        match err {
            RepositoryServiceError::LimitExceeded(msg) => BotHandlerError::LimitExceeded(msg),
            _ => BotHandlerError::InternalError(err),
        }
    }
}

impl vstd::std_specs::convert::FromSpecImpl<RepositoryServiceError> for BotHandlerError {
    open spec fn obeys_from_spec() -> bool {
        true
    }

    open spec fn from_spec(v: RepositoryServiceError) -> BotHandlerError {
        from_service_error(v)
    }
}

impl From<MessagingError> for BotHandlerError {
    fn from(err: MessagingError) -> (res: Self) {
        BotHandlerError::SendMessageError(err)
    }
}

impl vstd::std_specs::convert::FromSpecImpl<MessagingError> for BotHandlerError {
    open spec fn obeys_from_spec() -> bool {
        true
    }

    open spec fn from_spec(v: MessagingError) -> BotHandlerError {
        BotHandlerError::SendMessageError(v)
    }
}

/// Represents the available bot commands.
#[derive(Debug, Clone, Copy, PartialEq, Eq)]
pub enum Command {
    /// Start the bot and show a welcome message.
    Start,
    /// Show the help message.
    Help,
    /// Add a repository to track.
    Add,
    /// List the repositories being tracked.
    List,
    /// Show an overview of all tracked repositories and their labels.
    Overview,
}

/// The state of the command.
#[derive(Clone, Default, Debug, PartialEq, Eq)]
pub enum CommandState {
    /// The default state, where no command is active (`None` in the
    /// stored dialogue).
    #[default]
    Idle,
    /// The bot is waiting for the user to reply with repository URLs.
    AwaitingAddRepo,
    /// The user is viewing the labels for a specific repository.
    ViewingRepoLabels {
        /// The full name of the repository (e.g., "owner/repo").
        repo_id: String,
        /// The page number of the repository list the user came from.
        from_page: usize,
    },
}

} // verus!
