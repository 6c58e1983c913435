//! Showing the repository list in answer to the list command.
use vstd::prelude::*;

use crate::bot_handler::CommandState;

verus! {

/// How the list command answers.
#[derive(Debug, Clone, Copy, PartialEq, Eq)]
pub enum ListPlan {
    /// The user tracks nothing: say that the list is empty.
    SendEmpty,
    /// Another view is open: edit its message into the list and reset
    /// the dialogue.
    EditAndReset,
    /// Send the list as a new message.
    Send,
}

/// The answer to the list command for a page that is empty or not, given
/// the dialogue's state (read only when the page has items).
pub fn list_plan(items_empty: bool, state: Option<CommandState>) -> (res: ListPlan)
    ensures
        items_empty ==> res == ListPlan::SendEmpty,
        !items_empty ==> (res == ListPlan::EditAndReset <==> (state matches Some(s) && s
            != CommandState::Idle)),
        !items_empty ==> res != ListPlan::SendEmpty,
{
    if items_empty {
        return ListPlan::SendEmpty;
    }
    match state {
        Some(CommandState::Idle) => ListPlan::Send,
        Some(_) => ListPlan::EditAndReset,
        None => ListPlan::Send,
    }
}

} // verus!
