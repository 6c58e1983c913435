//! The actions carried by inline keyboard buttons.
use vstd::prelude::*;

verus! {

/// Represents the actions that can be triggered by an inline keyboard button.
#[derive(Debug, Clone, PartialEq, Eq)]
pub enum CallbackAction<'a> {
    /// View the details of a specific repository ("owner/repo", from_page).
    ViewRepoDetails(&'a str, usize),
    /// View the labels for a specific repository ("owner/repo", labels_page, from_page).
    ViewRepoLabels(&'a str, usize, usize),
    /// Prompt the user to confirm removing a repository.
    RemoveRepoPrompt(&'a str),
    /// Toggle a label for a repository ("label", labels_page, from_page).
    ToggleLabel(&'a str, usize, usize),
    /// Go back to the repository details view ("owner/repo", from_page).
    BackToRepoDetails(&'a str, usize),
    /// Paginate through the list of repositories (page).
    ListReposPage(usize),
    /// Go back to the main repository list view (page).
    BackToRepoList(usize),
    /// A command to show the help message, triggered from a button.
    CmdHelp,
    /// A command to list all repositories, triggered from a button.
    CmdList,
    /// A command to add a new repository, triggered from a button.
    CmdAdd,
    /// A command to show the overview, triggered from a button.
    CmdOverview,
}

/// Abstract value of a `CallbackAction`: the strings by their characters
/// and the pages as natural numbers.
pub enum CallbackActionView {
    ViewRepoDetails(Seq<char>, nat),
    ViewRepoLabels(Seq<char>, nat, nat),
    RemoveRepoPrompt(Seq<char>),
    ToggleLabel(Seq<char>, nat, nat),
    BackToRepoDetails(Seq<char>, nat),
    ListReposPage(nat),
    BackToRepoList(nat),
    CmdHelp,
    CmdList,
    CmdAdd,
    CmdOverview,
}

impl<'a> View for CallbackAction<'a> {
    type V = CallbackActionView;

    open spec fn view(&self) -> CallbackActionView {
        match *self {
            CallbackAction::ViewRepoDetails(r, p) => CallbackActionView::ViewRepoDetails(r@, p as nat),
            CallbackAction::ViewRepoLabels(r, p, f) => CallbackActionView::ViewRepoLabels(
                r@,
                p as nat,
                f as nat,
            ),
            CallbackAction::RemoveRepoPrompt(r) => CallbackActionView::RemoveRepoPrompt(r@),
            CallbackAction::ToggleLabel(l, p, f) => CallbackActionView::ToggleLabel(l@, p as nat, f as nat),
            CallbackAction::BackToRepoDetails(r, p) => CallbackActionView::BackToRepoDetails(r@, p as nat),
            CallbackAction::ListReposPage(p) => CallbackActionView::ListReposPage(p as nat),
            CallbackAction::BackToRepoList(p) => CallbackActionView::BackToRepoList(p as nat),
            CallbackAction::CmdHelp => CallbackActionView::CmdHelp,
            CallbackAction::CmdList => CallbackActionView::CmdList,
            CallbackAction::CmdAdd => CallbackActionView::CmdAdd,
            CallbackAction::CmdOverview => CallbackActionView::CmdOverview,
        }
    }
}

} // verus!
