//! The decisions of the button handlers.
use vstd::prelude::*;

use crate::bot_handler::{BotHandlerError, CommandState};
use crate::repository::LabelNormalized;
use crate::storage::repo_entity::{parse_name_with_owner, repo_error_text, RepoEntityView};
use crate::storage::RepoEntity;

verus! {

/// What a handler makes of a repository id: the parsed repository, or
/// the invalid-input error with the parser's text.
pub open spec fn repo_id_result(
    repo_id: Seq<char>,
    res: Result<RepoEntity, BotHandlerError>,
) -> bool {
    match parse_name_with_owner(repo_id) {
        Ok(v) => (res matches Ok(r) && r@ == v),
        Err(e) => (res matches Err(BotHandlerError::InvalidInput(m)) && m@ == repo_error_text(e)),
    }
}

/// Parses the `owner/name` carried by a button into a repository.
pub fn parse_repo_id(repo_id: &str) -> (res: Result<RepoEntity, BotHandlerError>)
    ensures
        repo_id_result(repo_id@, res),
{
    match RepoEntity::from_str(repo_id) {
        Ok(r) => Ok(r),
        Err(e) => Err(BotHandlerError::InvalidInput(e.message())),
    }
}

fn copy_label(l: &LabelNormalized) -> (res: LabelNormalized)
    ensures
        res == *l,
{
    LabelNormalized {
        name: l.name.clone(),
        color: l.color.clone(),
        count: l.count,
        is_selected: l.is_selected,
    }
}

/// The labels that the user tracks, in their order.
pub fn tracked_only(labels: Vec<LabelNormalized>) -> (res: Vec<LabelNormalized>)
    ensures
        res@ == labels@.filter(|l: LabelNormalized| l.is_selected),
{
    let mut res: Vec<LabelNormalized> = Vec::new();
    let mut i: usize = 0;
    while i < labels.len()
        invariant
            i <= labels.len(),
            res@ == labels@.take(i as int).filter(|l: LabelNormalized| l.is_selected),
        decreases labels.len() - i,
    {
        proof {
            reveal_with_fuel(Seq::filter, 1);
            assert(labels@.take(i + 1).drop_last() =~= labels@.take(i as int));
        }
        if labels[i].is_selected {
            res.push(copy_label(&labels[i]));
        }
        i = i + 1;
    }
    assert(labels@.take(labels.len() as int) =~= labels@);
    res
}

/// The repository and list page to toggle a label for, taken from the
/// dialogue: only a user who is viewing a repository's labels can toggle
/// one.
pub fn toggle_target(state: Option<CommandState>) -> (res: Result<(RepoEntity, String, usize), BotHandlerError>)
    ensures
        (match state {
            Some(CommandState::ViewingRepoLabels { repo_id, from_page }) => match parse_name_with_owner(
                repo_id@,
            ) {
                Ok(v) => (res matches Ok(t) && t.0@ == v && t.1 == repo_id && t.2 == from_page),
                Err(e) => (res matches Err(BotHandlerError::InvalidInput(m)) && m@ == repo_error_text(
                    e,
                )),
            },
            _ => (res matches Err(BotHandlerError::InvalidInput(m)) && m@
                == "Invalid state: expected ViewingRepoLabels"@),
        }),
{
    match state {
        Some(CommandState::ViewingRepoLabels { repo_id, from_page }) => {
            match parse_repo_id(repo_id.as_str()) {
                Ok(repo) => Ok((repo, repo_id, from_page)),
                Err(e) => Err(e),
            }
        },
        _ => Err(
            BotHandlerError::InvalidInput(
                String::from_str("Invalid state: expected ViewingRepoLabels"),
            ),
        ),
    }
}

} // verus!
