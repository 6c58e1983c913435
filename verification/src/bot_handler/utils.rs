//! Text helpers of the bot handler.
use vstd::prelude::*;

use crate::storage::repository::{repository_display, Repository, RepositoryView};
use crate::text::{join, join_strings};

verus! {

/// The display lines of a list of repositories.
pub open spec fn display_lines(repos: Seq<Repository>) -> Seq<Seq<char>> {
    repos.map_values(|r: Repository| repository_display(r@))
}

/// Returns a formatted string of tracked repositories: one
/// `owner/name (url)` line per repository, in the given order.
pub fn format_tracked_repos(repos: &Vec<Repository>) -> (res: String)
    ensures
        res@ == join(display_lines(repos@), "\n"@),
{
    let mut lines: Vec<String> = Vec::new();
    let mut i: usize = 0;
    while i < repos.len()
        invariant
            i <= repos.len(),
            lines@.len() == i,
            forall|k: int| 0 <= k < i ==> #[trigger] lines@[k]@ == repository_display(repos@[k]@),
        decreases repos.len() - i,
    {
        lines.push(repos[i].to_display_string());
        i = i + 1;
    }
    let res = join_strings(&lines, "\n");
    proof {
        assert(crate::text::views(lines@) =~= display_lines(repos@));
    }
    res
}

} // verus!
