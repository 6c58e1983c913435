//! Adding repositories from a reply that lists their URLs.
use vstd::prelude::*;

use crate::bot_handler::BotHandlerError;
use crate::repository::{service_error_text, RepositoryServiceError};
use crate::storage::repo_entity::{repo_from_url, RepoEntityView};
use crate::storage::RepoEntity;
use crate::text::{split_whitespace, str_eq, views, words};
use crate::urls::parsed_url;

verus! {

/// The outcome of adding one repository.
#[derive(Debug, Clone, PartialEq, Eq)]
pub enum AddRepoResult {
    /// The repository was added (its `owner/name`).
    Success(String),
    /// The repository was already tracked.
    AlreadyTracked(String),
    /// GitHub does not know the repository.
    NotFound(String),
    /// The text is not a GitHub repository URL (the text itself).
    InvalidUrl(String),
    /// Checking or adding failed (`owner/name` and the error's text).
    Error(String, String),
}

/// Abstract value of an `AddRepoResult`.
pub enum AddRepoResultView {
    Success(Seq<char>),
    AlreadyTracked(Seq<char>),
    NotFound(Seq<char>),
    InvalidUrl(Seq<char>),
    Error(Seq<char>, Seq<char>),
}

impl View for AddRepoResult {
    type V = AddRepoResultView;

    open spec fn view(&self) -> AddRepoResultView {
        match self {
            AddRepoResult::Success(n) => AddRepoResultView::Success(n@),
            AddRepoResult::AlreadyTracked(n) => AddRepoResultView::AlreadyTracked(n@),
            AddRepoResult::NotFound(n) => AddRepoResultView::NotFound(n@),
            AddRepoResult::InvalidUrl(u) => AddRepoResultView::InvalidUrl(u@),
            AddRepoResult::Error(n, e) => AddRepoResultView::Error(n@, e@),
        }
    }
}

/// The URLs in a reply: its whitespace-separated words.
pub fn reply_urls(text: &str) -> (res: Vec<String>)
    ensures
        views(res@) == words(text@),
{
    split_whitespace(text)
}

/// The URLs of a reply, or the invalid-input error when it holds none.
pub fn parse_reply(text: &str) -> (res: Result<Vec<String>, BotHandlerError>)
    ensures
        words(text@).len() > 0 ==> (res matches Ok(v) && views(v@) == words(text@)),
        words(text@).len() == 0 ==> (res matches Err(BotHandlerError::InvalidInput(m)) && m@
            == "Invalid repository URL"@),
{
    let urls = reply_urls(text);
    if urls.len() == 0 {
        Err(BotHandlerError::InvalidInput(String::from_str("Invalid repository URL")))
    } else {
        Ok(urls)
    }
}

/// First step for one URL: the repository to check, or `InvalidUrl` when
/// the text is not a GitHub repository URL.
pub fn begin_add(url: String) -> (res: Result<RepoEntity, AddRepoResult>)
    ensures
        match repo_from_url(url@, parsed_url(url@)) {
            Ok(r) => res matches Ok(repo) && repo@ == r,
            Err(_) => res matches Err(out) && out@ == AddRepoResultView::InvalidUrl(url@),
        },
{
    match RepoEntity::from_url(url.as_str()) {
        Ok(repo) => Ok(repo),
        Err(_) => Err(AddRepoResult::InvalidUrl(url)),
    }
}

/// What follows GitHub's answer to whether the repository exists: add it,
/// or report it as not found or as failed.
pub fn after_exists(repo: RepoEntity, exists: Result<bool, RepositoryServiceError>) -> (res: Result<RepoEntity, AddRepoResult>)
    ensures
        (match exists {
            Ok(true) => res == Ok::<RepoEntity, AddRepoResult>(repo),
            Ok(false) => (res matches Err(out) && out@ == AddRepoResultView::NotFound(
                repo.name_with_owner@,
            )),
            Err(e) => (res matches Err(out) && out@ == AddRepoResultView::Error(
                repo.name_with_owner@,
                service_error_text(e),
            )),
        }),
{
    match exists {
        Ok(true) => Ok(repo),
        Ok(false) => Err(AddRepoResult::NotFound(repo.name_with_owner)),
        Err(e) => Err(AddRepoResult::Error(repo.name_with_owner, e.message())),
    }
}

/// The outcome once the repository was handed to storage.
pub fn after_add(repo: RepoEntity, added: Result<bool, RepositoryServiceError>) -> (res: AddRepoResult)
    ensures
        res@ == match added {
            Ok(true) => AddRepoResultView::Success(repo.name_with_owner@),
            Ok(false) => AddRepoResultView::AlreadyTracked(repo.name_with_owner@),
            Err(e) => AddRepoResultView::Error(repo.name_with_owner@, service_error_text(e)),
        },
{
    match added {
        Ok(true) => AddRepoResult::Success(repo.name_with_owner),
        Ok(false) => AddRepoResult::AlreadyTracked(repo.name_with_owner),
        Err(e) => AddRepoResult::Error(repo.name_with_owner, e.message()),
    }
}

/// A struct to hold the summary of the add operation; each list holds each
/// entry once.
#[derive(Default, Debug, Clone, PartialEq, Eq)]
pub struct AddSummary {
    /// Repositories that were successfully added.
    pub successfully_added: Vec<String>,
    /// Repositories that were already tracked.
    pub already_tracked: Vec<String>,
    /// Repositories that were not found on GitHub.
    pub not_found: Vec<String>,
    /// URLs that were invalid.
    pub invalid_urls: Vec<String>,
    /// Repositories that failed to be added due to an error.
    pub errors: Vec<(String, String)>,
}

/// Abstract value of an `AddSummary`: one set per outcome.
pub struct AddSummaryView {
    pub successfully_added: Set<Seq<char>>,
    pub already_tracked: Set<Seq<char>>,
    pub not_found: Set<Seq<char>>,
    pub invalid_urls: Set<Seq<char>>,
    pub errors: Set<(Seq<char>, Seq<char>)>,
}

/// The views of a list of pairs of strings.
pub open spec fn pair_views(v: Seq<(String, String)>) -> Seq<(Seq<char>, Seq<char>)> {
    v.map_values(|p: (String, String)| (p.0@, p.1@))
}

impl View for AddSummary {
    type V = AddSummaryView;

    open spec fn view(&self) -> AddSummaryView {
        AddSummaryView {
            successfully_added: views(self.successfully_added@).to_set(),
            already_tracked: views(self.already_tracked@).to_set(),
            not_found: views(self.not_found@).to_set(),
            invalid_urls: views(self.invalid_urls@).to_set(),
            errors: pair_views(self.errors@).to_set(),
        }
    }
}

/// The summary after one more outcome.
pub open spec fn record_spec(s: AddSummaryView, r: AddRepoResultView) -> AddSummaryView {
    match r {
        AddRepoResultView::Success(n) => AddSummaryView {
            successfully_added: s.successfully_added.insert(n),
            ..s
        },
        AddRepoResultView::AlreadyTracked(n) => AddSummaryView {
            already_tracked: s.already_tracked.insert(n),
            ..s
        },
        AddRepoResultView::NotFound(n) => AddSummaryView { not_found: s.not_found.insert(n), ..s },
        AddRepoResultView::InvalidUrl(u) => AddSummaryView {
            invalid_urls: s.invalid_urls.insert(u),
            ..s
        },
        AddRepoResultView::Error(n, e) => AddSummaryView { errors: s.errors.insert((n, e)), ..s },
    }
}

/// The summary of a sequence of outcomes.
pub open spec fn summarize(rs: Seq<AddRepoResultView>) -> AddSummaryView
    decreases rs.len(),
{
    if rs.len() == 0 {
        AddSummaryView {
            successfully_added: Set::empty(),
            already_tracked: Set::empty(),
            not_found: Set::empty(),
            invalid_urls: Set::empty(),
            errors: Set::empty(),
        }
    } else {
        record_spec(summarize(rs.drop_last()), rs.last())
    }
}

/// No entry occurs twice.
pub open spec fn no_dups<T>(s: Seq<T>) -> bool {
    forall|i: int, j: int| 0 <= i < j < s.len() ==> s[i] != s[j]
}

fn insert_name(v: &mut Vec<String>, n: String)
    requires
        no_dups(views(old(v)@)),
    ensures
        no_dups(views(final(v)@)),
        views(final(v)@).to_set() == views(old(v)@).to_set().insert(n@),
{
    let mut i: usize = 0;
    while i < v.len()
        invariant
            i <= v.len(),
            v@ == old(v)@,
            no_dups(views(v@)),
            forall|j: int| 0 <= j < i ==> v@[j]@ != n@,
        decreases v.len() - i,
    {
        if str_eq(v[i].as_str(), n.as_str()) {
            proof {
                assert(views(v@)[i as int] == n@);
                assert(views(v@).to_set().insert(n@) =~= views(v@).to_set());
            }
            return;
        }
        i = i + 1;
    }
    let ghost prev = v@;
    v.push(n);
    proof {
        assert(views(v@) =~= views(prev).push(n@));
        views(prev).lemma_push_to_set_commute(n@);
        assert(views(v@).to_set() =~= views(prev).to_set().insert(n@));
        assert forall|a: int, b: int| 0 <= a < b < views(v@).len() implies views(v@)[a] != views(v@)[b] by {
            if b == prev.len() {
                assert(prev[a]@ != n@);
            }
        }
    }
}

fn insert_pair(v: &mut Vec<(String, String)>, p: (String, String))
    requires
        no_dups(pair_views(old(v)@)),
    ensures
        no_dups(pair_views(final(v)@)),
        pair_views(final(v)@).to_set() == pair_views(old(v)@).to_set().insert((p.0@, p.1@)),
{
    let mut i: usize = 0;
    while i < v.len()
        invariant
            i <= v.len(),
            v@ == old(v)@,
            no_dups(pair_views(v@)),
            forall|j: int| 0 <= j < i ==> (v@[j].0@, v@[j].1@) != (p.0@, p.1@),
        decreases v.len() - i,
    {
        if str_eq(v[i].0.as_str(), p.0.as_str()) && str_eq(v[i].1.as_str(), p.1.as_str()) {
            proof {
                assert(pair_views(v@)[i as int] == (p.0@, p.1@));
                assert(pair_views(v@).to_set().insert((p.0@, p.1@)) =~= pair_views(v@).to_set());
            }
            return;
        }
        i = i + 1;
    }
    let ghost prev = v@;
    v.push(p);
    proof {
        assert(pair_views(v@) =~= pair_views(prev).push((p.0@, p.1@)));
        pair_views(prev).lemma_push_to_set_commute((p.0@, p.1@));
        assert(pair_views(v@).to_set() =~= pair_views(prev).to_set().insert((p.0@, p.1@)));
        assert forall|a: int, b: int| 0 <= a < b < pair_views(v@).len() implies pair_views(v@)[a] != pair_views(v@)[b] by {
            if b == prev.len() {
                assert(pair_views(prev)[a] == (prev[a].0@, prev[a].1@));
            }
        }
    }
}

impl AddSummary {
    /// Each list holds each entry once.
    pub open spec fn wf(&self) -> bool {
        &&& no_dups(views(self.successfully_added@))
        &&& no_dups(views(self.already_tracked@))
        &&& no_dups(views(self.not_found@))
        &&& no_dups(views(self.invalid_urls@))
        &&& no_dups(pair_views(self.errors@))
    }

    /// An empty summary.
    pub fn new() -> (res: Self)
        ensures
            res.wf(),
            res@ == summarize(Seq::empty()),
    {
        let res = AddSummary {
            successfully_added: Vec::new(),
            already_tracked: Vec::new(),
            not_found: Vec::new(),
            invalid_urls: Vec::new(),
            errors: Vec::new(),
        };
        proof {
            assert(res@.successfully_added =~= Set::empty());
            assert(res@.already_tracked =~= Set::empty());
            assert(res@.not_found =~= Set::empty());
            assert(res@.invalid_urls =~= Set::empty());
            assert(res@.errors =~= Set::empty());
        }
        res
    }

    /// Records one outcome under its category.
    pub fn record(&mut self, result: AddRepoResult)
        requires
            old(self).wf(),
        ensures
            final(self).wf(),
            final(self)@ == record_spec(old(self)@, result@),
    {
        match result {
            AddRepoResult::Success(n) => insert_name(&mut self.successfully_added, n),
            AddRepoResult::AlreadyTracked(n) => insert_name(&mut self.already_tracked, n),
            AddRepoResult::NotFound(n) => insert_name(&mut self.not_found, n),
            AddRepoResult::InvalidUrl(u) => insert_name(&mut self.invalid_urls, u),
            AddRepoResult::Error(n, e) => insert_pair(&mut self.errors, (n, e)),
        }
    }
}

/// The views of a list of outcomes.
pub open spec fn result_views(rs: Seq<AddRepoResult>) -> Seq<AddRepoResultView> {
    rs.map_values(|r: AddRepoResult| r@)
}

fn copy_result(r: &AddRepoResult) -> (res: AddRepoResult)
    ensures
        res@ == r@,
{
    match r {
        AddRepoResult::Success(n) => AddRepoResult::Success(n.clone()),
        AddRepoResult::AlreadyTracked(n) => AddRepoResult::AlreadyTracked(n.clone()),
        AddRepoResult::NotFound(n) => AddRepoResult::NotFound(n.clone()),
        AddRepoResult::InvalidUrl(u) => AddRepoResult::InvalidUrl(u.clone()),
        AddRepoResult::Error(n, e) => AddRepoResult::Error(n.clone(), e.clone()),
    }
}

/// Folds the outcomes of a reply into a summary.
pub fn summarize_results(results: &Vec<AddRepoResult>) -> (res: AddSummary)
    ensures
        res.wf(),
        res@ == summarize(result_views(results@)),
{
    let mut summary = AddSummary::new();
    let mut i: usize = 0;
    while i < results.len()
        invariant
            i <= results.len(),
            summary.wf(),
            summary@ == summarize(result_views(results@).take(i as int)),
        decreases results.len() - i,
    {
        summary.record(copy_result(&results[i]));
        assert(result_views(results@).take(i + 1).drop_last() =~= result_views(results@).take(
            i as int,
        ));
        i = i + 1;
    }
    assert(result_views(results@).take(results.len() as int) =~= result_views(results@));
    summary
}

/// Every outcome of a reply lands in the summary under its own category,
/// and nothing else does: a name is among the added ones exactly when
/// some outcome says it was added, and likewise for each other category.
pub proof fn law_summary_holds_exactly_the_results(rs: Seq<AddRepoResultView>)
    ensures
        forall|n: Seq<char>| #[trigger]
            summarize(rs).successfully_added.contains(n) <==> rs.contains(
                AddRepoResultView::Success(n),
            ),
        forall|n: Seq<char>| #[trigger]
            summarize(rs).already_tracked.contains(n) <==> rs.contains(
                AddRepoResultView::AlreadyTracked(n),
            ),
        forall|n: Seq<char>| #[trigger]
            summarize(rs).not_found.contains(n) <==> rs.contains(AddRepoResultView::NotFound(n)),
        forall|u: Seq<char>| #[trigger]
            summarize(rs).invalid_urls.contains(u) <==> rs.contains(AddRepoResultView::InvalidUrl(u)),
        forall|n: Seq<char>, e: Seq<char>| #[trigger]
            summarize(rs).errors.contains((n, e)) <==> rs.contains(AddRepoResultView::Error(n, e)),
    decreases rs.len(),
{
    if rs.len() > 0 {
        let init = rs.drop_last();
        law_summary_holds_exactly_the_results(init);
        assert(rs =~= init.push(rs.last()));
        assert forall|x: AddRepoResultView| #[trigger] rs.contains(x) <==> (init.contains(x) || x
            == rs.last()) by {
            if rs.contains(x) {
                let k = choose|k: int| 0 <= k < rs.len() && rs[k] == x;
                if k < init.len() {
                    assert(init[k] == x);
                }
            }
            if init.contains(x) {
                let k = choose|k: int| 0 <= k < init.len() && init[k] == x;
                assert(rs[k] == x);
            }
            if x == rs.last() {
                assert(rs[rs.len() - 1] == x);
            }
        }
        let s0 = summarize(init);
        assert(summarize(rs) == record_spec(s0, rs.last()));
        assert forall|n: Seq<char>| #[trigger]
            summarize(rs).successfully_added.contains(n) <==> rs.contains(
                AddRepoResultView::Success(n),
            ) by {
            assert(rs.contains(AddRepoResultView::Success(n)) <==> (init.contains(
                AddRepoResultView::Success(n),
            ) || AddRepoResultView::Success(n) == rs.last()));
        }
        assert forall|n: Seq<char>| #[trigger]
            summarize(rs).already_tracked.contains(n) <==> rs.contains(
                AddRepoResultView::AlreadyTracked(n),
            ) by {
            assert(rs.contains(AddRepoResultView::AlreadyTracked(n)) <==> (init.contains(
                AddRepoResultView::AlreadyTracked(n),
            ) || AddRepoResultView::AlreadyTracked(n) == rs.last()));
        }
    }
}

} // verus!
