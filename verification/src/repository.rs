//! The repository service's own logic: per-user limits and the labels
//! shown for a repository.
use vstd::prelude::*;

use crate::github::{github_error_text, GithubError, LabelNode};
use crate::pagination::{clamp_page, Paginated};
use crate::storage::sqlite::toggled;
use crate::storage::{storage_error_text, StorageError};
use crate::text::{decimal, i64_to_decimal, signed_decimal, str_eq, usize_to_decimal, views};

verus! {

/// Represents errors that can occur in the repository service.
#[derive(Debug, Clone, PartialEq, Eq)]
pub enum RepositoryServiceError {
    /// An error from the GitHub client.
    GithubClientError(GithubError),
    /// An error from the storage layer.
    StorageError(StorageError),
    /// An error indicating that a user has exceeded a limit.
    LimitExceeded(String),
}

/// The text of a repository-service error.
pub open spec fn service_error_text(e: RepositoryServiceError) -> Seq<char> {
    match e {
        RepositoryServiceError::GithubClientError(_) => "Github client error"@,
        RepositoryServiceError::StorageError(s) => "Storage error: "@ + storage_error_text(s),
        RepositoryServiceError::LimitExceeded(m) => "Limit exceeded for user: "@ + m@,
    }
}

impl RepositoryServiceError {
    /// The error's text.
    pub fn message(&self) -> (res: String)
        ensures
            res@ == service_error_text(*self),
    {
        match self {
            RepositoryServiceError::GithubClientError(_) => String::from_str("Github client error"),
            RepositoryServiceError::StorageError(s) => {
                let mut m = String::from_str("Storage error: ");
                let inner = s.message();
                m.append(inner.as_str());
                m
            },
            RepositoryServiceError::LimitExceeded(l) => {
                let mut m = String::from_str("Limit exceeded for user: ");
                m.append(l.as_str());
                m
            },
        }
    }
}

/// Represents a normalized label with its name, color, count, and selection
/// status.
#[derive(Debug, Clone, PartialEq, Eq)]
pub struct LabelNormalized {
    /// The name of the label.
    pub name: String,
    /// The color of the label.
    pub color: String,
    /// The number of issues with this label.
    pub count: i64,
    /// Whether the user is tracking this label.
    pub is_selected: bool,
}

/// The message for a user who tracks the maximum number of repositories.
pub open spec fn repo_limit_text(chat_id: int, max: nat) -> Seq<char> {
    "User "@ + signed_decimal(chat_id) + " has reached the maximum number of repositories: "@
        + decimal(max)
}

/// The message for a user who tracks the maximum number of labels.
pub open spec fn label_limit_text(chat_id: int, max: nat) -> Seq<char> {
    "User "@ + signed_decimal(chat_id) + " has reached the maximum number of labels per repository: "@
        + decimal(max)
}

fn limit_message(chat_id: i64, what: &str, max: usize) -> (res: String)
    ensures
        res@ == "User "@ + signed_decimal(chat_id as int) + what@ + decimal(max as nat),
{
    let mut m = String::from_str("User ");
    let c = i64_to_decimal(chat_id);
    m.append(c.as_str());
    m.append(what);
    let k = usize_to_decimal(max);
    m.append(k.as_str());
    m
}

/// Decides whether a user who tracks `count` repositories may add one
/// more: refused once `count` reaches `max_repos_per_user`.
pub fn check_repo_limit(chat_id: i64, count: usize, max_repos_per_user: usize) -> (res: Result<
    (),
    RepositoryServiceError,
>)
    ensures
        count < max_repos_per_user ==> res is Ok,
        count >= max_repos_per_user ==> (res matches Err(
            RepositoryServiceError::LimitExceeded(m),
        ) && m@ == repo_limit_text(chat_id as int, max_repos_per_user as nat)),
{
    if count >= max_repos_per_user {
        Err(
            RepositoryServiceError::LimitExceeded(
                limit_message(chat_id, " has reached the maximum number of repositories: ", max_repos_per_user),
            ),
        )
    } else {
        Ok(())
    }
}

/// `name` is among the tracked labels.
pub open spec fn is_tracked(selected: Seq<String>, name: Seq<char>) -> bool {
    views(selected).contains(name)
}

/// Whether `name` is in `tracked`.
pub fn contains_label(selected: &Vec<String>, name: &str) -> (res: bool)
    ensures
        res == is_tracked(selected@, name@),
{
    let mut i: usize = 0;
    while i < selected.len()
        invariant
            i <= selected.len(),
            forall|j: int| 0 <= j < i ==> selected@[j]@ != name@,
        decreases selected.len() - i,
    {
        if str_eq(selected[i].as_str(), name) {
            proof {
                assert(views(selected@)[i as int] == name@);
            }
            return true;
        }
        i = i + 1;
    }
    proof {
        if views(selected@).contains(name@) {
            let k = choose|k: int| 0 <= k < views(selected@).len() && views(selected@)[k] == name@;
            assert(selected@[k]@ == name@);
        }
    }
    false
}

/// Decides a label toggle: a tracked label may always be removed; a new one
/// is refused once the repository already tracks `max_labels_per_repo`
/// labels. `Ok(tracked)` says whether the label is tracked after the
/// toggle.
pub fn plan_toggle_label(
    chat_id: i64,
    selected: &Vec<String>,
    label_name: &str,
    max_labels_per_repo: usize,
) -> (res: Result<bool, RepositoryServiceError>)
    ensures
        is_tracked(selected@, label_name@) ==> res == Ok::<bool, RepositoryServiceError>(false),
        !is_tracked(selected@, label_name@) && selected@.len() < max_labels_per_repo ==> res == Ok::<
            bool,
            RepositoryServiceError,
        >(true),
        !is_tracked(selected@, label_name@) && selected@.len() >= max_labels_per_repo ==> (res matches Err(
            RepositoryServiceError::LimitExceeded(m),
        ) && m@ == label_limit_text(chat_id as int, max_labels_per_repo as nat)),
{
    let is_selected = contains_label(selected, label_name);
    if is_selected {
        Ok(false)
    } else if selected.len() >= max_labels_per_repo {
        Err(
            RepositoryServiceError::LimitExceeded(
                limit_message(
                    chat_id,
                    " has reached the maximum number of labels per repository: ",
                    max_labels_per_repo,
                ),
            ),
        )
    } else {
        Ok(true)
    }
}


/// The number of issues GitHub reports for a label (0 when not reported).
pub open spec fn label_count(l: LabelNode) -> int {
    match l.issues {
        Some(c) => c as int,
        None => 0,
    }
}

/// `x` inserted into `s` (sorted by descending count) after every element
/// whose count is at least `x`'s, as a stable sort places it.
pub open spec fn insert_by_count(s: Seq<LabelNode>, x: LabelNode) -> Seq<LabelNode>
    decreases s.len(),
{
    if s.len() == 0 {
        seq![x]
    } else if label_count(s.last()) >= label_count(x) {
        s.push(x)
    } else {
        insert_by_count(s.drop_last(), x).push(s.last())
    }
}

/// `s` stably sorted by descending issue count (the order that `sort_by`
/// with `count_b.cmp(&count_a)` gives).
pub open spec fn sort_by_count_desc(s: Seq<LabelNode>) -> Seq<LabelNode>
    decreases s.len(),
{
    if s.len() == 0 {
        s
    } else {
        insert_by_count(sort_by_count_desc(s.drop_last()), s.last())
    }
}

/// A label as shown to the user.
pub open spec fn normalized(selected: Seq<String>, l: LabelNode) -> LabelNormalized {
    LabelNormalized {
        name: l.name,
        color: l.color,
        count: label_count(l) as i64,
        is_selected: is_tracked(selected, l.name@),
    }
}

/// The labels of `s` that have issues, in order, as shown to the user.
pub open spec fn normalized_with_issues(selected: Seq<String>, s: Seq<LabelNode>) -> Seq<LabelNormalized>
    decreases s.len(),
{
    if s.len() == 0 {
        Seq::empty()
    } else {
        let r = normalized_with_issues(selected, s.drop_last());
        if label_count(s.last()) > 0 {
            r.push(normalized(selected, s.last()))
        } else {
            r
        }
    }
}

/// The labels shown for a repository: sorted by descending issue count,
/// without those that have no issues, each marked when tracked.
pub open spec fn normalize_labels_spec(selected: Seq<String>, labels: Seq<LabelNode>) -> Seq<LabelNormalized> {
    normalized_with_issues(selected, sort_by_count_desc(labels))
}

proof fn lemma_insert_at(s: Seq<LabelNode>, x: LabelNode, j: int)
    requires
        0 <= j <= s.len(),
        forall|k: int| j <= k < s.len() ==> label_count(#[trigger] s[k]) < label_count(x),
        j > 0 ==> label_count(s[j - 1]) >= label_count(x),
    ensures
        insert_by_count(s, x) == s.take(j).push(x) + s.skip(j),
    decreases s.len(),
{
    if s.len() == 0 {
        assert(s.take(j).push(x) + s.skip(j) =~= seq![x]);
    } else if label_count(s.last()) >= label_count(x) {
        assert(j == s.len());
        assert(s.take(j).push(x) + s.skip(j) =~= s.push(x));
    } else {
        let t = s.drop_last();
        lemma_insert_at(t, x, j);
        assert(t.take(j).push(x) + t.skip(j) + seq![s.last()] =~= s.take(j).push(x) + s.skip(j));
        assert(insert_by_count(s, x) == insert_by_count(t, x).push(s.last()));
        assert(insert_by_count(t, x).push(s.last()) =~= t.take(j).push(x) + t.skip(j) + seq![s.last()]);
    }
}

fn count_of(l: &LabelNode) -> (res: i64)
    ensures
        res as int == label_count(*l),
{
    match l.issues {
        Some(c) => c,
        None => 0,
    }
}

/// Sorts the labels by descending issue count, keeping the order of equal
/// counts.
pub fn sort_labels_by_count(labels: Vec<LabelNode>) -> (res: Vec<LabelNode>)
    ensures
        res@ == sort_by_count_desc(labels@),
{
    let ghost all = labels@;
    let mut rest = labels;
    let n = rest.len();
    let mut res: Vec<LabelNode> = Vec::new();
    let mut k: usize = 0;
    while k < n
        invariant
            n == all.len(),
            k <= n,
            rest@ == all.subrange(k as int, n as int),
            res@ == sort_by_count_desc(all.take(k as int)),
        decreases n - k,
    {
        let x = rest.remove(0);
        proof {
            assert(rest@ =~= all.subrange(k + 1, n as int));
            assert(all.take(k + 1).drop_last() =~= all.take(k as int));
            assert(all.take(k + 1).last() == x);
        }
        let cx = count_of(&x);
        let mut j = res.len();
        while j > 0 && count_of(&res[j - 1]) < cx
            invariant
                j <= res.len(),
                cx as int == label_count(x),
                forall|i: int| j <= i < res@.len() ==> label_count(#[trigger] res@[i]) < label_count(x),
            decreases j,
        {
            j = j - 1;
        }
        proof {
            lemma_insert_at(res@, x, j as int);
        }
        let ghost prev = res@;
        res.insert(j, x);
        proof {
            assert(res@ =~= prev.take(j as int).push(x) + prev.skip(j as int));
        }
        k = k + 1;
    }
    assert(all.take(n as int) =~= all);
    res
}


/// The labels shown for a repository: `labels` sorted by descending issue
/// count (stable), without those that have no issues, each marked as
/// selected when its name is among the tracked labels.
pub fn normalize_labels(selected: &Vec<String>, labels: Vec<LabelNode>) -> (res: Vec<LabelNormalized>)
    ensures
        res@ == normalize_labels_spec(selected@, labels@),
{
    let sorted = sort_labels_by_count(labels);
    let ghost all = sorted@;
    let mut rest = sorted;
    let n = rest.len();
    let mut res: Vec<LabelNormalized> = Vec::new();
    let mut k: usize = 0;
    while k < n
        invariant
            n == all.len(),
            k <= n,
            rest@ == all.subrange(k as int, n as int),
            res@ == normalized_with_issues(selected@, all.take(k as int)),
        decreases n - k,
    {
        let x = rest.remove(0);
        proof {
            assert(rest@ =~= all.subrange(k + 1, n as int));
            assert(all.take(k + 1).drop_last() =~= all.take(k as int));
            assert(all.take(k + 1).last() == x);
        }
        let count = count_of(&x);
        if count > 0 {
            let is_selected = contains_label(selected, x.name.as_str());
            res.push(LabelNormalized { name: x.name, color: x.color, count, is_selected });
        }
        k = k + 1;
    }
    assert(all.take(n as int) =~= all);
    res
}

/// The labels are in descending order of issue count.
pub open spec fn sorted_by_count_desc(s: Seq<LabelNode>) -> bool {
    forall|i: int, j: int| 0 <= i < j < s.len() ==> label_count(#[trigger] s[i]) >= label_count(
        #[trigger] s[j],
    )
}

proof fn lemma_insert_lower_bound(s: Seq<LabelNode>, x: LabelNode, m: int)
    requires
        forall|k: int| 0 <= k < s.len() ==> label_count(#[trigger] s[k]) >= m,
        label_count(x) >= m,
    ensures
        insert_by_count(s, x).len() == s.len() + 1,
        forall|k: int|
            0 <= k < insert_by_count(s, x).len() ==> label_count(#[trigger] insert_by_count(s, x)[k])
                >= m,
    decreases s.len(),
{
    if s.len() > 0 && label_count(s.last()) < label_count(x) {
        lemma_insert_lower_bound(s.drop_last(), x, m);
    }
}

proof fn lemma_insert_sorted(s: Seq<LabelNode>, x: LabelNode)
    requires
        sorted_by_count_desc(s),
    ensures
        sorted_by_count_desc(insert_by_count(s, x)),
        insert_by_count(s, x).to_multiset() == s.to_multiset().insert(x),
    decreases s.len(),
{
    broadcast use vstd::seq_lib::group_to_multiset_ensures;

    if s.len() == 0 {
        assert(seq![x] =~= Seq::<LabelNode>::empty().push(x));
    } else if label_count(s.last()) >= label_count(x) {
        assert(sorted_by_count_desc(s.push(x))) by {
            assert forall|i: int, j: int| 0 <= i < j < s.push(x).len() implies label_count(
                #[trigger] s.push(x)[i],
            ) >= label_count(#[trigger] s.push(x)[j]) by {
                if j == s.len() {
                    assert(label_count(s[i]) >= label_count(s[s.len() - 1]));
                }
            }
        }
    } else {
        let t = s.drop_last();
        let last = s.last();
        assert(sorted_by_count_desc(t));
        lemma_insert_sorted(t, x);
        assert forall|k: int| 0 <= k < t.len() implies label_count(#[trigger] t[k]) >= label_count(
            last,
        ) by {
            assert(s[k] == t[k]);
        }
        lemma_insert_lower_bound(t, x, label_count(last));
        let r = insert_by_count(t, x);
        assert(sorted_by_count_desc(r.push(last))) by {
            assert forall|i: int, j: int| 0 <= i < j < r.push(last).len() implies label_count(
                #[trigger] r.push(last)[i],
            ) >= label_count(#[trigger] r.push(last)[j]) by {
                if j == r.len() {
                    assert(label_count(r[i]) >= label_count(last));
                }
            }
        }
        assert(s =~= t.push(last));
        assert(r.push(last).to_multiset() =~= r.to_multiset().insert(last));
        assert(s.to_multiset() =~= t.to_multiset().insert(last));
        assert(r.push(last).to_multiset() =~= s.to_multiset().insert(x));
    }
}

/// The labels shown for a repository come in descending order of issue
/// count, and sorting keeps every label: the sorted list holds exactly
/// the labels it was given, each as often.
pub proof fn law_sorted_labels_are_ordered_permutation(labels: Seq<LabelNode>)
    ensures
        sorted_by_count_desc(sort_by_count_desc(labels)),
        sort_by_count_desc(labels).to_multiset() == labels.to_multiset(),
    decreases labels.len(),
{
    broadcast use vstd::seq_lib::group_to_multiset_ensures;

    if labels.len() > 0 {
        let t = labels.drop_last();
        law_sorted_labels_are_ordered_permutation(t);
        lemma_insert_sorted(sort_by_count_desc(t), labels.last());
        assert(labels =~= t.push(labels.last()));
    } else {
        assert(labels.to_multiset() =~= sort_by_count_desc(labels).to_multiset());
    }
}

/// Every label shown has issues, in the same descending order.
pub proof fn law_shown_labels_have_issues(selected: Seq<String>, s: Seq<LabelNode>)
    ensures
        forall|i: int|
            0 <= i < normalized_with_issues(selected, s).len() ==> #[trigger] normalized_with_issues(
                selected,
                s,
            )[i].count > 0,
    decreases s.len(),
{
    if s.len() > 0 {
        law_shown_labels_have_issues(selected, s.drop_last());
        let l = s.last();
        assert(i64::MIN <= label_count(l) <= i64::MAX);
        let r = normalized_with_issues(selected, s);
        assert forall|i: int| 0 <= i < r.len() implies #[trigger] r[i].count > 0 by {
            if i == normalized_with_issues(selected, s.drop_last()).len() {
                assert(r[i] == normalized(selected, l));
            } else {
                assert(r[i] == normalized_with_issues(selected, s.drop_last())[i]);
            }
        }
    }
}

/// A page of a repository's labels as the labels view shows them: the
/// labels with issues, by descending issue count, marked when tracked.
pub fn labels_page(selected: &Vec<String>, labels: Vec<LabelNode>, page: usize) -> (res: Paginated<
    LabelNormalized,
>)
    ensures
        res.items@ == normalize_labels_spec(selected@, labels@),
        res.wf(),
        res.page == clamp_page(page as nat, res.total_pages as nat),
{
    Paginated::new(normalize_labels(selected, labels), page)
}

/// The label limit is kept: when a repository tracks at most
/// `max_labels_per_repo` distinct labels, any toggle that
/// `plan_toggle_label` allows (removing a tracked label, or adding one
/// below the limit) leaves it tracking at most that many.
pub proof fn law_label_limit_is_kept(selected: Seq<String>, label: Seq<char>, max_labels_per_repo: nat)
    requires
        views(selected).no_duplicates(),
        selected.len() <= max_labels_per_repo,
        is_tracked(selected, label) || selected.len() < max_labels_per_repo,
    ensures
        toggled(views(selected).to_set(), label).len() <= max_labels_per_repo,
{
    let v = views(selected);
    v.unique_seq_to_set();
    vstd::seq_lib::seq_to_set_is_finite(v);
    if v.to_set().contains(label) {
        assert(v.to_set().remove(label).len() == v.to_set().len() - 1);
    } else {
        assert(v.to_set().insert(label).len() == v.to_set().len() + 1);
    }
}

proof fn lemma_normalized_elements(selected: Seq<String>, s: Seq<LabelNode>)
    ensures
        forall|i: int|
            #![trigger normalized_with_issues(selected, s)[i]]
            0 <= i < normalized_with_issues(selected, s).len() ==> exists|k: int|
                0 <= k < s.len() && label_count(s[k]) > 0 && normalized_with_issues(selected, s)[i]
                    == normalized(selected, #[trigger] s[k]),
        forall|k: int|
            #![trigger s[k]]
            0 <= k < s.len() && label_count(s[k]) > 0 ==> normalized_with_issues(
                selected,
                s,
            ).contains(normalized(selected, s[k])),
    decreases s.len(),
{
    if s.len() > 0 {
        let t = s.drop_last();
        lemma_normalized_elements(selected, t);
        let r = normalized_with_issues(selected, t);
        let out = normalized_with_issues(selected, s);
        assert forall|i: int|
            #![trigger out[i]]
            0 <= i < out.len() implies exists|k: int|
                0 <= k < s.len() && label_count(s[k]) > 0 && out[i] == normalized(
                    selected,
                    #[trigger] s[k],
                ) by {
            if i < r.len() {
                assert(out[i] == r[i]);
                let k = choose|k: int|
                    0 <= k < t.len() && label_count(t[k]) > 0 && r[i] == normalized(
                        selected,
                        #[trigger] t[k],
                    );
                assert(s[k] == t[k]);
            } else {
                assert(out[i] == normalized(selected, s[s.len() - 1]));
            }
        }
        assert forall|k: int|
            #![trigger s[k]]
            0 <= k < s.len() && label_count(s[k]) > 0 implies out.contains(
                normalized(selected, s[k]),
            ) by {
            if k < t.len() {
                assert(s[k] == t[k]);
                let j = choose|j: int| 0 <= j < r.len() && r[j] == normalized(selected, t[k]);
                assert(out[j] == r[j]);
            } else {
                assert(out[out.len() - 1] == normalized(selected, s[k]));
            }
        }
    }
}

/// The labels view shows exactly the given labels that have issues: each
/// shown label has the name, colour and (positive) issue count of a given
/// label, every given label with issues is shown, and a shown label is
/// marked as selected exactly when its name is among the tracked labels.
pub proof fn law_labels_view_marks_tracked(selected: Seq<String>, labels: Seq<LabelNode>)
    ensures
        forall|i: int|
            #![trigger normalize_labels_spec(selected, labels)[i]]
            0 <= i < normalize_labels_spec(selected, labels).len() ==> {
                let l = normalize_labels_spec(selected, labels)[i];
                &&& l.is_selected == views(selected).contains(l.name@)
                &&& l.count > 0
                &&& exists|j: int|
                    0 <= j < labels.len() && (#[trigger] labels[j]).name == l.name && labels[j].color
                        == l.color && label_count(labels[j]) == l.count
            },
        forall|j: int|
            #![trigger labels[j]]
            0 <= j < labels.len() && label_count(labels[j]) > 0 ==> exists|i: int|
                0 <= i < normalize_labels_spec(selected, labels).len() && (
                #[trigger] normalize_labels_spec(selected, labels)[i]).name == labels[j].name
                    && normalize_labels_spec(selected, labels)[i].is_selected == views(
                    selected,
                ).contains(labels[j].name@),
{
    broadcast use vstd::seq_lib::group_to_multiset_ensures;

    let sorted = sort_by_count_desc(labels);
    law_sorted_labels_are_ordered_permutation(labels);
    lemma_normalized_elements(selected, sorted);
    let out = normalize_labels_spec(selected, labels);
    assert forall|i: int|
        #![trigger out[i]]
        0 <= i < out.len() implies ({
            let l = out[i];
            &&& l.is_selected == views(selected).contains(l.name@)
            &&& l.count > 0
            &&& exists|j: int|
                0 <= j < labels.len() && (#[trigger] labels[j]).name == l.name && labels[j].color
                    == l.color && label_count(labels[j]) == l.count
        }) by {
        let k = choose|k: int|
            0 <= k < sorted.len() && label_count(sorted[k]) > 0 && out[i] == normalized(
                selected,
                #[trigger] sorted[k],
            );
        let x = sorted[k];
        assert(i64::MIN <= label_count(x) <= i64::MAX);
        assert(sorted.contains(x));
        assert(sorted.to_multiset().count(x) > 0);
        assert(labels.contains(x));
        let j = choose|j: int| 0 <= j < labels.len() && labels[j] == x;
        assert(labels[j].name == out[i].name);
    }
    assert forall|j: int|
        #![trigger labels[j]]
        0 <= j < labels.len() && label_count(labels[j]) > 0 implies exists|i: int|
            0 <= i < out.len() && (#[trigger] out[i]).name == labels[j].name && out[i].is_selected
                == views(selected).contains(labels[j].name@) by {
        let x = labels[j];
        assert(labels.contains(x));
        assert(labels.to_multiset().count(x) > 0);
        assert(sorted.to_multiset().count(x) > 0);
        assert(sorted.contains(x));
        let k = choose|k: int| 0 <= k < sorted.len() && sorted[k] == x;
        assert(out.contains(normalized(selected, sorted[k])));
        let i = choose|i: int| 0 <= i < out.len() && out[i] == normalized(selected, sorted[k]);
        assert(out[i].name == x.name);
    }
}

} // verus!
