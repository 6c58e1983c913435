//! An in-memory store of the repositories each chat tracks.
use vstd::prelude::*;
use std::collections::HashMap;

use super::repository::{Repository, RepositoryView};
use crate::text::str_eq;

verus! {

broadcast use {vstd::std_specs::hash::group_hash_axioms, vstd::seq_lib::lemma_seq_contains_after_push};

/// The views of a list of repositories.
pub open spec fn repo_views(v: Seq<Repository>) -> Seq<RepositoryView> {
    v.map_values(|r: Repository| r@)
}

/// The set of repositories in a list.
pub open spec fn repo_set(v: Vec<Repository>) -> Set<RepositoryView> {
    repo_views(v@).to_set()
}

/// No repository occurs twice in the list.
pub open spec fn distinct_repos(v: Seq<Repository>) -> bool {
    forall|i: int, j: int| 0 <= i < j < v.len() ==> v[i]@ != v[j]@
}

/// The repositories of a chat in the model: none when the chat is unknown.
pub open spec fn chat_repos(m: Map<i64, Set<RepositoryView>>, chat_id: i64) -> Set<RepositoryView> {
    if m.contains_key(chat_id) {
        m[chat_id]
    } else {
        Set::empty()
    }
}

/// The model after adding `r` to the chat's repositories.
pub open spec fn added(
    m: Map<i64, Set<RepositoryView>>,
    chat_id: i64,
    r: RepositoryView,
) -> Map<i64, Set<RepositoryView>> {
    m.insert(chat_id, chat_repos(m, chat_id).insert(r))
}

/// The model after removing the chat's repositories named `name`; an
/// unknown chat leaves the model as it is.
pub open spec fn removed(
    m: Map<i64, Set<RepositoryView>>,
    chat_id: i64,
    name: Seq<char>,
) -> Map<i64, Set<RepositoryView>> {
    if m.contains_key(chat_id) {
        m.insert(chat_id, m[chat_id].filter(|r: RepositoryView| r.name_with_owner != name))
    } else {
        m
    }
}

/// Some repository of the chat is named `name`.
pub open spec fn has_named(m: Map<i64, Set<RepositoryView>>, chat_id: i64, name: Seq<char>) -> bool {
    exists|r: RepositoryView| #[trigger] chat_repos(m, chat_id).contains(r) && r.name_with_owner == name
}

/// Represents a storage system for tracking repositories per chat.
pub struct InMemoryStorage {
    data: HashMap<i64, Vec<Repository>>,
}

impl InMemoryStorage {
    /// Each chat's list holds each repository once.
    #[verifier::type_invariant]
    spec fn lists_distinct(self) -> bool {
        forall|c: i64| #[trigger] self.data@.contains_key(c) ==> distinct_repos(self.data@[c]@)
    }
}

impl View for InMemoryStorage {
    type V = Map<i64, Set<RepositoryView>>;

    closed spec fn view(&self) -> Map<i64, Set<RepositoryView>> {
        self.data@.map_values(|v: Vec<Repository>| repo_set(v))
    }
}

fn same_repository(a: &Repository, b: &Repository) -> (res: bool)
    ensures
        res == (a@ == b@),
{
    str_eq(a.owner.as_str(), b.owner.as_str()) && str_eq(a.name.as_str(), b.name.as_str())
        && str_eq(a.name_with_owner.as_str(), b.name_with_owner.as_str())
}

fn list_contains(v: &Vec<Repository>, r: &Repository) -> (res: bool)
    ensures
        res == repo_set(*v).contains(r@),
{
    let mut i: usize = 0;
    while i < v.len()
        invariant
            i <= v.len(),
            forall|j: int| 0 <= j < i ==> v@[j]@ != r@,
        decreases v.len() - i,
    {
        if same_repository(&v[i], r) {
            assert(repo_views(v@)[i as int] == r@);
            return true;
        }
        i = i + 1;
    }
    proof {
        if repo_set(*v).contains(r@) {
            let k = choose|k: int| 0 <= k < repo_views(v@).len() && repo_views(v@)[k] == r@;
            assert(v@[k]@ == r@);
        }
    }
    false
}

fn copy_repository(r: &Repository) -> (res: Repository)
    ensures
        res@ == r@,
{
    Repository {
        owner: r.owner.clone(),
        name: r.name.clone(),
        name_with_owner: r.name_with_owner.clone(),
    }
}

impl InMemoryStorage {
    /// An empty store.
    pub fn new() -> (res: Self)
        ensures
            res@ == Map::<i64, Set<RepositoryView>>::empty(),
    {
        let res = InMemoryStorage { data: HashMap::new() };
        assert(res@ =~= Map::<i64, Set<RepositoryView>>::empty());
        res
    }

    /// Add a repository to the chat's repositories; a repository that is
    /// already there stays once.
    pub fn add_repository(&mut self, chat_id: i64, repository: Repository)
        ensures
            final(self)@ == added(old(self)@, chat_id, repository@),
    {
        proof {
            use_type_invariant(&*self);
        }
        let ghost before = self.data@;
        assert(before.contains_key(chat_id) ==> distinct_repos(before[chat_id]@));
        let mut data = HashMap::new();
        std::mem::swap(&mut data, &mut self.data);
        let list = match data.remove(&chat_id) {
            Some(mut v) => {
                if !list_contains(&v, &repository) {
                    let ghost prev = v@;
                    assert(distinct_repos(prev));
                    v.push(repository);
                    proof {
                        assert(repo_views(v@) =~= repo_views(prev).push(repository@));
                        repo_views(prev).lemma_push_to_set_commute(repository@);
                        assert forall|a: int, b: int| 0 <= a < b < v@.len() implies v@[a]@ != v@[b]@ by {
                            if b == prev.len() {
                                assert(repo_views(prev)[a] == prev[a]@);
                            }
                        }
                    }
                } else {
                    assert(repo_set(v).insert(repository@) =~= repo_set(v));
                }
                v
            },
            None => {
                let mut v = Vec::new();
                v.push(repository);
                proof {
                    assert(repo_views(v@) =~= seq![repository@]);
                    assert(repo_set(v) =~= Set::<RepositoryView>::empty().insert(repository@)) by {
                        assert(repo_views(v@)[0] == repository@);
                    }
                }
                v
            },
        };
        data.insert(chat_id, list);
        self.data = data;
        assert(self@ =~= added(old(self)@, chat_id, repository@));
    }

    /// Remove the chat's repositories named `repo_name`; says whether one
    /// was there.
    pub fn remove_repository(&mut self, chat_id: i64, repo_name: &str) -> (res: bool)
        ensures
            final(self)@ == removed(old(self)@, chat_id, repo_name@),
            res == has_named(old(self)@, chat_id, repo_name@),
    {
        proof {
            use_type_invariant(&*self);
        }
        let mut data = HashMap::new();
        std::mem::swap(&mut data, &mut self.data);
        match data.remove(&chat_id) {
            Some(v) => {
                let ghost old_set = repo_set(v);
                let mut kept: Vec<Repository> = Vec::new();
                let mut found = false;
                let mut i: usize = 0;
                while i < v.len()
                    invariant
                        i <= v.len(),
                        old_set == repo_set(v),
                        distinct_repos(v@),
                        forall|a: int, b: int|
                            0 <= a < b < kept@.len() ==> kept@[a]@ != kept@[b]@,
                        forall|x: RepositoryView|
                            repo_views(kept@).contains(x) <==> (repo_views(v@.take(i as int)).contains(x)
                                && x.name_with_owner != repo_name@),
                        found <==> exists|j: int|
                            0 <= j < i && (#[trigger] v@[j]).name_with_owner@ == repo_name@,
                    decreases v.len() - i,
                {
                    let ghost prev = kept@;
                    assert(repo_views(v@.take(i + 1)) =~= repo_views(v@.take(i as int)).push(v@[i as int]@));
                    if str_eq(v[i].name_with_owner.as_str(), repo_name) {
                        found = true;
                    } else {
                        kept.push(copy_repository(&v[i]));
                        assert(repo_views(kept@) =~= repo_views(prev).push(v@[i as int]@));
                        assert forall|a: int, b: int| 0 <= a < b < kept@.len() implies kept@[a]@
                            != kept@[b]@ by {
                            if b == prev.len() {
                                assert(repo_views(prev).contains(kept@[a]@)) by {
                                    assert(repo_views(prev)[a] == kept@[a]@);
                                }
                                let k = choose|k: int| 0 <= k < i && repo_views(v@.take(i as int))[k] == kept@[a]@;
                                assert(v@[k]@ == kept@[a]@);
                            }
                        }
                    }
                    i = i + 1;
                }
                assert(v@.take(v.len() as int) =~= v@);
                assert(repo_set(kept) =~= old_set.filter(
                    |r: RepositoryView| r.name_with_owner != repo_name@,
                ));
                proof {
                    if found {
                        let j = choose|j: int| 0 <= j < v.len() && (#[trigger] v@[j]).name_with_owner@ == repo_name@;
                        assert(repo_views(v@)[j] == v@[j]@);
                        assert(chat_repos(old(self)@, chat_id).contains(v@[j]@));
                    }
                    if has_named(old(self)@, chat_id, repo_name@) {
                        let r = choose|r: RepositoryView| #[trigger] chat_repos(old(self)@, chat_id).contains(r)
                            && r.name_with_owner == repo_name@;
                        let k = choose|k: int| 0 <= k < repo_views(v@).len() && repo_views(v@)[k] == r;
                        assert(v@[k].name_with_owner@ == repo_name@);
                    }
                }
                data.insert(chat_id, kept);
                self.data = data;
                assert(self@ =~= removed(old(self)@, chat_id, repo_name@));
                found
            },
            None => {
                self.data = data;
                assert(self@ =~= old(self)@);
                false
            },
        }
    }

    /// The chat's repositories, each once; none for an unknown chat.
    pub fn get_repos_per_user(&self, chat_id: i64) -> (res: Vec<Repository>)
        ensures
            repo_set(res) == chat_repos(self@, chat_id),
            distinct_repos(res@),
    {
        proof {
            use_type_invariant(self);
        }
        match self.data.get(&chat_id) {
            Some(v) => {
                let mut out: Vec<Repository> = Vec::new();
                let mut i: usize = 0;
                while i < v.len()
                    invariant
                        i <= v.len(),
                        distinct_repos(v@),
                        repo_views(out@) == repo_views(v@).take(i as int),
                    decreases v.len() - i,
                {
                    let ghost prev = out@;
                    out.push(copy_repository(&v[i]));
                    assert(repo_views(out@) =~= repo_views(prev).push(v@[i as int]@));
                    assert(repo_views(v@).take(i + 1) =~= repo_views(v@).take(i as int).push(
                        v@[i as int]@,
                    ));
                    i = i + 1;
                }
                assert(repo_views(v@).take(v.len() as int) =~= repo_views(v@));
                assert forall|a: int, b: int| 0 <= a < b < out@.len() implies out@[a]@ != out@[b]@ by {
                    assert(repo_views(out@)[a] == out@[a]@);
                    assert(repo_views(out@)[b] == out@[b]@);
                }
                out
            },
            None => {
                let out: Vec<Repository> = Vec::new();
                assert(repo_set(out) =~= Set::<RepositoryView>::empty());
                out
            },
        }
    }

    /// Whether the chat tracks the repository.
    pub fn contains(&self, chat_id: i64, repository: &Repository) -> (res: bool)
        ensures
            res == chat_repos(self@, chat_id).contains(repository@),
    {
        match self.data.get(&chat_id) {
            Some(v) => list_contains(v, repository),
            None => false,
        }
    }

    /// All chats with their repositories.
    pub fn get_all_repos(&self) -> (res: HashMap<i64, Vec<Repository>>)
        ensures
            res@.map_values(|v: Vec<Repository>| repo_set(v)) == self@,
    {
        self.data.clone()
    }
}

/// An added repository is there afterwards, and the other chats keep
/// their repositories.
pub proof fn law_added_repository_is_contained(
    m: Map<i64, Set<RepositoryView>>,
    chat_id: i64,
    r: RepositoryView,
    other: i64,
)
    ensures
        chat_repos(added(m, chat_id, r), chat_id).contains(r),
        other != chat_id ==> chat_repos(added(m, chat_id, r), other) == chat_repos(m, other),
{
}

/// Adding a repository twice is the same as adding it once.
pub proof fn law_add_is_idempotent(m: Map<i64, Set<RepositoryView>>, chat_id: i64, r: RepositoryView)
    ensures
        added(added(m, chat_id, r), chat_id, r) == added(m, chat_id, r),
{
    assert(chat_repos(m, chat_id).insert(r).insert(r) =~= chat_repos(m, chat_id).insert(r));
    assert(added(added(m, chat_id, r), chat_id, r) =~= added(m, chat_id, r));
}

/// After a removal the chat tracks no repository of that name, and it
/// keeps every other one.
pub proof fn law_removed_name_is_gone(
    m: Map<i64, Set<RepositoryView>>,
    chat_id: i64,
    name: Seq<char>,
    r: RepositoryView,
)
    ensures
        !has_named(removed(m, chat_id, name), chat_id, name),
        r.name_with_owner != name ==> (chat_repos(removed(m, chat_id, name), chat_id).contains(r)
            <==> chat_repos(m, chat_id).contains(r)),
{
}

/// Removing a repository by name undoes adding it, when the chat had no
/// repository of that name before.
pub proof fn law_remove_undoes_add(m: Map<i64, Set<RepositoryView>>, chat_id: i64, r: RepositoryView)
    requires
        !has_named(m, chat_id, r.name_with_owner),
    ensures
        chat_repos(removed(added(m, chat_id, r), chat_id, r.name_with_owner), chat_id) == chat_repos(
            m,
            chat_id,
        ),
{
    let s = chat_repos(m, chat_id);
    assert forall|x: RepositoryView| s.contains(x) implies x.name_with_owner != r.name_with_owner by {
        if x.name_with_owner == r.name_with_owner {
            assert(chat_repos(m, chat_id).contains(x));
        }
    }
    assert(s.insert(r).filter(|x: RepositoryView| x.name_with_owner != r.name_with_owner) =~= s);
}

} // verus!
