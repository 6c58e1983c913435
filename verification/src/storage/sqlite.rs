//! The computations of the SQLite store: reading stored names back,
//! encoding and toggling the tracked labels, and counts.
use vstd::prelude::*;

use super::repo_entity::{parse_name_with_owner, RepoEntityErrorView, RepoEntityView};
use super::{RepoEntity, StorageError};
use crate::messaging::utils::{json_quote, json_string};
use crate::repository::contains_label;
use crate::text::{join, join_strings, str_eq, views};

verus! {

broadcast use vstd::seq_lib::lemma_seq_contains_after_push;

/// The labels a newly added repository tracks, as stored JSON.
pub const INITIAL_DEFAULT_LABELS_JSON: &'static str = "[\"good first issue\",\"beginner-friendly\",\"help wanted\"]";

/// What the stored names read back as: every repository when all parse,
/// else the data-integrity error of the first name that does not.
pub open spec fn rows_result(names: Seq<String>, res: Result<Vec<RepoEntity>, StorageError>) -> bool {
    if forall|i: int| 0 <= i < names.len() ==> #[trigger] parse_name_with_owner(names[i]@) is Ok {
        (res matches Ok(v) && v@.len() == names.len() && forall|i: int|
            0 <= i < names.len() ==> Ok::<RepoEntityView, RepoEntityErrorView>(#[trigger] v@[i]@)
                == parse_name_with_owner(names[i]@))
    } else {
        exists|k: int|
            0 <= k < names.len() && (forall|i: int| 0 <= i < k ==> #[trigger] parse_name_with_owner(names[i]@) is Ok)
                && (#[trigger] parse_name_with_owner(names[k]@) matches Err(e) && (res matches Err(
                StorageError::DataIntegrityError(n, err),
            ) && n@ == names[k]@ && err@ == e))
    }
}

/// Reads stored `owner/name` texts back into repositories.
pub fn repos_from_rows(names: &Vec<String>) -> (res: Result<Vec<RepoEntity>, StorageError>)
    ensures
        rows_result(names@, res),
{
    let mut out: Vec<RepoEntity> = Vec::new();
    let mut i: usize = 0;
    while i < names.len()
        invariant
            i <= names.len(),
            out@.len() == i,
            forall|j: int| 0 <= j < i ==> #[trigger] parse_name_with_owner(names@[j]@) is Ok,
            forall|j: int|
                0 <= j < i ==> Ok::<RepoEntityView, RepoEntityErrorView>(#[trigger] out@[j]@) == parse_name_with_owner(
                    names@[j]@,
                ),
        decreases names.len() - i,
    {
        match RepoEntity::from_str(names[i].as_str()) {
            Ok(r) => {
                out.push(r);
            },
            Err(e) => {
                proof {
                    assert(!(forall|j: int|
                        0 <= j < names@.len() ==> #[trigger] parse_name_with_owner(names@[j]@) is Ok));
                }
                return Err(StorageError::DataIntegrityError(names[i].clone(), e));
            },
        }
        i = i + 1;
    }
    Ok(out)
}

/// The tracked labels after a toggle: a tracked label leaves, another one
/// joins.
pub open spec fn toggled(s: Set<Seq<char>>, label: Seq<char>) -> Set<Seq<char>> {
    if s.contains(label) {
        s.remove(label)
    } else {
        s.insert(label)
    }
}

/// Toggles `label` in the tracked labels; the flag says whether it is
/// tracked afterwards.
pub fn toggle_label_in(labels: Vec<String>, label: &str) -> (res: (Vec<String>, bool))
    ensures
        views(res.0@).to_set() == toggled(views(labels@).to_set(), label@),
        res.1 == !views(labels@).contains(label@),
{
    if contains_label(&labels, label) {
        let mut kept: Vec<String> = Vec::new();
        let mut i: usize = 0;
        while i < labels.len()
            invariant
                i <= labels.len(),
                forall|x: Seq<char>|
                    views(kept@).contains(x) <==> (views(labels@).take(i as int).contains(x) && x
                        != label@),
            decreases labels.len() - i,
        {
            let ghost prev = kept@;
            assert(views(labels@).take(i + 1) =~= views(labels@).take(i as int).push(labels@[i as int]@));
            if !str_eq(labels[i].as_str(), label) {
                kept.push(labels[i].clone());
                assert(views(kept@) =~= views(prev).push(labels@[i as int]@));
            }
            i = i + 1;
        }
        assert(views(labels@).take(labels.len() as int) =~= views(labels@));
        assert(views(kept@).to_set() =~= views(labels@).to_set().remove(label@));
        (kept, false)
    } else {
        let mut grown = labels;
        let ghost prev = grown@;
        grown.push(String::from_str(label));
        proof {
            assert(views(grown@) =~= views(prev).push(label@));
            views(prev).lemma_push_to_set_commute(label@);
        }
        (grown, true)
    }
}

/// The stored JSON text of a list of labels: a JSON array of strings.
pub open spec fn labels_json(labels: Seq<Seq<char>>) -> Seq<char> {
    "["@ + join(labels.map_values(|l: Seq<char>| json_string(l)), ","@) + "]"@
}

/// Encodes the tracked labels as a JSON array, as serde_json writes a
/// list of strings.
pub fn encode_labels(labels: &Vec<String>) -> (res: String)
    ensures
        res@ == labels_json(views(labels@)),
{
    let ghost quoted_spec = views(labels@).map_values(|l: Seq<char>| json_string(l));
    let mut quoted: Vec<String> = Vec::new();
    let mut i: usize = 0;
    while i < labels.len()
        invariant
            i <= labels.len(),
            quoted_spec == views(labels@).map_values(|l: Seq<char>| json_string(l)),
            views(quoted@) == quoted_spec.take(i as int),
        decreases labels.len() - i,
    {
        let ghost prev = quoted@;
        quoted.push(json_quote(labels[i].as_str()));
        assert(views(quoted@) =~= views(prev).push(json_string(labels@[i as int]@)));
        assert(quoted_spec.take(i + 1) =~= quoted_spec.take(i as int).push(quoted_spec[i as int]));
        i = i + 1;
    }
    assert(quoted_spec.take(labels.len() as int) =~= quoted_spec);
    String::from_str("[").concat(join_strings(&quoted, ",").as_str()).concat("]")
}

/// A stored count as a `usize`: counts that do not fit read as zero.
pub fn count_to_usize(count: i64) -> (res: usize)
    ensures
        0 <= count <= usize::MAX ==> res == count,
        !(0 <= count <= usize::MAX) ==> res == 0,
{
    if count < 0 {
        0
    } else if (count as u64) > (usize::MAX as u64) {
        0
    } else {
        count as usize
    }
}

/// Toggling the same label twice gives back the labels one started with,
/// and a toggle reports the label as tracked exactly when it was not.
pub proof fn law_toggle_twice_restores(s: Set<Seq<char>>, label: Seq<char>)
    ensures
        toggled(toggled(s, label), label) == s,
        toggled(s, label).contains(label) == !s.contains(label),
{
    assert(toggled(toggled(s, label), label) =~= s);
}

/// What serde_json reads from a text as a JSON array of strings: the
/// strings, or the parser's message.
pub uninterp spec fn json_string_list(s: Seq<char>) -> Result<Seq<Seq<char>>, Seq<char>>;

/// serde_json's `from_str` into a list of strings, its error shown as
/// text.
#[verifier::external_body]
fn parse_json_string_list(s: &str) -> (res: Result<Vec<String>, String>)
    ensures
        (match res {
            Ok(v) => json_string_list(s@) == Ok::<Seq<Seq<char>>, Seq<char>>(views(v@)),
            Err(e) => json_string_list(s@) == Err::<Seq<Seq<char>>, Seq<char>>(e@),
        }),
{
    match serde_json::from_str::<Vec<String>>(s) {
        Ok(v) => Ok(v),
        Err(e) => Err(e.to_string()),
    }
}

/// No text occurs twice.
pub open spec fn distinct_texts(s: Seq<Seq<char>>) -> bool {
    forall|i: int, j: int| 0 <= i < j < s.len() ==> s[i] != s[j]
}

/// The texts of `v`, each once, in the order of their first occurrence.
pub fn dedup_strings(v: Vec<String>) -> (res: Vec<String>)
    ensures
        views(res@).to_set() == views(v@).to_set(),
        distinct_texts(views(res@)),
{
    let mut out: Vec<String> = Vec::new();
    let mut i: usize = 0;
    while i < v.len()
        invariant
            i <= v.len(),
            distinct_texts(views(out@)),
            forall|x: Seq<char>| views(out@).contains(x) <==> views(v@).take(i as int).contains(x),
        decreases v.len() - i,
    {
        assert(views(v@).take(i + 1) =~= views(v@).take(i as int).push(v@[i as int]@));
        if !contains_label(&out, v[i].as_str()) {
            let ghost prev = out@;
            out.push(v[i].clone());
            assert(views(out@) =~= views(prev).push(v@[i as int]@));
            assert forall|a: int, b: int| 0 <= a < b < views(out@).len() implies views(out@)[a]
                != views(out@)[b] by {
                if b == prev.len() {
                    assert(views(prev).contains(views(out@)[a])) by {
                        assert(views(prev)[a] == views(out@)[a]);
                    }
                }
            }
        }
        i = i + 1;
    }
    assert(views(v@).take(v.len() as int) =~= views(v@));
    assert(views(out@).to_set() =~= views(v@).to_set());
    out
}

/// The error text for tracked labels that are not a JSON list of strings.
pub open spec fn bad_labels_text(name_with_owner: Seq<char>, message: Seq<char>) -> Seq<char> {
    "Failed to decode tracked labels of "@ + name_with_owner + ": "@ + message
}

/// Reads the stored tracked labels of a repository (an empty list when
/// none are stored), each label once.
pub fn decode_tracked_labels(name_with_owner: &str, raw: Option<String>) -> (res: Result<
    Vec<String>,
    StorageError,
>)
    ensures
        ({
            let text = match raw {
                Some(t) => t@,
                None => "[]"@,
            };
            match json_string_list(text) {
                Ok(ls) => (res matches Ok(v) && views(v@).to_set() == ls.to_set() && distinct_texts(
                    views(v@),
                )),
                Err(m) => (res matches Err(StorageError::DbError(t)) && t@ == bad_labels_text(
                    name_with_owner@,
                    m,
                )),
            }
        }),
{
    let text = match raw {
        Some(t) => t,
        None => String::from_str("[]"),
    };
    match parse_json_string_list(text.as_str()) {
        Ok(v) => Ok(dedup_strings(v)),
        Err(e) => Err(
            StorageError::DbError(
                String::from_str("Failed to decode tracked labels of ").concat(name_with_owner).concat(
                    ": ",
                ).concat(e.as_str()),
            ),
        ),
    }
}

} // verus!
