//! A GitHub repository identified by owner and name.
use vstd::prelude::*;

use crate::text::{
    contains_char, first_index, has_char, is_first_index, lemma_first_index_exists,
    lemma_first_index_unique, split_once,
    split_once_char, str_eq,
};
use crate::urls::{
    github_path_url, is_plain_segment, lemma_plain_github_parts, parse_result_view, parse_url, parsed_url, UrlParts,
    UrlPartsView,
};

verus! {

/// Represents errors that can occur when parsing a `RepoEntity`.
#[derive(Debug, Clone, PartialEq, Eq)]
pub enum RepoEntityError {
    /// An error indicating that the URL is invalid.
    Url(String),
    /// An error indicating that the repository format is invalid.
    Format(String),
    /// An error indicating that the owner or repository name is empty.
    NameWithOwner,
}

/// Abstract value of a `RepoEntityError`.
pub enum RepoEntityErrorView {
    Url(Seq<char>),
    Format(Seq<char>),
    NameWithOwner,
}

impl View for RepoEntityError {
    type V = RepoEntityErrorView;

    open spec fn view(&self) -> RepoEntityErrorView {
        match self {
            RepoEntityError::Url(s) => RepoEntityErrorView::Url(s@),
            RepoEntityError::Format(s) => RepoEntityErrorView::Format(s@),
            RepoEntityError::NameWithOwner => RepoEntityErrorView::NameWithOwner,
        }
    }
}

/// The text of a parse error.
pub open spec fn repo_error_text(e: RepoEntityErrorView) -> Seq<char> {
    match e {
        RepoEntityErrorView::Url(u) => "Invalid URL: "@ + u,
        RepoEntityErrorView::Format(f) => "Invalid repository format: "@ + f,
        RepoEntityErrorView::NameWithOwner => "Owner or repository name cannot be empty"@,
    }
}

impl RepoEntityError {
    /// The error's text.
    pub fn message(&self) -> (res: String)
        ensures
            res@ == repo_error_text(self@),
    {
        match self {
            RepoEntityError::Url(u) => {
                let mut s = String::from_str("Invalid URL: ");
                s.append(u.as_str());
                s
            },
            RepoEntityError::Format(f) => {
                let mut s = String::from_str("Invalid repository format: ");
                s.append(f.as_str());
                s
            },
            RepoEntityError::NameWithOwner => String::from_str("Owner or repository name cannot be empty"),
        }
    }
}

/// Represents a GitHub repository.
#[derive(Debug, Clone, PartialEq, Eq, Hash)]
pub struct RepoEntity {
    /// The owner of the repository.
    pub owner: String,
    /// The name of the repository.
    pub name: String,
    /// The name of the repository with the owner (e.g., "owner/repo").
    pub name_with_owner: String,
}

/// Abstract value of a `RepoEntity`.
pub struct RepoEntityView {
    pub owner: Seq<char>,
    pub name: Seq<char>,
    pub name_with_owner: Seq<char>,
}

impl View for RepoEntity {
    type V = RepoEntityView;

    open spec fn view(&self) -> RepoEntityView {
        RepoEntityView {
            owner: self.owner@,
            name: self.name@,
            name_with_owner: self.name_with_owner@,
        }
    }
}

/// `owner/name`.
pub open spec fn join_owner_name(owner: Seq<char>, name: Seq<char>) -> Seq<char> {
    owner + seq!['/'] + name
}

/// The GitHub web URL of `owner/name`.
pub open spec fn github_repo_url(owner: Seq<char>, name: Seq<char>) -> Seq<char> {
    "https://github.com"@ + seq!['/'] + owner + seq!['/'] + name
}

/// What `RepoEntity::from_str` gives for the text `s`.
pub open spec fn parse_name_with_owner(s: Seq<char>) -> Result<RepoEntityView, RepoEntityErrorView> {
    match split_once(s, '/') {
        None => Err(RepoEntityErrorView::Format(s)),
        Some((owner, name)) => if owner.len() == 0 || name.len() == 0 {
            Err(RepoEntityErrorView::NameWithOwner)
        } else if has_char(name, '/') {
            Err(RepoEntityErrorView::Format("Name contains '/'"@))
        } else {
            Ok(
                RepoEntityView {
                    owner,
                    name,
                    name_with_owner: join_owner_name(owner, name),
                },
            )
        },
    }
}

/// A repository whose parts fit together: non-empty owner and name, a name
/// without `/`, an owner without `/`, and `name_with_owner == owner/name`.
pub open spec fn well_formed_repo(r: RepoEntityView) -> bool {
    &&& r.owner.len() > 0
    &&& r.name.len() > 0
    &&& !has_char(r.owner, '/')
    &&& !has_char(r.name, '/')
    &&& r.name_with_owner == join_owner_name(r.owner, r.name)
}

/// What `RepoEntity::from_url` gives for the text `url` that the URL parser
/// read as `parsed`.
pub open spec fn repo_from_url(url: Seq<char>, parsed: Result<UrlPartsView, Seq<char>>) -> Result<
    RepoEntityView,
    RepoEntityErrorView,
> {
    match parsed {
        Err(_) => Err(RepoEntityErrorView::Url(url)),
        Ok((domain, segments)) => if domain != Some("github.com"@) {
            Err(RepoEntityErrorView::Url(url))
        } else {
            let segs = match segments {
                Some(v) => v,
                None => Seq::empty(),
            };
            if segs.len() < 2 {
                Err(RepoEntityErrorView::Url(url))
            } else if segs[0].len() == 0 || segs[1].len() == 0 {
                Err(RepoEntityErrorView::NameWithOwner)
            } else {
                Ok(
                    RepoEntityView {
                        owner: segs[0],
                        name: segs[1],
                        name_with_owner: join_owner_name(segs[0], segs[1]),
                    },
                )
            }
        },
    }
}

/// The abstract value of a parse result.
pub open spec fn result_view(r: Result<RepoEntity, RepoEntityError>) -> Result<RepoEntityView, RepoEntityErrorView> {
    match r {
        Ok(v) => Ok(v@),
        Err(e) => Err(e@),
    }
}

impl RepoEntity {
    /// Returns the URL of the repository on GitHub.
    pub fn url(&self) -> (res: String)
        ensures
            res@ == github_repo_url(self.owner@, self.name@),
    {
        let mut s = String::from_str("https://github.com");
        s.append("/");
        s.append(self.owner.as_str());
        s.append("/");
        s.append(self.name.as_str());
        proof {
            reveal_strlit("/");
            assert("/"@ =~= seq!['/']);
        }
        s
    }

    /// The text shown for the repository: `owner/name (url)`.
    pub fn to_display_string(&self) -> (res: String)
        ensures
            res@ == self.name_with_owner@ + " ("@ + github_repo_url(self.owner@, self.name@) + ")"@,
    {
        let mut s = self.name_with_owner.clone();
        s.append(" (");
        let url = self.url();
        s.append(url.as_str());
        s.append(")");
        s
    }

    /// Parses `owner/name` text into a repository.
    pub fn from_str(s: &str) -> (res: Result<RepoEntity, RepoEntityError>)
        ensures
            match res {
                Ok(r) => parse_name_with_owner(s@) == Ok::<RepoEntityView, RepoEntityErrorView>(
                    r@,
                ),
                Err(e) => parse_name_with_owner(s@) == Err::<RepoEntityView, RepoEntityErrorView>(
                    e@,
                ),
            },
    {
        match split_once_char(s, '/') {
            None => Err(RepoEntityError::Format(String::from_str(s))),
            Some((owner, name)) => {
                if owner.unicode_len() == 0 || name.unicode_len() == 0 {
                    return Err(RepoEntityError::NameWithOwner);
                }
                if contains_char(name, '/') {
                    return Err(RepoEntityError::Format(String::from_str("Name contains '/'")));
                }
                let mut name_with_owner = String::from_str(owner);
                name_with_owner.append("/");
                name_with_owner.append(name);
                proof {
                    reveal_strlit("/");
                    assert("/"@ =~= seq!['/']);
                    assert(name_with_owner@ =~= join_owner_name(owner@, name@));
                }
                Ok(
                    RepoEntity {
                        owner: String::from_str(owner),
                        name: String::from_str(name),
                        name_with_owner,
                    },
                )
            },
        }
    }
}

impl RepoEntity {
    /// Builds a repository from a URL's parts: the domain must be
    /// `github.com` and the first two path segments name the owner and the
    /// repository; anything after them (more segments, a query) is ignored.
    pub fn from_url_parts(url_str: &str, parsed: Result<UrlParts, String>) -> (res: Result<
        RepoEntity,
        RepoEntityError,
    >)
        ensures
            result_view(res) == repo_from_url(url_str@, parse_result_view(parsed)),
    {
        let (domain, segments) = match parsed {
            Err(_) => {
                return Err(RepoEntityError::Url(String::from_str(url_str)));
            },
            Ok(p) => p,
        };
        let is_github = match &domain {
            Some(d) => str_eq(d.as_str(), "github.com"),
            None => false,
        };
        if !is_github {
            return Err(RepoEntityError::Url(String::from_str(url_str)));
        }
        let segs: Vec<String> = match segments {
            Some(v) => v,
            None => Vec::new(),
        };
        if segs.len() < 2 {
            return Err(RepoEntityError::Url(String::from_str(url_str)));
        }
        let owner = segs[0].clone();
        let name = segs[1].clone();
        if owner.as_str().unicode_len() == 0 || name.as_str().unicode_len() == 0 {
            return Err(RepoEntityError::NameWithOwner);
        }
        let mut name_with_owner = owner.clone();
        name_with_owner.append("/");
        name_with_owner.append(name.as_str());
        proof {
            reveal_strlit("/");
            assert("/"@ =~= seq!['/']);
        }
        Ok(RepoEntity { owner, name, name_with_owner })
    }

    /// Parses a GitHub URL into a repository.
    pub fn from_url(url_str: &str) -> (res: Result<RepoEntity, RepoEntityError>)
        ensures
            result_view(res) == repo_from_url(url_str@, parsed_url(url_str@)),
            forall|owner: Seq<char>, name: Seq<char>|
                #![trigger is_plain_segment(owner), is_plain_segment(name)]
                is_plain_segment(owner) && is_plain_segment(name) && url_str@ == github_repo_url(
                    owner,
                    name,
                ) ==> result_view(res) == Ok::<RepoEntityView, RepoEntityErrorView>(
                    RepoEntityView { owner, name, name_with_owner: join_owner_name(owner, name) },
                ),
    {
        let parsed = parse_url(url_str);
        proof {
            assert forall|owner: Seq<char>, name: Seq<char>|
                #![trigger is_plain_segment(owner), is_plain_segment(name)]
                is_plain_segment(owner) && is_plain_segment(name) && url_str@ == github_repo_url(
                    owner,
                    name,
                ) implies repo_from_url(url_str@, parsed_url(url_str@)) == Ok::<
                RepoEntityView,
                RepoEntityErrorView,
            >(RepoEntityView { owner, name, name_with_owner: join_owner_name(owner, name) }) by {
                assert(github_repo_url(owner, name) == github_path_url(owner, name));
                lemma_plain_github_parts(owner, name);
            }
        }
        RepoEntity::from_url_parts(url_str, parsed)
    }
}

impl std::str::FromStr for RepoEntity {
    type Err = RepoEntityError;

    fn from_str(s: &str) -> (res: Result<RepoEntity, RepoEntityError>)
        ensures
            result_view(res) == parse_name_with_owner(s@),
    {
        RepoEntity::from_str(s)
    }
}

/// A repository read from `owner/name` text is well formed, and its
/// `name_with_owner` is that text.
pub proof fn law_parsed_repo_is_well_formed(s: Seq<char>)
    ensures
        parse_name_with_owner(s) matches Ok(r) ==> well_formed_repo(r) && r.name_with_owner == s,
{
    if let Ok(r) = parse_name_with_owner(s) {
        let i = first_index(s, '/');
        lemma_first_index_exists(s, '/');
        assert(!has_char(r.owner, '/')) by {
            if has_char(r.owner, '/') {
                let k = choose|k: int| 0 <= k < r.owner.len() && r.owner[k] == '/';
                assert(s[k] == '/');
            }
        }
        assert(s =~= join_owner_name(r.owner, r.name));
    }
}

/// The `owner/name` of a well-formed repository reads back as that very
/// repository.
pub proof fn law_name_with_owner_round_trip(r: RepoEntityView)
    requires
        well_formed_repo(r),
    ensures
        parse_name_with_owner(r.name_with_owner) == Ok::<RepoEntityView, RepoEntityErrorView>(r),
{
    let s = r.name_with_owner;
    let i = r.owner.len() as int;
    assert(s[i] == '/');
    assert forall|j: int| 0 <= j < i implies s[j] != '/' by {
        assert(s[j] == r.owner[j]);
    }
    lemma_first_index_unique(s, '/', i);
    assert(s.subrange(0, i) =~= r.owner);
    assert(s.subrange(i + 1, s.len() as int) =~= r.name);
}

} // verus!
