//! The plain repository record kept by the in-memory store.
use vstd::prelude::*;

use super::repo_entity::{github_repo_url, join_owner_name};
use crate::text::{contains_char, has_char, split_once, split_once_char, str_eq};
use crate::urls::{parse_result_view, parse_url, parsed_url, UrlParts, UrlPartsView};

verus! {

/// A GitHub repository kept by the in-memory store.
#[derive(Debug, Clone, PartialEq, Eq, Hash)]
pub struct Repository {
    pub owner: String,
    pub name: String,
    pub name_with_owner: String,
}

/// Abstract value of a `Repository`.
pub struct RepositoryView {
    pub owner: Seq<char>,
    pub name: Seq<char>,
    pub name_with_owner: Seq<char>,
}

impl View for Repository {
    type V = RepositoryView;

    open spec fn view(&self) -> RepositoryView {
        RepositoryView {
            owner: self.owner@,
            name: self.name@,
            name_with_owner: self.name_with_owner@,
        }
    }
}

/// What `Repository::from_str` gives for the text `s`; errors are messages.
pub open spec fn parse_repository(s: Seq<char>) -> Result<RepositoryView, Seq<char>> {
    match split_once(s, '/') {
        None => Err("Invalid repository format, expected 'owner/name'"@),
        Some((owner, name)) => if owner.len() == 0 {
            Err("Owner cannot be empty"@)
        } else if name.len() == 0 {
            Err("Repository name cannot be empty"@)
        } else if has_char(name, '/') {
            Err("Repository name cannot contain '/'"@)
        } else {
            Ok(RepositoryView { owner, name, name_with_owner: join_owner_name(owner, name) })
        },
    }
}

/// The text shown for a repository: `owner/name (url)`.
pub open spec fn repository_display(r: RepositoryView) -> Seq<char> {
    r.name_with_owner + " ("@ + github_repo_url(r.owner, r.name) + ")"@
}

impl Repository {
    /// Returns the URL of the repository on GitHub.
    pub fn url(&self) -> (res: String)
        ensures
            res@ == github_repo_url(self.owner@, self.name@),
    {
        let mut s = String::from_str("https://github.com");
        s.append("/");
        s.append(self.owner.as_str());
        s.append("/");
        s.append(self.name.as_str());
        proof {
            reveal_strlit("/");
            assert("/"@ =~= seq!['/']);
        }
        s
    }

    /// The text shown for the repository: `owner/name (url)`.
    pub fn to_display_string(&self) -> (res: String)
        ensures
            res@ == repository_display(self@),
    {
        let mut s = self.name_with_owner.clone();
        s.append(" (");
        let url = self.url();
        s.append(url.as_str());
        s.append(")");
        s
    }

    /// Parses `owner/name` text into a repository.
    pub fn from_str(s: &str) -> (res: Result<Repository, String>)
        ensures
            match res {
                Ok(r) => parse_repository(s@) == Ok::<RepositoryView, Seq<char>>(r@),
                Err(e) => parse_repository(s@) == Err::<RepositoryView, Seq<char>>(e@),
            },
    {
        match split_once_char(s, '/') {
            None => Err(String::from_str("Invalid repository format, expected 'owner/name'")),
            Some((owner, name)) => {
                if owner.unicode_len() == 0 {
                    return Err(String::from_str("Owner cannot be empty"));
                }
                if name.unicode_len() == 0 {
                    return Err(String::from_str("Repository name cannot be empty"));
                }
                if contains_char(name, '/') {
                    return Err(String::from_str("Repository name cannot contain '/'"));
                }
                let mut name_with_owner = String::from_str(owner);
                name_with_owner.append("/");
                name_with_owner.append(name);
                proof {
                    reveal_strlit("/");
                    assert("/"@ =~= seq!['/']);
                    assert(name_with_owner@ =~= join_owner_name(owner@, name@));
                }
                Ok(
                    Repository {
                        owner: String::from_str(owner),
                        name: String::from_str(name),
                        name_with_owner,
                    },
                )
            },
        }
    }
}

/// What `Repository::from_url` gives for a URL that the parser read as
/// `parsed`; errors are messages.
pub open spec fn repository_from_url(parsed: Result<UrlPartsView, Seq<char>>) -> Result<RepositoryView, Seq<char>> {
    match parsed {
        Err(e) => Err("Invalid URL: "@ + e),
        Ok((domain, segments)) => if domain != Some("github.com"@) {
            Err("URL must be from github.com"@)
        } else {
            let segs = match segments {
                Some(v) => v,
                None => Seq::empty(),
            };
            if segs.len() < 2 {
                Err("URL must be in the format https://github.com/owner/repo"@)
            } else if segs[0].len() == 0 || segs[1].len() == 0 {
                Err("Owner or repository name cannot be empty"@)
            } else {
                Ok(
                    RepositoryView {
                        owner: segs[0],
                        name: segs[1],
                        name_with_owner: join_owner_name(segs[0], segs[1]),
                    },
                )
            }
        },
    }
}

/// The abstract value of a parse result.
pub open spec fn repository_result_view(r: Result<Repository, String>) -> Result<RepositoryView, Seq<char>> {
    match r {
        Ok(v) => Ok(v@),
        Err(e) => Err(e@),
    }
}

impl Repository {
    /// Builds a repository from a URL's parts (see `from_url`).
    pub fn from_url_parts(parsed: Result<UrlParts, String>) -> (res: Result<Repository, String>)
        ensures
            repository_result_view(res) == repository_from_url(parse_result_view(parsed)),
    {
        let (domain, segments) = match parsed {
            Err(e) => {
                let mut m = String::from_str("Invalid URL: ");
                m.append(e.as_str());
                return Err(m);
            },
            Ok(p) => p,
        };
        let is_github = match &domain {
            Some(d) => str_eq(d.as_str(), "github.com"),
            None => false,
        };
        if !is_github {
            return Err(String::from_str("URL must be from github.com"));
        }
        let segs: Vec<String> = match segments {
            Some(v) => v,
            None => Vec::new(),
        };
        if segs.len() < 2 {
            return Err(String::from_str("URL must be in the format https://github.com/owner/repo"));
        }
        let owner = segs[0].clone();
        let name = segs[1].clone();
        if owner.as_str().unicode_len() == 0 || name.as_str().unicode_len() == 0 {
            return Err(String::from_str("Owner or repository name cannot be empty"));
        }
        let mut name_with_owner = owner.clone();
        name_with_owner.append("/");
        name_with_owner.append(name.as_str());
        proof {
            reveal_strlit("/");
            assert("/"@ =~= seq!['/']);
        }
        Ok(Repository { owner, name, name_with_owner })
    }

    /// Parses a GitHub URL (`https://github.com/owner/name...`) into a
    /// repository.
    pub fn from_url(url_str: &str) -> (res: Result<Repository, String>)
        ensures
            repository_result_view(res) == repository_from_url(parsed_url(url_str@)),
    {
        let parsed = parse_url(url_str);
        Repository::from_url_parts(parsed)
    }
}

impl std::str::FromStr for Repository {
    type Err = String;

    fn from_str(s: &str) -> (res: Result<Repository, String>)
        ensures
            repository_result_view(res) == parse_repository(s@),
    {
        Repository::from_str(s)
    }
}

} // verus!
