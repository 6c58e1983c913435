//! GitHub data seen by the bot and the classification of GitHub API
//! failures.
use vstd::prelude::*;

use crate::text::{contains_seq, contains_str, lowercase, str_eq, to_lowercase};

verus! {

/// Errors of the GitHub client.
#[derive(Debug, Clone, PartialEq, Eq)]
pub enum GithubError {
    /// The HTTP request could not be sent or answered (the transport's message).
    RequestError(String),
    /// The token could not be put into an HTTP header (the header error's message).
    InvalidHeader(String),
    /// The GraphQL API or the HTTP layer reported an error.
    GraphQLApiError(String),
    /// A JSON body could not be (de)serialized (the JSON error's message).
    SerializationError(String),
    /// GitHub's rate limit was hit.
    RateLimited,
    /// The token was refused.
    Unauthorized,
}

/// An issue as returned by the issues query.
#[derive(Debug, Clone, Default, PartialEq, Eq)]
pub struct IssueNode {
    /// The issue's node id.
    pub id: String,
    /// The issue's title.
    pub title: String,
    /// The issue's web URL.
    pub url: String,
    /// The creation time, as RFC 3339 text.
    pub created_at: String,
}

/// A repository label as returned by the labels query.
#[derive(Debug, Clone, Default, PartialEq, Eq)]
pub struct LabelNode {
    /// The label's name.
    pub name: String,
    /// The label's colour as a hex code.
    pub color: String,
    /// The number of issues that carry the label, when reported.
    pub issues: Option<i64>,
}

/// Marker for the query that checks whether a repository exists.
pub struct Repository;

/// Marker for the query that lists a repository's issues by label.
pub struct Issues;

/// Marker for the query that lists a repository's labels.
pub struct Labels;


/// A GraphQL error reported in a response: its message and the `code`
/// entry of its extensions when that entry is a string.
#[derive(Debug, Clone, PartialEq, Eq)]
pub struct GraphqlError {
    pub message: String,
    pub code: Option<String>,
}

/// A failed attempt at a GraphQL request.
#[derive(Debug, Clone, PartialEq, Eq)]
pub enum AttemptFailure {
    /// The request could not be sent (the transport's message).
    Send(String),
    /// The server answered with a non-success status: its code, its display
    /// text (code and reason) and the response body.
    Http { status: u16, status_text: String, body: String },
    /// The body was not the expected JSON (the parser's message).
    Json(String),
    /// The response listed GraphQL errors, with their debug rendering.
    Graphql { errors: Vec<GraphqlError>, rendered: String },
    /// The response had neither data nor errors.
    NoData,
}

/// The error GitHub reports and whether the request is worth retrying.
pub struct Classified {
    pub error: GithubError,
    pub transient: bool,
}

/// The error is GitHub's rate limiting, by its `code` extension.
pub open spec fn retryable_code(code: Option<String>) -> bool {
    match code {
        Some(c) => c@ == "RATE_LIMITED"@,
        None => false,
    }
}

/// Helper function to check if a GraphQL error is retryable: its `code`
/// extension is `RATE_LIMITED`.
pub fn is_retryable_graphql_error(error: &GraphqlError) -> (res: bool)
    ensures
        res == retryable_code(error.code),
{
    match &error.code {
        Some(c) => str_eq(c.as_str(), "RATE_LIMITED"),
        None => false,
    }
}

/// The GraphQL error reads as rate limiting: its message mentions a rate
/// limit (in any case) or its code says so.
pub open spec fn is_rate_limit_error(e: GraphqlError) -> bool {
    contains_seq(lowercase(e.message@), "rate limit"@) || retryable_code(e.code)
}

/// The text of an error built from a prefix, the status text and the body.
pub open spec fn http_error_text(prefix: Seq<char>, status_text: Seq<char>, body: Seq<char>) -> Seq<char> {
    prefix + " ("@ + status_text + "): "@ + body
}

/// The error for a non-success HTTP answer.
pub open spec fn http_error(status: u16, status_text: Seq<char>, body: Seq<char>) -> GithubErrorView {
    if status == 401 {
        GithubErrorView::Unauthorized
    } else if status == 403 {
        if contains_seq(lowercase(body), "rate limit"@) || contains_seq(
            lowercase(body),
            "secondary rate"@,
        ) {
            GithubErrorView::RateLimited
        } else {
            GithubErrorView::GraphQLApiError(http_error_text("HTTP Forbidden"@, status_text, body))
        }
    } else if status == 404 {
        GithubErrorView::GraphQLApiError(http_error_text("HTTP Not Found"@, status_text, body))
    } else {
        GithubErrorView::GraphQLApiError(http_error_text("HTTP Error"@, status_text, body))
    }
}

/// Abstract value of a `GithubError`.
pub enum GithubErrorView {
    RequestError(Seq<char>),
    InvalidHeader(Seq<char>),
    GraphQLApiError(Seq<char>),
    SerializationError(Seq<char>),
    RateLimited,
    Unauthorized,
}

impl View for GithubError {
    type V = GithubErrorView;

    open spec fn view(&self) -> GithubErrorView {
        match self {
            GithubError::RequestError(s) => GithubErrorView::RequestError(s@),
            GithubError::InvalidHeader(s) => GithubErrorView::InvalidHeader(s@),
            GithubError::GraphQLApiError(s) => GithubErrorView::GraphQLApiError(s@),
            GithubError::SerializationError(s) => GithubErrorView::SerializationError(s@),
            GithubError::RateLimited => GithubErrorView::RateLimited,
            GithubError::Unauthorized => GithubErrorView::Unauthorized,
        }
    }
}

/// How a failed attempt is reported and whether it is retried: rate limits,
/// server errors, HTTP 429, transport and JSON failures are retried; other
/// HTTP errors, GraphQL errors and empty answers are not.
pub open spec fn classify(f: AttemptFailure) -> (GithubErrorView, bool) {
    match f {
        AttemptFailure::Send(m) => (GithubErrorView::RequestError(m@), true),
        AttemptFailure::Http { status, status_text, body } => {
            let e = http_error(status, status_text@, body@);
            (e, e is RateLimited || (500 <= status <= 599) || status == 429)
        },
        AttemptFailure::Json(m) => (GithubErrorView::GraphQLApiError("JSON parse error: "@ + m@), true),
        AttemptFailure::Graphql { errors, rendered } => {
            if exists|i: int| 0 <= i < errors@.len() && is_rate_limit_error(#[trigger] errors@[i]) {
                (GithubErrorView::RateLimited, true)
            } else {
                (
                    GithubErrorView::GraphQLApiError("GraphQL API reported errors: "@ + rendered@),
                    false,
                )
            }
        },
        AttemptFailure::NoData => (
            GithubErrorView::GraphQLApiError(
                "GraphQL response had no data field and no errors reported"@,
            ),
            false,
        ),
    }
}

fn concat3(a: &str, b: &str, c: &str, d: &str, e: &str) -> (res: String)
    ensures
        res@ == a@ + b@ + c@ + d@ + e@,
{
    let mut s = String::from_str(a);
    s.append(b);
    s.append(c);
    s.append(d);
    s.append(e);
    s
}

/// The error for a non-success HTTP answer.
pub fn classify_http_error(status: u16, status_text: &str, body: &str) -> (res: GithubError)
    ensures
        res@ == http_error(status, status_text@, body@),
{
    if status == 401 {
        GithubError::Unauthorized
    } else if status == 403 {
        let lower = to_lowercase(body);
        if contains_str(lower.as_str(), "rate limit") || contains_str(lower.as_str(), "secondary rate") {
            GithubError::RateLimited
        } else {
            GithubError::GraphQLApiError(concat3("HTTP Forbidden", " (", status_text, "): ", body))
        }
    } else if status == 404 {
        GithubError::GraphQLApiError(concat3("HTTP Not Found", " (", status_text, "): ", body))
    } else {
        GithubError::GraphQLApiError(concat3("HTTP Error", " (", status_text, "): ", body))
    }
}

/// Classifies a failed GraphQL attempt: the error to report and whether
/// the attempt should be retried.
pub fn classify_attempt_failure(f: AttemptFailure) -> (res: Classified)
    ensures
        (res.error@, res.transient) == classify(f),
{
    match f {
        AttemptFailure::Send(m) => Classified { error: GithubError::RequestError(m), transient: true },
        AttemptFailure::Http { status, status_text, body } => {
            let error = classify_http_error(status, status_text.as_str(), body.as_str());
            let transient = match error {
                GithubError::RateLimited => true,
                _ => (500 <= status && status <= 599) || status == 429,
            };
            Classified { error, transient }
        },
        AttemptFailure::Json(m) => {
            let mut s = String::from_str("JSON parse error: ");
            s.append(m.as_str());
            Classified { error: GithubError::GraphQLApiError(s), transient: true }
        },
        AttemptFailure::Graphql { errors, rendered } => {
            let mut i: usize = 0;
            let mut found = false;
            while i < errors.len()
                invariant
                    i <= errors.len(),
                    found == exists|j: int| 0 <= j < i && is_rate_limit_error(#[trigger] errors@[j]),
                decreases errors.len() - i,
            {
                let lower = to_lowercase(errors[i].message.as_str());
                let hit = contains_str(lower.as_str(), "rate limit") || is_retryable_graphql_error(
                    &errors[i],
                );
                proof {
                    assert(hit == is_rate_limit_error(errors@[i as int]));
                    if hit {
                        assert(is_rate_limit_error(errors@[i as int]));
                    }
                }
                found = found || hit;
                i = i + 1;
            }
            if found {
                Classified { error: GithubError::RateLimited, transient: true }
            } else {
                let mut s = String::from_str("GraphQL API reported errors: ");
                s.append(rendered.as_str());
                Classified { error: GithubError::GraphQLApiError(s), transient: false }
            }
        },
        AttemptFailure::NoData => Classified {
            error: GithubError::GraphQLApiError(
                String::from_str("GraphQL response had no data field and no errors reported"),
            ),
            transient: false,
        },
    }
}

/// The text of a GitHub error, as shown to users.
pub open spec fn github_error_text(e: GithubErrorView) -> Seq<char> {
    match e {
        GithubErrorView::RequestError(m) => "Network or HTTP request error: "@ + m,
        GithubErrorView::InvalidHeader(m) => "Invalid HTTP header value: "@ + m,
        GithubErrorView::GraphQLApiError(m) => "GraphQL API error: "@ + m,
        GithubErrorView::SerializationError(m) => "Failed to (de)serialize JSON: "@ + m,
        GithubErrorView::RateLimited => "GitHub API rate limited"@,
        GithubErrorView::Unauthorized => "GitHub authentication failed"@,
    }
}

impl GithubError {
    /// The error's text.
    pub fn message(&self) -> (res: String)
        ensures
            res@ == github_error_text(self@),
    {
        match self {
            GithubError::RequestError(m) => {
                let mut s = String::from_str("Network or HTTP request error: ");
                s.append(m.as_str());
                s
            },
            GithubError::InvalidHeader(m) => {
                let mut s = String::from_str("Invalid HTTP header value: ");
                s.append(m.as_str());
                s
            },
            GithubError::GraphQLApiError(m) => {
                let mut s = String::from_str("GraphQL API error: ");
                s.append(m.as_str());
                s
            },
            GithubError::SerializationError(m) => {
                let mut s = String::from_str("Failed to (de)serialize JSON: ");
                s.append(m.as_str());
                s
            },
            GithubError::RateLimited => String::from_str("GitHub API rate limited"),
            GithubError::Unauthorized => String::from_str("GitHub authentication failed"),
        }
    }
}

} // verus!
