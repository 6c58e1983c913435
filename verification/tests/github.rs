use good_first_bot::github::{
    classify_attempt_failure, classify_http_error, is_retryable_graphql_error, AttemptFailure,
    GithubError, GraphqlError,
};

#[test]
fn test_is_retryable_graphql_error() {
    let error = GraphqlError {
        message: "Rate limited".to_string(),
        code: Some("RATE_LIMITED".to_string()),
    };

    assert!(is_retryable_graphql_error(&error));
}

#[test]
fn test_is_not_retryable_graphql_error() {
    let error = GraphqlError {
        message: "Some other error".to_string(),
        code: Some("OTHER_ERROR".to_string()),
    };

    assert!(!is_retryable_graphql_error(&error));
}

#[test]
fn test_graphql_error_without_code_is_not_retryable() {
    let error = GraphqlError { message: "rate limited".to_string(), code: None };
    assert!(!is_retryable_graphql_error(&error));
}

#[test]
fn test_classify_http_errors() {
    assert_eq!(classify_http_error(401, "401 Unauthorized", ""), GithubError::Unauthorized);
    assert_eq!(
        classify_http_error(403, "403 Forbidden", "You have exceeded a Secondary Rate limit"),
        GithubError::RateLimited
    );
    assert_eq!(
        classify_http_error(403, "403 Forbidden", "nope"),
        GithubError::GraphQLApiError("HTTP Forbidden (403 Forbidden): nope".to_string())
    );
    assert_eq!(
        classify_http_error(404, "404 Not Found", "gone"),
        GithubError::GraphQLApiError("HTTP Not Found (404 Not Found): gone".to_string())
    );
    assert_eq!(
        classify_http_error(502, "502 Bad Gateway", "x"),
        GithubError::GraphQLApiError("HTTP Error (502 Bad Gateway): x".to_string())
    );
}

#[test]
fn test_classify_attempt_failures() {
    let c = classify_attempt_failure(AttemptFailure::Http {
        status: 503,
        status_text: "503 Service Unavailable".to_string(),
        body: String::new(),
    });
    assert!(c.transient);
    let c = classify_attempt_failure(AttemptFailure::Http {
        status: 404,
        status_text: "404 Not Found".to_string(),
        body: String::new(),
    });
    assert!(!c.transient);
    let c = classify_attempt_failure(AttemptFailure::Send("timeout".to_string()));
    assert_eq!(c.error, GithubError::RequestError("timeout".to_string()));
    assert!(c.transient);
    let c = classify_attempt_failure(AttemptFailure::Json("eof".to_string()));
    assert_eq!(c.error, GithubError::GraphQLApiError("JSON parse error: eof".to_string()));
    assert!(c.transient);
    let c = classify_attempt_failure(AttemptFailure::Graphql {
        errors: vec![GraphqlError { message: "API RATE LIMIT exceeded".to_string(), code: None }],
        rendered: "[..]".to_string(),
    });
    assert_eq!(c.error, GithubError::RateLimited);
    assert!(c.transient);
    let c = classify_attempt_failure(AttemptFailure::Graphql {
        errors: vec![GraphqlError { message: "Not found".to_string(), code: None }],
        rendered: "[x]".to_string(),
    });
    assert_eq!(c.error, GithubError::GraphQLApiError("GraphQL API reported errors: [x]".to_string()));
    assert!(!c.transient);
    let c = classify_attempt_failure(AttemptFailure::NoData);
    assert!(!c.transient);
}

#[test]
fn test_github_error_messages() {
    assert_eq!(GithubError::RateLimited.message(), "GitHub API rate limited");
    assert_eq!(GithubError::Unauthorized.message(), "GitHub authentication failed");
    assert_eq!(
        GithubError::GraphQLApiError("x".to_string()).message(),
        "GraphQL API error: x"
    );
}
