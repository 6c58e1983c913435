use good_first_bot::config::{
    Config, VarError, DEFAULT_DATABASE_URL, DEFAULT_GITHUB_GRAPHQL_URL, DEFAULT_LABELS_PER_REPO,
    DEFAULT_MAX_CONCURRENCY, DEFAULT_POLL_INTERVAL, DEFAULT_REPOS_PER_USER,
};

fn set(v: &str) -> Result<String, VarError> {
    Ok(v.to_string())
}

fn unset() -> Result<String, VarError> {
    Err(VarError::NotPresent)
}

#[test]
fn test_from_env() {
    let config = Config::from_values(
        set("test github token"),
        set("https://api.github.com/graphql"),
        set("test telegram bot token"),
        set("100"),
        set("sqlite:test/test.db"),
        set("50"),
        set("20"),
        unset(),
        unset(),
    )
    .unwrap();
    assert_eq!(config.github_token, "test github token");
    assert_eq!(config.github_graphql_url, "https://api.github.com/graphql");
    assert_eq!(config.telegram_bot_token, "test telegram bot token");
    assert_eq!(config.poll_interval, 100);
    assert_eq!(config.database_url, "sqlite:test/test.db");
    assert_eq!(config.max_repos_per_user, 50);
    assert_eq!(config.max_labels_per_repo, 20);
}

#[test]
fn test_missing_github_token_error() {
    let config = Config::from_values(
        unset(),
        set("https://api.github.com/graphql"),
        set("test telegram bot token"),
        set("100"),
        set("sqlite:test/test.db"),
        unset(),
        unset(),
        unset(),
        unset(),
    );
    assert!(config.is_err());
}

#[test]
fn test_missing_telegram_bot_token_error() {
    let config = Config::from_values(
        set("test github token"),
        set("https://api.github.com/graphql"),
        unset(),
        set("100"),
        set("sqlite:test/test.db"),
        unset(),
        unset(),
        unset(),
        unset(),
    );
    assert!(config.is_err());
}

#[test]
fn test_missing_database_url_default() {
    let config = Config::from_values(
        set("test github token"),
        set("https://api.github.com/graphql"),
        set("test telegram bot token"),
        set("100"),
        unset(),
        unset(),
        unset(),
        unset(),
        unset(),
    )
    .unwrap();

    assert_eq!(config.database_url, DEFAULT_DATABASE_URL);
}

#[test]
fn test_missing_github_graphql_url_default() {
    let config = Config::from_values(
        set("test github token"),
        unset(),
        set("test telegram bot token"),
        set("100"),
        unset(),
        unset(),
        unset(),
        unset(),
        unset(),
    )
    .unwrap();
    assert_eq!(config.github_graphql_url, DEFAULT_GITHUB_GRAPHQL_URL);
}

#[test]
fn test_missing_poll_interval_default() {
    let config = Config::from_values(
        set("test github token"),
        set("https://api.github.com/graphql"),
        set("test telegram bot token"),
        unset(),
        unset(),
        unset(),
        unset(),
        unset(),
        unset(),
    )
    .unwrap();
    assert_eq!(config.poll_interval, DEFAULT_POLL_INTERVAL);
}

#[test]
fn test_missing_limits_default() {
    let config = Config::from_values(
        set("test github token"),
        set("https://api.github.com/graphql"),
        set("test telegram bot token"),
        set("100"),
        unset(),
        unset(),
        unset(),
        unset(),
        unset(),
    )
    .unwrap();
    assert_eq!(config.max_repos_per_user, DEFAULT_REPOS_PER_USER);
    assert_eq!(config.max_labels_per_repo, DEFAULT_LABELS_PER_REPO);
    assert_eq!(config.max_concurrency, DEFAULT_MAX_CONCURRENCY);
}

#[test]
fn test_github_token_error_comes_first() {
    let config = Config::from_values(
        Err(VarError::NotUnicode("x".to_string())),
        unset(),
        unset(),
        unset(),
        unset(),
        unset(),
        unset(),
        unset(),
        unset(),
    );
    assert_eq!(config, Err(VarError::NotUnicode("x".to_string())));
}

#[test]
fn test_numbers_parse_like_std() {
    let parsed = |v: &str| {
        Config::from_values(
            set("g"),
            unset(),
            set("t"),
            set(v),
            unset(),
            unset(),
            unset(),
            unset(),
            unset(),
        )
        .unwrap()
        .poll_interval
    };
    for text in ["+7", "007", "18446744073709551615", "", "+", "-1", " 5", "5 ", "1_0", "18446744073709551616", "٣"] {
        let expected = text.parse::<u64>().unwrap_or(DEFAULT_POLL_INTERVAL);
        assert_eq!(parsed(text), expected, "text {:?}", text);
    }
}
