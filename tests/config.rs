use multi_account_github_mcp::config::{default_account, default_log_level, token_from_file, TokenFile};
use multi_account_github_mcp::{Config, Error, LogConfig};

fn config_with(default: &str, accounts: &[(&str, &str)]) -> Config {
    Config {
        default_account: default.to_string(),
        accounts: accounts.iter().map(|(n, p)| (n.to_string(), p.to_string())).collect(),
        logging: LogConfig::default(),
    }
}

#[test]
fn test_default_config() {
    let config = Config::default();
    assert_eq!(config.default_account, "default");
    assert!(config.accounts.is_empty());
}

#[test]
fn test_get_token_path_default() {
    let config = config_with("home", &[("home", "/path/to/token")]);
    let path = config.get_token_path(None).unwrap();
    assert_eq!(path, "/path/to/token");
}

#[test]
fn test_get_account_not_found() {
    let config = Config::default();
    let result = config.get_token_path(Some("nonexistent"));
    assert!(matches!(result, Err(Error::AccountNotFound(_))));
}

#[test]
fn test_get_token_from_file() {
    let config = config_with("test", &[("test", "/tmp/token-file")]);
    let path = config.token_file(Some("test")).unwrap();
    let token = token_from_file(&path, TokenFile::Contents("ghp_test_token_12345".to_string())).unwrap();
    assert_eq!(token, "ghp_test_token_12345");
}

#[test]
fn test_token_trimmed() {
    let config = config_with("test", &[("test", "/tmp/token-file")]);
    let path = config.token_file(Some("test")).unwrap();
    let token =
        token_from_file(&path, TokenFile::Contents("  ghp_token_with_whitespace  \n".to_string())).unwrap();
    assert_eq!(token, "ghp_token_with_whitespace");
}

#[test]
fn defaults_of_logging_and_account() {
    assert_eq!(default_log_level(), "info");
    assert_eq!(default_account(), "default");
    let log = LogConfig::default();
    assert_eq!(log.level, "");
    assert_eq!(log.file, None);
}

#[test]
fn named_account_path() {
    let config = config_with("home", &[("home", "/h"), ("work", "/w")]);
    assert_eq!(config.get_token_path(Some("work")).unwrap(), "/w");
    assert_eq!(config.get_token_path(Some("home")).unwrap(), "/h");
}

#[test]
fn account_names_are_case_sensitive() {
    let config = config_with("home", &[("home", "/h")]);
    assert_eq!(config.get_token_path(Some("Home")), Err(Error::AccountNotFound("Home".to_string())));
}

#[test]
fn unknown_account_never_falls_back_to_default() {
    let config = config_with("home", &[("home", "/h")]);
    assert_eq!(
        config.get_token_path(Some("missing")),
        Err(Error::AccountNotFound("missing".to_string()))
    );
    assert_eq!(config.token_file(Some("missing")), Err(Error::AccountNotFound("missing".to_string())));
}

#[test]
fn missing_default_account_is_reported_by_name() {
    let config = config_with("ghost", &[("home", "/h")]);
    assert_eq!(config.get_token_path(None), Err(Error::AccountNotFound("ghost".to_string())));
}

#[test]
fn no_account_same_as_default_account() {
    let config = config_with("work", &[("home", "/h"), ("work", "/w")]);
    assert_eq!(config.get_token_path(None), config.get_token_path(Some("work")));
    assert_eq!(config.token_file(None), config.token_file(Some("work")));
}

#[test]
fn account_names_in_order() {
    let config = config_with("home", &[("home", "/h"), ("work", "/w")]);
    assert_eq!(config.account_names(), vec!["home", "work"]);
}

#[test]
fn absolute_token_path_is_not_expanded() {
    let config = config_with("home", &[("home", "/etc/tokens/home")]);
    assert_eq!(config.token_file(None).unwrap(), "/etc/tokens/home");
}

#[test]
fn tilde_token_path_loses_its_tilde() {
    let config = config_with("home", &[("home", "~/tokens/home")]);
    let path = config.token_file(None).unwrap();
    assert!(path.ends_with("/tokens/home"));
    if dirs::home_dir().is_some() {
        assert!(!path.starts_with('~'));
    }
}

#[test]
fn missing_token_file() {
    assert_eq!(
        token_from_file("/no/such/file", TokenFile::Missing),
        Err(Error::TokenNotFound("/no/such/file".to_string()))
    );
}

#[test]
fn unreadable_token_file() {
    assert_eq!(
        token_from_file("/t", TokenFile::Unreadable("permission denied".to_string())),
        Err(Error::TokenRead("/t: permission denied".to_string()))
    );
}

#[test]
fn blank_token_file_is_an_error() {
    assert_eq!(
        token_from_file("/t", TokenFile::Contents(" \n\t ".to_string())),
        Err(Error::TokenRead("Token file is empty: /t".to_string()))
    );
    assert_eq!(
        token_from_file("/t", TokenFile::Contents(String::new())),
        Err(Error::TokenRead("Token file is empty: /t".to_string()))
    );
}

#[test]
fn error_messages() {
    assert_eq!(Error::AccountNotFound("x".to_string()).message(), "Account not found: x");
    assert_eq!(Error::TokenNotFound("/p".to_string()).message(), "Token file not found: /p");
    assert_eq!(Error::TokenRead("/p".to_string()).message(), "Token file read error: /p");
    assert_eq!(Error::GhCli("boom".to_string()).message(), "gh CLI error: boom");
    assert_eq!(Error::GhNotFound.message(), "gh CLI not found. Install from https://cli.github.com");
    assert_eq!(Error::JsonParse("bad".to_string()).message(), "JSON parse error: bad");
    assert_eq!(Error::Config("c".to_string()).message(), "Configuration error: c");
    assert_eq!(Error::YamlParse("y".to_string()).message(), "YAML parse error: y");
    assert_eq!(Error::Io("i".to_string()).message(), "IO error: i");
    assert_eq!(Error::Mcp("m".to_string()).message(), "MCP error: m");
    assert_eq!(Error::Tool("t".to_string()).message(), "Tool error: t");
}

#[test]
fn insert_account_adds_and_replaces() {
    let mut config = Config::default();
    config.insert_account("home".to_string(), "/h".to_string());
    config.insert_account("work".to_string(), "/w".to_string());
    assert_eq!(config.accounts.len(), 2);
    config.insert_account("home".to_string(), "/h2".to_string());
    assert_eq!(config.accounts.len(), 2);
    assert_eq!(config.get_token_path(Some("home")).unwrap(), "/h2");
    assert_eq!(config.get_token_path(Some("work")).unwrap(), "/w");
    assert_eq!(config.default_account, "default");
}
