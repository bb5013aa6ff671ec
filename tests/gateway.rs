use multi_account_github_mcp::config::TokenFile;
use multi_account_github_mcp::gh::{
    api_args, classify, invocation, prepare, version_from_output, CommandOutcome, OutputMode, Payload,
};
use multi_account_github_mcp::{Config, Error, GhClient, LogConfig};

fn outcome(success: bool, stdout: &str, stderr: &str) -> CommandOutcome {
    CommandOutcome { success, stdout: stdout.to_string(), stderr: stderr.to_string() }
}

fn mock_config() -> Config {
    Config {
        default_account: "test".to_string(),
        accounts: vec![("test".to_string(), "/nonexistent/path".to_string())],
        logging: LogConfig::default(),
    }
}

#[test]
fn test_gh_client_creation() {
    let config = mock_config();
    let result = GhClient::new(config);
    if which::which("gh").is_ok() {
        assert!(result.is_ok());
    } else {
        assert!(matches!(result, Err(Error::GhNotFound)));
    }
}

#[test]
fn client_without_tool_is_refused() {
    assert_eq!(GhClient::with_probe(mock_config(), false).err(), Some(Error::GhNotFound));
}

#[test]
fn client_with_tool_keeps_config() {
    let client = GhClient::with_probe(mock_config(), true).unwrap();
    assert_eq!(client.config(), &mock_config());
    assert_eq!(client.token_path(None).unwrap(), "/nonexistent/path");
}

#[test]
fn empty_structured_output_is_null() {
    assert_eq!(classify(OutputMode::Structured, &outcome(true, "", "")), Ok(Payload::Null));
    assert_eq!(classify(OutputMode::Structured, &outcome(true, "  \n", "")), Ok(Payload::Null));
}

#[test]
fn structured_output_is_json() {
    let r = classify(OutputMode::Structured, &outcome(true, "{\"a\": 1}\n", ""));
    assert_eq!(r, Ok(Payload::Json("{\"a\": 1}\n".to_string())));
}

#[test]
fn malformed_structured_output() {
    let r = classify(OutputMode::Structured, &outcome(true, "not json", ""));
    assert_eq!(
        r,
        Err(Error::JsonParse("Failed to parse gh output as JSON. Output: not json".to_string()))
    );
}

#[test]
fn malformed_output_is_quoted_in_part() {
    let long = "x".repeat(500);
    match classify(OutputMode::Structured, &outcome(true, &long, "")) {
        Err(Error::JsonParse(m)) => {
            assert_eq!(m, format!("Failed to parse gh output as JSON. Output: {}", "x".repeat(200)));
        }
        other => panic!("unexpected {other:?}"),
    }
}

#[test]
fn raw_text_is_untouched() {
    let diff = "diff --git a/x b/x\n+line\n\n";
    assert_eq!(classify(OutputMode::RawText, &outcome(true, diff, "")), Ok(Payload::Text(diff.to_string())));
}

#[test]
fn failure_prefers_stderr() {
    let r = classify(OutputMode::Structured, &outcome(false, "out", "  HTTP 404: Not Found\n"));
    assert_eq!(r, Err(Error::GhCli("HTTP 404: Not Found".to_string())));
}

#[test]
fn failure_falls_back_to_stdout() {
    let r = classify(OutputMode::RawText, &outcome(false, " some output \n", ""));
    assert_eq!(r, Err(Error::GhCli("some output".to_string())));
}

#[test]
fn api_call_arguments() {
    let fields: &[(&str, &str)] = &[("archived", "true"), ("name", "x")];
    assert_eq!(
        api_args("repos/o/r", Some("PATCH"), Some(fields)),
        vec!["api", "-X", "PATCH", "repos/o/r", "-f", "archived=true", "-f", "name=x"]
    );
    assert_eq!(api_args("user", None, None), vec!["api", "user"]);
}

#[test]
fn credential_goes_into_the_environment() {
    let inv = invocation("tok", vec!["api".to_string(), "user".to_string()]);
    assert_eq!(inv.program, "gh");
    assert_eq!(inv.args, vec!["api", "user"]);
    assert_eq!(
        inv.env,
        vec![("GH_TOKEN".to_string(), "tok".to_string()), ("NO_COLOR".to_string(), "1".to_string())]
    );
}

#[test]
fn no_run_without_credential() {
    let r = prepare("/t", TokenFile::Missing, vec!["api".to_string()]);
    assert_eq!(r, Err(Error::TokenNotFound("/t".to_string())));
    let r = prepare("/t", TokenFile::Contents("\n".to_string()), vec!["api".to_string()]);
    assert_eq!(r, Err(Error::TokenRead("Token file is empty: /t".to_string())));
}

#[test]
fn version_line() {
    let out = outcome(true, "gh version 2.45.0 (2024-03-04)\r\nhttps://github.com/cli/cli\n", "");
    assert_eq!(version_from_output(&out), Ok("gh version 2.45.0 (2024-03-04)".to_string()));
    assert_eq!(version_from_output(&outcome(true, "", "")), Ok("unknown".to_string()));
    assert_eq!(
        version_from_output(&outcome(false, "", "x")),
        Err(Error::GhCli("Failed to get gh version".to_string()))
    );
}
