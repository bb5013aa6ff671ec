//! Errors of the gateway, each carrying the text that is shown to a caller.
use vstd::prelude::*;

use crate::text::cat;

verus! {

/// What can go wrong while resolving a credential, running `gh` or reading its output.
#[derive(Debug, Clone, PartialEq, Eq)]
pub enum Error {
    Config(String),
    AccountNotFound(String),
    TokenNotFound(String),
    TokenRead(String),
    GhCli(String),
    GhNotFound,
    JsonParse(String),
    YamlParse(String),
    Io(String),
    Mcp(String),
    Tool(String),
}

/// The text with which an error is reported.
pub open spec fn message_of(e: Error) -> Seq<char> {
    match e {
        Error::Config(m) => "Configuration error: "@ + m@,
        Error::AccountNotFound(m) => "Account not found: "@ + m@,
        Error::TokenNotFound(m) => "Token file not found: "@ + m@,
        Error::TokenRead(m) => "Token file read error: "@ + m@,
        Error::GhCli(m) => "gh CLI error: "@ + m@,
        Error::GhNotFound => "gh CLI not found. Install from https://cli.github.com"@,
        Error::JsonParse(m) => "JSON parse error: "@ + m@,
        Error::YamlParse(m) => "YAML parse error: "@ + m@,
        Error::Io(m) => "IO error: "@ + m@,
        Error::Mcp(m) => "MCP error: "@ + m@,
        Error::Tool(m) => "Tool error: "@ + m@,
    }
}

impl Error {
    /// The text with which this error is reported.
    pub fn message(&self) -> (r: String)
        ensures
            r@ == message_of(*self),
    {
        match self {
            Error::Config(m) => cat("Configuration error: ", m.as_str()),
            Error::AccountNotFound(m) => cat("Account not found: ", m.as_str()),
            Error::TokenNotFound(m) => cat("Token file not found: ", m.as_str()),
            Error::TokenRead(m) => cat("Token file read error: ", m.as_str()),
            Error::GhCli(m) => cat("gh CLI error: ", m.as_str()),
            Error::GhNotFound => String::from_str("gh CLI not found. Install from https://cli.github.com"),
            Error::JsonParse(m) => cat("JSON parse error: ", m.as_str()),
            Error::YamlParse(m) => cat("YAML parse error: ", m.as_str()),
            Error::Io(m) => cat("IO error: ", m.as_str()),
            Error::Mcp(m) => cat("MCP error: ", m.as_str()),
            Error::Tool(m) => cat("Tool error: ", m.as_str()),
        }
    }
}

} // verus!
