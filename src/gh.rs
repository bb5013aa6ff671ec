//! The process gateway: what to run for a call, and what its outcome means.
use std::sync::Arc;
use vstd::prelude::*;

use crate::args::{arg_chars, push_arg, push_lit};
use crate::config::{
    find_account, home_relative, is_outcome, token_from_file, token_outcome, Config, TokenFile,
    TokenOutcome,
};
use crate::error::Error;
use crate::json::{is_json, json_document};
use crate::text::{cat, cat3, first_line, is_line_end, line_before, prefix, trim, trimmed};

verus! {

/// How the standard output of a successful run is read.
#[derive(Debug, Clone, Copy, PartialEq, Eq)]
pub enum OutputMode {
    /// One JSON value, or nothing at all.
    Structured,
    /// Text returned as it is (diffs, patches).
    RawText,
}

/// What a finished run of the tool left: whether it exited with success, and its output.
#[derive(Debug, Clone, PartialEq, Eq)]
pub struct CommandOutcome {
    pub success: bool,
    pub stdout: String,
    pub stderr: String,
}

/// The result of a call, as it goes back to the caller.
#[derive(Debug, Clone, PartialEq, Eq)]
pub enum Payload {
    /// The neutral empty result: a structured run that printed nothing.
    Null,
    /// A JSON document, as the tool printed it.
    Json(String),
    /// Plain text.
    Text(String),
}

/// One run of the external tool: its arguments, passed as a vector and never through a
/// shell, and the environment added for this run alone.
#[derive(Debug, Clone, PartialEq, Eq)]
pub struct Invocation {
    pub program: String,
    pub args: Vec<String>,
    pub env: Vec<(String, String)>,
}

/// How many characters of unreadable output an error message quotes.
pub const OUTPUT_QUOTE_LEN: usize = 200;

/// The diagnostic of a failed run: standard error, or standard output where standard error
/// is empty, without surrounding white space.
pub open spec fn failure_message(stdout: Seq<char>, stderr: Seq<char>) -> Seq<char> {
    if stderr.len() == 0 {
        trimmed(stdout)
    } else {
        trimmed(stderr)
    }
}

/// The message for standard output that should have been JSON and is not.
pub open spec fn malformed_message(stdout: Seq<char>) -> Seq<char> {
    "Failed to parse gh output as JSON. Output: "@ + stdout.take(
        if stdout.len() < OUTPUT_QUOTE_LEN { stdout.len() as int } else { OUTPUT_QUOTE_LEN as int },
    )
}

/// Relies on `which::which`: whether an executable of that name is on the search path.
#[verifier::external_body]
fn tool_installed(name: &str) -> (r: bool) {
    which::which(name).is_ok()
}

/// Client for running `gh` with the token of an account.
#[derive(Debug, Clone)]
pub struct GhClient {
    config: Arc<Config>,
}

impl GhClient {
    /// The configuration the client was made with.
    pub closed spec fn spec_config(&self) -> Config {
        *self.config
    }

    /// Create a client, after checking once that `gh` is installed.
    pub fn new(config: Config) -> (r: Result<GhClient, Error>)
        ensures
            r matches Ok(c) ==> c.spec_config() == config,
            r matches Err(e) ==> e == Error::GhNotFound,
    {
        let installed = tool_installed("gh");
        GhClient::with_probe(config, installed)
    }

    /// Create a client given whether `gh` was found: without it no client is made.
    pub fn with_probe(config: Config, installed: bool) -> (r: Result<GhClient, Error>)
        ensures
            installed ==> (r matches Ok(c) && c.spec_config() == config),
            !installed ==> r == Err::<GhClient, Error>(Error::GhNotFound),
    {
        if installed {
            Ok(GhClient { config: Arc::new(config) })
        } else {
            Err(Error::GhNotFound)
        }
    }

    /// The token file of the account a call names (or of the default account), found before
    /// anything runs.
    pub fn token_path(&self, account: Option<&str>) -> (r: Result<String, Error>)
        ensures
            match find_account(self.spec_config().accounts@, self.spec_config().selected(account)) {
                Some(p) => r matches Ok(s) && (!home_relative(p) ==> s@ == p) && (home_relative(p) ==> (s@ == p
                    || exists|h: Seq<char>| s@ == h + p.drop_first())),
                None => r matches Err(Error::AccountNotFound(m)) && m@ == self.spec_config().selected(
                    account,
                ),
            },
    {
        self.config.token_file(account)
    }

    /// Get the underlying config.
    pub fn config(&self) -> (r: &Config)
        ensures
            *r == self.spec_config(),
    {
        &self.config
    }
}

/// Whether `inv` runs `gh` with `args` and with the credential `token` in its environment.
pub open spec fn runs_with(inv: Invocation, token: Seq<char>, args: Vec<String>) -> bool {
    &&& inv.program@ == "gh"@
    &&& inv.args == args
    &&& inv.env@.len() == 2
    &&& inv.env@[0].0@ == "GH_TOKEN"@
    &&& inv.env@[0].1@ == token
    &&& inv.env@[1].0@ == "NO_COLOR"@
    &&& inv.env@[1].1@ == "1"@
}

/// The run of `gh` with `args` and the credential in the token file at `path`. Where the
/// credential cannot be had, the error comes back and there is nothing to run.
pub fn prepare(path: &str, file: TokenFile, args: Vec<String>) -> (r: Result<Invocation, Error>)
    ensures
        match token_outcome(path@, file) {
            TokenOutcome::Credential(t) => r matches Ok(inv) && runs_with(inv, t, args),
            _ => r matches Err(e) && is_outcome(Err(e), token_outcome(path@, file)),
        },
{
    match token_from_file(path, file) {
        Ok(t) => Ok(invocation(t.as_str(), args)),
        Err(e) => Err(e),
    }
}

/// The run of `gh` with `args` and the credential `token`, which goes in `GH_TOKEN` for this
/// run only, together with `NO_COLOR` so that nothing colours the output.
pub fn invocation(token: &str, args: Vec<String>) -> (r: Invocation)
    ensures
        runs_with(r, token@, args),
{
    let mut env: Vec<(String, String)> = Vec::new();
    env.push((String::from_str("GH_TOKEN"), String::from_str(token)));
    env.push((String::from_str("NO_COLOR"), String::from_str("1")));
    Invocation { program: String::from_str("gh"), args, env }
}

/// What the outcome of a run means: a failed run is an error carrying its diagnostic; a
/// structured run that printed nothing is the neutral result; other structured output must
/// be JSON; raw text comes back untouched.
pub fn classify(mode: OutputMode, out: &CommandOutcome) -> (r: Result<Payload, Error>)
    ensures
        !out.success ==> (r matches Err(Error::GhCli(m)) && m@ == failure_message(
            out.stdout@,
            out.stderr@,
        )),
        out.success && mode == OutputMode::RawText ==> (r matches Ok(Payload::Text(t)) && t@
            == out.stdout@),
        out.success && mode == OutputMode::Structured && trimmed(out.stdout@).len() == 0 ==> r
            == Ok::<Payload, Error>(Payload::Null),
        out.success && mode == OutputMode::Structured && trimmed(out.stdout@).len() > 0
            && json_document(out.stdout@) ==> (r matches Ok(Payload::Json(t)) && t@
            == out.stdout@),
        out.success && mode == OutputMode::Structured && trimmed(out.stdout@).len() > 0
            && !json_document(out.stdout@) ==> (r matches Err(Error::JsonParse(m)) && m@
            == malformed_message(out.stdout@)),
{
    if !out.success {
        let source = if out.stderr.as_str().is_empty() {
            &out.stdout
        } else {
            &out.stderr
        };
        return Err(Error::GhCli(trim(source.as_str())));
    }
    match mode {
        OutputMode::RawText => Ok(Payload::Text(out.stdout.clone())),
        OutputMode::Structured => {
            let t = trim(out.stdout.as_str());
            if t.as_str().is_empty() {
                Ok(Payload::Null)
            } else if is_json(out.stdout.as_str()) {
                Ok(Payload::Json(out.stdout.clone()))
            } else {
                let quoted = prefix(out.stdout.as_str(), OUTPUT_QUOTE_LEN);
                Err(Error::JsonParse(cat("Failed to parse gh output as JSON. Output: ", quoted.as_str())))
            }
        },
    }
}

/// The arguments `-f key=value` for each field, in order.
pub open spec fn field_args(fields: Seq<(&str, &str)>) -> Seq<Seq<char>>
    decreases fields.len(),
{
    if fields.len() == 0 {
        seq![]
    } else {
        field_args(fields.drop_last()) + seq!["-f"@, fields.last().0@ + "="@ + fields.last().1@]
    }
}

/// The arguments of a `gh api` call: the verb, the method override if any, the endpoint,
/// then the fields.
pub open spec fn api_arg_list(
    endpoint: Seq<char>,
    method: Option<Seq<char>>,
    fields: Seq<(&str, &str)>,
) -> Seq<Seq<char>> {
    seq!["api"@] + match method {
        Some(m) => seq!["-X"@, m],
        None => seq![],
    } + seq![endpoint] + field_args(fields)
}

/// The characters of an optional string slice.
pub open spec fn opt_str(o: Option<&str>) -> Option<Seq<char>> {
    match o {
        Some(s) => Some(s@),
        None => None,
    }
}

/// The fields of an optional list, none where it is absent.
pub open spec fn fields_of<'a>(o: Option<&'a [(&'a str, &'a str)]>) -> Seq<(&'a str, &'a str)> {
    match o {
        Some(f) => f@,
        None => seq![],
    }
}

/// Build the arguments of a `gh api` call with an optional method and `key=value` fields.
pub fn api_args(endpoint: &str, method: Option<&str>, fields: Option<&[(&str, &str)]>) -> (r: Vec<
    String,
>)
    ensures
        arg_chars(r) == api_arg_list(endpoint@, opt_str(method), fields_of(fields)),
{
    let mut args: Vec<String> = Vec::new();
    push_lit(&mut args, "api");
    if let Some(m) = method {
        push_lit(&mut args, "-X");
        push_lit(&mut args, m);
    }
    push_lit(&mut args, endpoint);
    let ghost head = arg_chars(args);
    assert(head =~= seq!["api"@] + match opt_str(method) {
        Some(m) => seq!["-X"@, m],
        None => seq![],
    } + seq![endpoint@]);
    let fs: &[(&str, &str)] = match fields {
        Some(f) => f,
        None => &[],
    };
    assert(fs@ == fields_of(fields));
    let mut i: usize = 0;
    while i < fs.len()
        invariant
            i <= fs@.len(),
            fs@ == fields_of(fields),
            arg_chars(args) == head + field_args(fs@.take(i as int)),
        decreases fs@.len() - i,
    {
        let (k, v) = fs[i];
        push_lit(&mut args, "-f");
        push_arg(&mut args, cat3(k, "=", v));
        assert(fs@.take(i + 1).drop_last() =~= fs@.take(i as int));
        i += 1;
    }
    assert(fs@.take(fs@.len() as int) =~= fs@);
    args
}

/// The version line that `gh --version` printed: its first line, or `unknown`.
pub fn version_from_output(out: &CommandOutcome) -> (r: Result<String, Error>)
    ensures
        !out.success ==> (r matches Err(Error::GhCli(m)) && m@ == "Failed to get gh version"@),
        out.success && out.stdout@.len() == 0 ==> (r matches Ok(v) && v@ == "unknown"@),
        out.success && out.stdout@.len() > 0 ==> (r matches Ok(v) && exists|k: int|
            is_line_end(out.stdout@, k) && v@ == line_before(out.stdout@, k)),
{
    if !out.success {
        return Err(Error::GhCli(String::from_str("Failed to get gh version")));
    }
    match first_line(out.stdout.as_str()) {
        Some(l) => Ok(l),
        None => Ok(String::from_str("unknown")),
    }
}

} // verus!
