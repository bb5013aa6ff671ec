//! Accounts and their token files: which credential a call runs with.
use vstd::prelude::*;

use crate::error::Error;
use crate::text::{cat, cat3, str_eq, trim, trimmed};

verus! {

/// Logging configuration.
#[derive(Debug, Clone, PartialEq, Eq)]
pub struct LogConfig {
    /// Log level: trace, debug, info, warn, error.
    pub level: String,
    /// Optional log file path (a leading `~` is expanded). Without it, logs go to stderr.
    pub file: Option<String>,
}

impl Default for LogConfig {
    fn default() -> (r: LogConfig)
        ensures
            r.level@ == Seq::<char>::empty(),
            r.file is None,
    {
        LogConfig { level: String::new(), file: None }
    }
}

/// The log level used where the configuration names none.
pub fn default_log_level() -> (r: String)
    ensures
        r@ == "info"@,
{
    String::from_str("info")
}

/// The account name used where the configuration names no default.
pub fn default_account() -> (r: String)
    ensures
        r@ == "default"@,
{
    String::from_str("default")
}

/// Main configuration: accounts map straight to token file paths.
#[derive(Debug, Clone, PartialEq, Eq)]
pub struct Config {
    /// Account used when a call names none.
    pub default_account: String,
    /// Account names with the paths of their token files (a leading `~` is expanded).
    pub accounts: Vec<(String, String)>,
    /// Logging configuration.
    pub logging: LogConfig,
}

/// The token path of the first entry named `name`.
pub open spec fn find_account(accounts: Seq<(String, String)>, name: Seq<char>) -> Option<Seq<char>>
    decreases accounts.len(),
{
    if accounts.len() == 0 {
        None
    } else if accounts[0].0@ == name {
        Some(accounts[0].1@)
    } else {
        find_account(accounts.drop_first(), name)
    }
}

/// Whether no two entries share a name, as the keys of a configuration file's map never do.
pub open spec fn names_unique(accounts: Seq<(String, String)>) -> bool {
    forall|i: int, j: int|
        0 <= i < j < accounts.len() ==> (#[trigger] accounts[i]).0@ != (#[trigger] accounts[j]).0@
}

/// Whether some entry is named `name`.
pub open spec fn has_account(accounts: Seq<(String, String)>, name: Seq<char>) -> bool {
    exists|i: int| 0 <= i < accounts.len() && (#[trigger] accounts[i]).0@ == name
}

/// Whether a leading `~` of `p` names the home directory (alone, or before a separator).
pub open spec fn home_relative(p: Seq<char>) -> bool {
    p.len() > 0 && p[0] == '~' && (p.len() == 1 || p[1] == '/' || p[1] == '\\')
}

/// What became of reading a token file.
#[derive(Debug, Clone, PartialEq, Eq)]
pub enum TokenFile {
    /// No file is at the path.
    Missing,
    /// The file is there but could not be read; the cause, as text.
    Unreadable(String),
    /// What the file holds.
    Contents(String),
}

/// What a token file yields: the credential, or the message of the error.
pub enum TokenOutcome {
    /// The credential.
    Credential(Seq<char>),
    /// `TokenNotFound` with this message.
    NotFound(Seq<char>),
    /// `TokenRead` with this message.
    ReadError(Seq<char>),
}

/// What a token file at `path` yields.
pub open spec fn token_outcome(path: Seq<char>, file: TokenFile) -> TokenOutcome {
    match file {
        TokenFile::Missing => TokenOutcome::NotFound(path),
        TokenFile::Unreadable(cause) => TokenOutcome::ReadError(path + ": "@ + cause@),
        TokenFile::Contents(c) => if trimmed(c@).len() == 0 {
            TokenOutcome::ReadError("Token file is empty: "@ + path)
        } else {
            TokenOutcome::Credential(trimmed(c@))
        },
    }
}

/// Whether `r` is the outcome `o`: the credential with those characters, or the error of that
/// kind with that message.
pub open spec fn is_outcome(r: Result<String, Error>, o: TokenOutcome) -> bool {
    match o {
        TokenOutcome::Credential(t) => r matches Ok(s) && s@ == t,
        TokenOutcome::NotFound(m) => r matches Err(Error::TokenNotFound(x)) && x@ == m,
        TokenOutcome::ReadError(m) => r matches Err(Error::TokenRead(x)) && x@ == m,
    }
}

/// Resolution depends only on the names, and on the paths of the entries named `n`.
proof fn lemma_find_same(s: Seq<(String, String)>, t: Seq<(String, String)>, n: Seq<char>)
    requires
        s.len() == t.len(),
        forall|k: int| 0 <= k < s.len() ==> (#[trigger] s[k]).0@ == t[k].0@,
        forall|k: int| 0 <= k < s.len() && (#[trigger] s[k]).0@ == n ==> s[k].1@ == t[k].1@,
    ensures
        find_account(s, n) == find_account(t, n),
    decreases s.len(),
{
    if s.len() > 0 {
        assert(s[0].0@ == t[0].0@);
        assert forall|k: int| 0 <= k < s.drop_first().len() implies (#[trigger] s.drop_first()[k]).0@
            == t.drop_first()[k].0@ by {
            assert(s.drop_first()[k] == s[k + 1] && t.drop_first()[k] == t[k + 1]);
        }
        assert forall|k: int| 0 <= k < s.drop_first().len() && (#[trigger] s.drop_first()[k]).0@
            == n implies s.drop_first()[k].1@ == t.drop_first()[k].1@ by {
            assert(s.drop_first()[k] == s[k + 1] && t.drop_first()[k] == t[k + 1]);
        }
        lemma_find_same(s.drop_first(), t.drop_first(), n);
    }
}

/// An entry added at the end does not change how other names resolve.
proof fn lemma_find_push(s: Seq<(String, String)>, x: (String, String), n: Seq<char>)
    requires
        x.0@ != n,
    ensures
        find_account(s.push(x), n) == find_account(s, n),
    decreases s.len(),
{
    if s.len() > 0 {
        assert(s.push(x)[0] == s[0]);
        assert(s.push(x).drop_first() =~= s.drop_first().push(x));
        lemma_find_push(s.drop_first(), x, n);
    } else {
        assert(s.push(x).drop_first() =~= s);
    }
}

/// An account that is not configured resolves to no token path.
proof fn lemma_not_found(accounts: Seq<(String, String)>, name: Seq<char>)
    requires
        !has_account(accounts, name),
    ensures
        find_account(accounts, name) is None,
    decreases accounts.len(),
{
    if accounts.len() > 0 {
        assert(accounts[0] == accounts[0]);
        assert forall|i: int| 0 <= i < accounts.drop_first().len() implies (
        #[trigger] accounts.drop_first()[i]).0@ != name by {
            assert(accounts.drop_first()[i] == accounts[i + 1]);
        }
        lemma_not_found(accounts.drop_first(), name);
    }
}

/// Where names are unique, the entry at `i` is the one that its name resolves to.
proof fn lemma_found_at(accounts: Seq<(String, String)>, i: int)
    requires
        names_unique(accounts),
        0 <= i < accounts.len(),
    ensures
        find_account(accounts, accounts[i].0@) == Some(accounts[i].1@),
    decreases i,
{
    if i > 0 {
        let rest = accounts.drop_first();
        assert(accounts[0].0@ != accounts[i].0@);
        assert forall|a: int, b: int| 0 <= a < b < rest.len() implies (#[trigger] rest[a]).0@ != (
        #[trigger] rest[b]).0@ by {
            assert(rest[a] == accounts[a + 1] && rest[b] == accounts[b + 1]);
        }
        assert(rest[i - 1] == accounts[i]);
        lemma_found_at(rest, i - 1);
    }
}

/// For every configured account, resolution reaches the token file configured for it, and
/// the credential is the trimmed content of that file; a missing, unreadable or blank file
/// is a credential error (`TokenNotFound` or `TokenRead`), never a credential.
pub proof fn configured_account_resolves(
    config: Config,
    i: int,
    name: &str,
    path: Seq<char>,
    file: TokenFile,
)
    requires
        config.wf(),
        0 <= i < config.accounts@.len(),
        config.accounts@[i].0@ == name@,
    ensures
        find_account(config.accounts@, config.selected(Some(name))) == Some(config.accounts@[i].1@),
        token_outcome(path, file) is Credential <==> (file matches TokenFile::Contents(c) && trimmed(
            c@,
        ).len() > 0),
        file matches TokenFile::Contents(c) ==> (trimmed(c@).len() > 0 ==> token_outcome(path, file)
            == TokenOutcome::Credential(trimmed(c@))),
{
    lemma_found_at(config.accounts@, i);
}

/// An account name that is not configured is reported as not found, under its own name: the
/// default account never stands in for it.
pub proof fn unknown_account_not_found(config: Config, name: &str)
    requires
        !has_account(config.accounts@, name@),
    ensures
        config.selected(Some(name)) == name@,
        find_account(config.accounts@, config.selected(Some(name))) is None,
{
    lemma_not_found(config.accounts@, name@);
}

/// Naming no account is the same as naming the default account.
pub proof fn no_account_is_default(config: Config, default_name: &str)
    requires
        default_name@ == config.default_account@,
    ensures
        config.selected(None) == config.selected(Some(default_name)),
        find_account(config.accounts@, config.selected(None)) == find_account(
            config.accounts@,
            config.selected(Some(default_name)),
        ),
{
}

/// Relies on `shellexpand::tilde`: a leading `~` alone or before a separator becomes the home
/// directory where one is known; any other path comes back as it is.
#[verifier::external_body]
fn expand_home(path: &str) -> (r: String)
    ensures
        !home_relative(path@) ==> r@ == path@,
        home_relative(path@) ==> (r@ == path@ || exists|h: Seq<char>| r@ == h + path@.drop_first()),
{
    shellexpand::tilde(path).into_owned()
}

/// The credential in a token file at `path`: its content without surrounding white space.
/// A missing, unreadable or blank file is an error, never an anonymous credential.
pub fn token_from_file(path: &str, file: TokenFile) -> (r: Result<String, Error>)
    ensures
        is_outcome(r, token_outcome(path@, file)),
{
    match file {
        TokenFile::Missing => Err(Error::TokenNotFound(String::from_str(path))),
        TokenFile::Unreadable(cause) => Err(Error::TokenRead(cat3(path, ": ", cause.as_str()))),
        TokenFile::Contents(c) => {
            let t = trim(c.as_str());
            if t.as_str().is_empty() {
                Err(Error::TokenRead(cat("Token file is empty: ", path)))
            } else {
                Ok(t)
            }
        },
    }
}

impl Config {
    /// Account names are unique.
    pub open spec fn wf(&self) -> bool {
        names_unique(self.accounts@)
    }

    /// Adds an account, or points the account of that name at a new token file, as
    /// inserting into a map does.
    pub fn insert_account(&mut self, name: String, path: String)
        requires
            old(self).wf(),
        ensures
            final(self).wf(),
            final(self).default_account == old(self).default_account,
            final(self).logging == old(self).logging,
            find_account(final(self).accounts@, name@) == Some(path@),
            forall|n: Seq<char>|
                n != name@ ==> find_account(final(self).accounts@, n) == find_account(
                    old(self).accounts@,
                    n,
                ),
    {
        let ghost s = self.accounts@;
        let mut i: usize = 0;
        while i < self.accounts.len()
            invariant
                i <= self.accounts@.len(),
                self.accounts@ == s,
                s == old(self).accounts@,
                names_unique(s),
                self.default_account == old(self).default_account,
                self.logging == old(self).logging,
                forall|j: int| 0 <= j < i ==> (#[trigger] s[j]).0@ != name@,
            decreases self.accounts@.len() - i,
        {
            if str_eq(self.accounts[i].0.as_str(), name.as_str()) {
                let ghost entry = (name, path);
                assert(s[i as int].0@ == entry.0@);
                self.accounts.set(i, (name, path));
                let ghost t = self.accounts@;
                proof {
                    assert(t == s.update(i as int, entry));
                    assert forall|a: int, b: int| 0 <= a < b < t.len() implies (#[trigger] t[a]).0@
                        != (#[trigger] t[b]).0@ by {
                        assert(t[a].0@ == s[a].0@) by {
                            if a == i {
                                assert(t[a] == entry);
                            }
                        }
                        assert(t[b].0@ == s[b].0@) by {
                            if b == i {
                                assert(t[b] == entry);
                            }
                        }
                        assert(s[a].0@ != s[b].0@);
                    }
                    lemma_found_at(t, i as int);
                    assert forall|n: Seq<char>| n != entry.0@ implies find_account(t, n) == find_account(
                        s,
                        n,
                    ) by {
                        lemma_find_same(s, t, n);
                    }
                }
                return ;
            }
            i += 1;
        }
        let ghost entry = (name, path);
        self.accounts.push((name, path));
        proof {
            let t = self.accounts@;
            assert(t == s.push(entry));
            assert forall|a: int, b: int| 0 <= a < b < t.len() implies (#[trigger] t[a]).0@ != (
            #[trigger] t[b]).0@ by {
                if b == s.len() {
                    assert(t[a] == s[a]);
                } else {
                    assert(t[a] == s[a] && t[b] == s[b]);
                }
            }
            lemma_found_at(t, s.len() as int);
            assert forall|n: Seq<char>| n != entry.0@ implies find_account(t, n) == find_account(s, n) by {
                lemma_find_push(s, entry, n);
            }
        }
    }

    /// The account a call runs with: the one it names, else the default.
    pub open spec fn selected(&self, name: Option<&str>) -> Seq<char> {
        match name {
            Some(n) => n@,
            None => self.default_account@,
        }
    }

    /// Get the token path for an account by name, or for the default account if none is named.
    pub fn get_token_path(&self, name: Option<&str>) -> (r: Result<&str, Error>)
        ensures
            match find_account(self.accounts@, self.selected(name)) {
                Some(p) => r matches Ok(s) && s@ == p,
                None => r matches Err(Error::AccountNotFound(m)) && m@ == self.selected(name),
            },
    {
        let account_name: &str = match name {
            Some(n) => n,
            None => self.default_account.as_str(),
        };
        let ghost want = self.selected(name);
        let mut i: usize = 0;
        assert(self.accounts@.skip(0) =~= self.accounts@);
        while i < self.accounts.len()
            invariant
                i <= self.accounts@.len(),
                account_name@ == want,
                want == self.selected(name),
                find_account(self.accounts@, want) == find_account(
                    self.accounts@.skip(i as int),
                    want,
                ),
            decreases self.accounts@.len() - i,
        {
            let entry = &self.accounts[i];
            assert(self.accounts@.skip(i as int)[0] == self.accounts@[i as int]);
            if str_eq(entry.0.as_str(), account_name) {
                assert(find_account(self.accounts@.skip(i as int), want) == Some(entry.1@));
                return Ok(entry.1.as_str());
            }
            assert(self.accounts@.skip(i as int).drop_first() =~= self.accounts@.skip(i + 1));
            i += 1;
        }
        assert(self.accounts@.skip(i as int).len() == 0);
        Err(Error::AccountNotFound(String::from_str(account_name)))
    }

    /// The path of the token file of an account (or of the default account), with a leading
    /// `~` expanded to the home directory.
    pub fn token_file(&self, name: Option<&str>) -> (r: Result<String, Error>)
        ensures
            match find_account(self.accounts@, self.selected(name)) {
                Some(p) => r matches Ok(s) && (!home_relative(p) ==> s@ == p) && (home_relative(p) ==> (s@ == p
                    || exists|h: Seq<char>| s@ == h + p.drop_first())),
                None => r matches Err(Error::AccountNotFound(m)) && m@ == self.selected(name),
            },
    {
        let p = self.get_token_path(name)?;
        Ok(expand_home(p))
    }

    /// List all configured account names, in the order of the configuration.
    pub fn account_names(&self) -> (r: Vec<&str>)
        ensures
            r@.len() == self.accounts@.len(),
            forall|i: int| 0 <= i < r@.len() ==> (#[trigger] r@[i])@ == self.accounts@[i].0@,
    {
        let mut out: Vec<&str> = Vec::new();
        let mut i: usize = 0;
        while i < self.accounts.len()
            invariant
                i <= self.accounts@.len(),
                out@.len() == i,
                forall|j: int| 0 <= j < i ==> (#[trigger] out@[j])@ == self.accounts@[j].0@,
            decreases self.accounts@.len() - i,
        {
            out.push(self.accounts[i].0.as_str());
            i += 1;
        }
        out
    }
}

impl Default for Config {
    fn default() -> (r: Config)
        ensures
            r.default_account@ == "default"@,
            r.accounts@.len() == 0,
            r.logging.level@ == Seq::<char>::empty(),
            r.logging.file is None,
    {
        Config {
            default_account: default_account(),
            accounts: Vec::new(),
            logging: LogConfig { level: String::new(), file: None },
        }
    }
}

} // verus!
