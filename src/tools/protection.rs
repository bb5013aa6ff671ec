//! Branch protection operations.
use vstd::prelude::*;

use crate::args::{arg_chars, push_arg, push_lit};
use crate::error::{message_of, Error};
use crate::text::{cat, cat3};
use crate::tools::{make_repo_path, repo_path};

verus! {

/// Request parameters for reading the protection of a branch.
#[derive(Debug, Clone, PartialEq, Eq)]
pub struct GetBranchProtectionRequest {
    pub account: Option<String>,
    pub owner: String,
    pub repo: String,
    pub branch: String,
}

/// Status checks that must pass before merging.
#[derive(Debug, Clone, PartialEq, Eq)]
pub struct RequiredStatusChecks {
    /// Whether branches must be up to date before merging.
    pub strict: Option<bool>,
    /// Names of the required checks.
    pub contexts: Option<Vec<String>>,
}

/// Review requirements for pull requests.
#[derive(Debug, Clone, PartialEq, Eq)]
pub struct RequiredPullRequestReviews {
    pub required_approving_review_count: Option<u32>,
    pub dismiss_stale_reviews: Option<bool>,
    pub require_code_owner_reviews: Option<bool>,
}

/// Request parameters for setting the protection of a branch.
#[derive(Debug, Clone, PartialEq, Eq)]
pub struct SetBranchProtectionRequest {
    pub account: Option<String>,
    pub owner: String,
    pub repo: String,
    pub branch: String,
    pub required_status_checks: Option<RequiredStatusChecks>,
    /// Whether the rules bind administrators too.
    pub enforce_admins: Option<bool>,
    pub required_pull_request_reviews: Option<RequiredPullRequestReviews>,
    pub restrictions: Option<bool>,
    pub required_signatures: Option<bool>,
    pub required_linear_history: Option<bool>,
    pub allow_force_pushes: Option<bool>,
    pub allow_deletions: Option<bool>,
}

/// Request parameters for removing the protection of a branch.
#[derive(Debug, Clone, PartialEq, Eq)]
pub struct DeleteBranchProtectionRequest {
    pub account: Option<String>,
    pub owner: String,
    pub repo: String,
    pub branch: String,
}

/// The REST path of the protection of `branch`.
pub open spec fn protection_path(owner: Seq<char>, repo: Seq<char>, branch: Seq<char>) -> Seq<char> {
    repo_path(owner, repo, "/branches/"@ + branch + "/protection"@)
}

/// The REST path of the protection of `branch`.
pub fn make_protection_path(owner: &str, repo: &str, branch: &str) -> (r: String)
    ensures
        r@ == protection_path(owner@, repo@, branch@),
{
    let tail = cat3("/branches/", branch, "/protection");
    make_repo_path(owner, repo, tail.as_str())
}

/// The note with which an update of branch protection reports a failure of the tool: the
/// update still answers with success, saying what went wrong.
pub open spec fn protection_note(e: Error) -> Seq<char> {
    "Branch protection update attempted. Note: Full protection settings may require direct API access. Error details: "@
        + message_of(e)
}

/// The note that reports a failed update of branch protection.
pub fn make_protection_note(e: &Error) -> (r: String)
    ensures
        r@ == protection_note(*e),
{
    let m = e.message();
    cat(
        "Branch protection update attempted. Note: Full protection settings may require direct API access. Error details: ",
        m.as_str(),
    )
}

impl GetBranchProtectionRequest {
    pub open spec fn arg_list(&self) -> Seq<Seq<char>> {
        seq!["api"@, protection_path(self.owner@, self.repo@, self.branch@)]
    }

    /// The arguments for `gh`.
    pub fn args(&self) -> (r: Vec<String>)
        ensures
            arg_chars(r) == self.arg_list(),
    {
        let mut a: Vec<String> = Vec::new();
        push_lit(&mut a, "api");
        push_arg(&mut a, make_protection_path(self.owner.as_str(), self.repo.as_str(), self.branch.as_str()));
        assert(arg_chars(a) =~= self.arg_list());
        a
    }
}

impl SetBranchProtectionRequest {
    /// The `enforce_admins` field: the flag as given, false where absent.
    pub open spec fn admins_field(&self) -> Seq<char> {
        if self.enforce_admins == Some(true) {
            "enforce_admins=true"@
        } else {
            "enforce_admins=false"@
        }
    }

    pub open spec fn arg_list(&self) -> Seq<Seq<char>> {
        seq![
            "api"@,
            "-X"@,
            "PUT"@,
            protection_path(self.owner@, self.repo@, self.branch@),
            "-H"@,
            "Accept: application/vnd.github+json"@,
            "-f"@,
            self.admins_field(),
        ]
    }

    /// The arguments for `gh`.
    pub fn args(&self) -> (r: Vec<String>)
        ensures
            arg_chars(r) == self.arg_list(),
    {
        let mut a: Vec<String> = Vec::new();
        push_lit(&mut a, "api");
        push_lit(&mut a, "-X");
        push_lit(&mut a, "PUT");
        push_arg(&mut a, make_protection_path(self.owner.as_str(), self.repo.as_str(), self.branch.as_str()));
        push_lit(&mut a, "-H");
        push_lit(&mut a, "Accept: application/vnd.github+json");
        push_lit(&mut a, "-f");
        match self.enforce_admins {
            Some(true) => push_lit(&mut a, "enforce_admins=true"),
            _ => push_lit(&mut a, "enforce_admins=false"),
        }
        assert(arg_chars(a) =~= self.arg_list());
        a
    }
}

impl DeleteBranchProtectionRequest {
    pub open spec fn arg_list(&self) -> Seq<Seq<char>> {
        seq!["api"@, "-X"@, "DELETE"@, protection_path(self.owner@, self.repo@, self.branch@)]
    }

    /// The arguments for `gh`.
    pub fn args(&self) -> (r: Vec<String>)
        ensures
            arg_chars(r) == self.arg_list(),
    {
        let mut a: Vec<String> = Vec::new();
        push_lit(&mut a, "api");
        push_lit(&mut a, "-X");
        push_lit(&mut a, "DELETE");
        push_arg(&mut a, make_protection_path(self.owner.as_str(), self.repo.as_str(), self.branch.as_str()));
        assert(arg_chars(a) =~= self.arg_list());
        a
    }

    /// The confirmation once the protection is gone.
    pub open spec fn done_text(&self) -> Seq<char> {
        "Branch protection removed from '"@ + self.branch@ + "'"@
    }

    /// The confirmation once the protection is gone.
    pub fn done_message(&self) -> (r: String)
        ensures
            r@ == self.done_text(),
    {
        cat3("Branch protection removed from '", self.branch.as_str(), "'")
    }
}

} // verus!
