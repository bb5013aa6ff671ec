//! Branch operations.
use vstd::prelude::*;

use crate::args::{arg_chars, push_arg, push_lit};
use crate::error::Error;
use crate::gh::Payload;
use crate::json::{json_string_at, string_at};
use crate::text::{cat, cat3};
use crate::tools::{make_repo_path, repo_path};

verus! {

/// Request parameters for listing branches.
#[derive(Debug, Clone, PartialEq, Eq)]
pub struct ListBranchesRequest {
    pub account: Option<String>,
    pub owner: String,
    pub repo: String,
}

/// Request parameters for creating a branch.
#[derive(Debug, Clone, PartialEq, Eq)]
pub struct CreateBranchRequest {
    pub account: Option<String>,
    pub owner: String,
    pub repo: String,
    /// Name of the new branch.
    pub branch: String,
    /// Branch name or commit id to branch from (`HEAD` if not given).
    pub from: Option<String>,
}

/// Request parameters for deleting a branch.
#[derive(Debug, Clone, PartialEq, Eq)]
pub struct DeleteBranchRequest {
    pub account: Option<String>,
    pub owner: String,
    pub repo: String,
    pub branch: String,
}

/// The commit id that a lookup of a branch reference gave, or `fallback` where the lookup
/// failed or gave none: the name is then taken for a commit id itself.
pub open spec fn sha_after_lookup(fallback: Seq<char>, lookup: Result<Payload, Error>) -> Seq<char> {
    match lookup {
        Ok(Payload::Json(doc)) => match json_string_at(doc@, "/object/sha"@) {
            Some(s) => s,
            None => fallback,
        },
        _ => fallback,
    }
}

/// The commit id from a branch-reference lookup, or `fallback`.
pub fn sha_from_lookup(fallback: &str, lookup: &Result<Payload, Error>) -> (r: String)
    ensures
        r@ == sha_after_lookup(fallback@, *lookup),
{
    match lookup {
        Ok(Payload::Json(doc)) => match string_at(doc.as_str(), "/object/sha") {
            Some(s) => s,
            None => String::from_str(fallback),
        },
        _ => String::from_str(fallback),
    }
}

/// The arguments that create the reference `ref_name` at commit `sha`.
pub open spec fn create_ref_args(owner: Seq<char>, repo: Seq<char>, ref_name: Seq<char>, sha: Seq<char>) -> Seq<Seq<char>> {
    seq![
        "api"@,
        "-X"@,
        "POST"@,
        repo_path(owner, repo, "/git/refs"@),
        "-f"@,
        "ref="@ + ref_name,
        "-f"@,
        "sha="@ + sha,
    ]
}

/// The arguments that create the reference `ref_name` at commit `sha`.
pub fn make_create_ref_args(owner: &str, repo: &str, ref_name: &str, sha: &str) -> (r: Vec<String>)
    ensures
        arg_chars(r) == create_ref_args(owner@, repo@, ref_name@, sha@),
{
    let mut a: Vec<String> = Vec::new();
    push_lit(&mut a, "api");
    push_lit(&mut a, "-X");
    push_lit(&mut a, "POST");
    push_arg(&mut a, make_repo_path(owner, repo, "/git/refs"));
    push_lit(&mut a, "-f");
    push_arg(&mut a, cat("ref=", ref_name));
    push_lit(&mut a, "-f");
    push_arg(&mut a, cat("sha=", sha));
    assert(arg_chars(a) =~= create_ref_args(owner@, repo@, ref_name@, sha@));
    a
}

/// The arguments that look up the branch reference `branch`.
pub open spec fn branch_ref_args(owner: Seq<char>, repo: Seq<char>, branch: Seq<char>) -> Seq<Seq<char>> {
    seq!["api"@, repo_path(owner, repo, "/git/ref/heads/"@ + branch)]
}

/// The arguments that look up the branch reference `branch`.
pub fn make_branch_ref_args(owner: &str, repo: &str, branch: &str) -> (r: Vec<String>)
    ensures
        arg_chars(r) == branch_ref_args(owner@, repo@, branch@),
{
    let mut a: Vec<String> = Vec::new();
    push_lit(&mut a, "api");
    let tail = cat("/git/ref/heads/", branch);
    push_arg(&mut a, make_repo_path(owner, repo, tail.as_str()));
    assert(arg_chars(a) =~= branch_ref_args(owner@, repo@, branch@));
    a
}

impl ListBranchesRequest {
    pub open spec fn arg_list(&self) -> Seq<Seq<char>> {
        seq!["api"@, repo_path(self.owner@, self.repo@, "/branches"@)]
    }

    /// The arguments for `gh`.
    pub fn args(&self) -> (r: Vec<String>)
        ensures
            arg_chars(r) == self.arg_list(),
    {
        let mut a: Vec<String> = Vec::new();
        push_lit(&mut a, "api");
        push_arg(&mut a, make_repo_path(self.owner.as_str(), self.repo.as_str(), "/branches"));
        assert(arg_chars(a) =~= self.arg_list());
        a
    }
}

impl CreateBranchRequest {
    /// What the branch starts from, as given: a branch name or a commit id.
    pub open spec fn source(&self) -> Seq<char> {
        match self.from {
            Some(f) => f@,
            None => "HEAD"@,
        }
    }

    /// What the branch starts from.
    pub fn source_name(&self) -> (r: String)
        ensures
            r@ == self.source(),
    {
        match &self.from {
            Some(f) => f.clone(),
            None => String::from_str("HEAD"),
        }
    }

    /// The lookup of the commit id behind the source.
    pub open spec fn lookup_arg_list(&self) -> Seq<Seq<char>> {
        branch_ref_args(self.owner@, self.repo@, self.source())
    }

    /// The arguments of the lookup of the commit id behind the source.
    pub fn lookup_args(&self) -> (r: Vec<String>)
        ensures
            arg_chars(r) == self.lookup_arg_list(),
    {
        let s = self.source_name();
        make_branch_ref_args(self.owner.as_str(), self.repo.as_str(), s.as_str())
    }

    /// The creation of the branch at commit `sha`.
    pub open spec fn create_arg_list(&self, sha: Seq<char>) -> Seq<Seq<char>> {
        create_ref_args(self.owner@, self.repo@, "refs/heads/"@ + self.branch@, sha)
    }

    /// The arguments that create the branch at commit `sha`.
    pub fn create_args(&self, sha: &str) -> (r: Vec<String>)
        ensures
            arg_chars(r) == self.create_arg_list(sha@),
    {
        let ref_name = cat("refs/heads/", self.branch.as_str());
        make_create_ref_args(self.owner.as_str(), self.repo.as_str(), ref_name.as_str(), sha)
    }
}

impl DeleteBranchRequest {
    pub open spec fn arg_list(&self) -> Seq<Seq<char>> {
        seq!["api"@, "-X"@, "DELETE"@, repo_path(self.owner@, self.repo@, "/git/refs/heads/"@ + self.branch@)]
    }

    /// The arguments for `gh`.
    pub fn args(&self) -> (r: Vec<String>)
        ensures
            arg_chars(r) == self.arg_list(),
    {
        let mut a: Vec<String> = Vec::new();
        push_lit(&mut a, "api");
        push_lit(&mut a, "-X");
        push_lit(&mut a, "DELETE");
        let tail = cat("/git/refs/heads/", self.branch.as_str());
        push_arg(&mut a, make_repo_path(self.owner.as_str(), self.repo.as_str(), tail.as_str()));
        assert(arg_chars(a) =~= self.arg_list());
        a
    }

    /// The confirmation once the branch is gone.
    pub open spec fn done_text(&self) -> Seq<char> {
        "Branch '"@ + self.branch@ + "' deleted successfully"@
    }

    /// The confirmation once the branch is gone.
    pub fn done_message(&self) -> (r: String)
        ensures
            r@ == self.done_text(),
    {
        cat3("Branch '", self.branch.as_str(), "' deleted successfully")
    }
}

} // verus!
