//! Pull request operations.
use vstd::prelude::*;

use crate::args::{
    arg_chars, opt_arg, opt_num, opt_switch, push_arg, push_lit, push_num, push_opt, push_switch,
};
use crate::text::{decimal, str_eq, to_decimal};
use crate::tools::{make_slug, slug};

verus! {

/// Request parameters for viewing a pull request.
#[derive(Debug, Clone, PartialEq, Eq)]
pub struct GetPrRequest {
    pub account: Option<String>,
    pub owner: String,
    pub repo: String,
    pub number: u64,
}

/// Request parameters for the diff of a pull request.
#[derive(Debug, Clone, PartialEq, Eq)]
pub struct GetPrDiffRequest {
    pub account: Option<String>,
    pub owner: String,
    pub repo: String,
    pub number: u64,
}

/// Request parameters for the files of a pull request.
#[derive(Debug, Clone, PartialEq, Eq)]
pub struct GetPrFilesRequest {
    pub account: Option<String>,
    pub owner: String,
    pub repo: String,
    pub number: u64,
}

/// Request parameters for listing pull requests.
#[derive(Debug, Clone, PartialEq, Eq)]
pub struct ListPrsRequest {
    pub account: Option<String>,
    pub owner: String,
    pub repo: String,
    /// "open", "closed", "merged" or "all".
    pub state: Option<String>,
    pub limit: Option<u32>,
    /// Base branch.
    pub base: Option<String>,
    /// Head branch.
    pub head: Option<String>,
}

/// Request parameters for searching pull requests.
#[derive(Debug, Clone, PartialEq, Eq)]
pub struct SearchPrsRequest {
    pub account: Option<String>,
    /// Query in GitHub's search syntax.
    pub query: String,
    pub limit: Option<u32>,
}

/// Request parameters for opening a pull request.
#[derive(Debug, Clone, PartialEq, Eq)]
pub struct CreatePrRequest {
    pub account: Option<String>,
    pub owner: String,
    pub repo: String,
    pub title: String,
    pub body: Option<String>,
    /// Branch with the changes.
    pub head: String,
    /// Branch to merge into (the default branch if not given).
    pub base: Option<String>,
    pub draft: Option<bool>,
}

/// Request parameters for editing a pull request.
#[derive(Debug, Clone, PartialEq, Eq)]
pub struct EditPrRequest {
    pub account: Option<String>,
    pub owner: String,
    pub repo: String,
    pub number: u64,
    pub title: Option<String>,
    pub body: Option<String>,
    pub base: Option<String>,
}

/// Request parameters for merging a pull request.
#[derive(Debug, Clone, PartialEq, Eq)]
pub struct MergePrRequest {
    pub account: Option<String>,
    pub owner: String,
    pub repo: String,
    pub number: u64,
    /// "merge" (the default), "squash" or "rebase".
    pub method: Option<String>,
    /// Delete the head branch once merged.
    pub delete_branch: Option<bool>,
    pub commit_message: Option<String>,
}

/// Request parameters for closing a pull request without merging.
#[derive(Debug, Clone, PartialEq, Eq)]
pub struct ClosePrRequest {
    pub account: Option<String>,
    pub owner: String,
    pub repo: String,
    pub number: u64,
}

/// Request parameters for commenting on a pull request.
#[derive(Debug, Clone, PartialEq, Eq)]
pub struct CommentPrRequest {
    pub account: Option<String>,
    pub owner: String,
    pub repo: String,
    pub number: u64,
    pub body: String,
}

/// The arguments `pr <verb> <number> --repo owner/repo` that open most pull request calls.
pub open spec fn pr_head(verb: Seq<char>, number: u64, owner: Seq<char>, repo: Seq<char>) -> Seq<Seq<char>> {
    seq!["pr"@, verb, decimal(number as nat), "--repo"@, slug(owner, repo)]
}

/// The arguments `pr <verb> <number> --repo owner/repo`.
pub fn make_pr_head(verb: &str, number: u64, owner: &str, repo: &str) -> (r: Vec<String>)
    ensures
        arg_chars(r) == pr_head(verb@, number, owner@, repo@),
{
    let mut a: Vec<String> = Vec::new();
    push_lit(&mut a, "pr");
    push_lit(&mut a, verb);
    push_arg(&mut a, to_decimal(number));
    push_lit(&mut a, "--repo");
    push_arg(&mut a, make_slug(owner, repo));
    assert(arg_chars(a) =~= pr_head(verb@, number, owner@, repo@));
    a
}

/// The switch that selects how a pull request is merged.
pub open spec fn merge_switch(method: Option<String>) -> Seq<char> {
    match method {
        Some(m) => if m@ == "squash"@ {
            "--squash"@
        } else if m@ == "rebase"@ {
            "--rebase"@
        } else {
            "--merge"@
        },
        None => "--merge"@,
    }
}

impl GetPrRequest {
    pub open spec fn arg_list(&self) -> Seq<Seq<char>> {
        pr_head("view"@, self.number, self.owner@, self.repo@) + seq![
            "--json"@,
            "number,title,state,body,author,createdAt,updatedAt,url,headRefName,baseRefName,mergeable,additions,deletions,changedFiles"@,
        ]
    }

    /// The arguments for `gh`.
    pub fn args(&self) -> (r: Vec<String>)
        ensures
            arg_chars(r) == self.arg_list(),
    {
        let mut a = make_pr_head("view", self.number, self.owner.as_str(), self.repo.as_str());
        push_lit(&mut a, "--json");
        push_lit(
            &mut a,
            "number,title,state,body,author,createdAt,updatedAt,url,headRefName,baseRefName,mergeable,additions,deletions,changedFiles",
        );
        assert(arg_chars(a) =~= self.arg_list());
        a
    }
}

impl GetPrDiffRequest {
    pub open spec fn arg_list(&self) -> Seq<Seq<char>> {
        pr_head("diff"@, self.number, self.owner@, self.repo@)
    }

    /// The arguments for `gh`.
    pub fn args(&self) -> (r: Vec<String>)
        ensures
            arg_chars(r) == self.arg_list(),
    {
        make_pr_head("diff", self.number, self.owner.as_str(), self.repo.as_str())
    }
}

impl GetPrFilesRequest {
    pub open spec fn arg_list(&self) -> Seq<Seq<char>> {
        pr_head("view"@, self.number, self.owner@, self.repo@) + seq!["--json"@, "files"@]
    }

    /// The arguments for `gh`.
    pub fn args(&self) -> (r: Vec<String>)
        ensures
            arg_chars(r) == self.arg_list(),
    {
        let mut a = make_pr_head("view", self.number, self.owner.as_str(), self.repo.as_str());
        push_lit(&mut a, "--json");
        push_lit(&mut a, "files");
        assert(arg_chars(a) =~= self.arg_list());
        a
    }
}

impl ListPrsRequest {
    pub open spec fn arg_list(&self) -> Seq<Seq<char>> {
        seq!["pr"@, "list"@, "--repo"@, slug(self.owner@, self.repo@)] + opt_arg("--state="@, self.state)
            + opt_num("--limit"@, self.limit) + opt_arg("--base="@, self.base) + opt_arg(
            "--head="@,
            self.head,
        ) + seq!["--json"@, "number,title,state,author,createdAt,updatedAt,url,headRefName,baseRefName"@]
    }

    /// The arguments for `gh`.
    pub fn args(&self) -> (r: Vec<String>)
        ensures
            arg_chars(r) == self.arg_list(),
    {
        let mut a: Vec<String> = Vec::new();
        push_lit(&mut a, "pr");
        push_lit(&mut a, "list");
        push_lit(&mut a, "--repo");
        push_arg(&mut a, make_slug(self.owner.as_str(), self.repo.as_str()));
        push_opt(&mut a, "--state=", &self.state);
        push_num(&mut a, "--limit", self.limit);
        push_opt(&mut a, "--base=", &self.base);
        push_opt(&mut a, "--head=", &self.head);
        push_lit(&mut a, "--json");
        push_lit(&mut a, "number,title,state,author,createdAt,updatedAt,url,headRefName,baseRefName");
        assert(arg_chars(a) =~= self.arg_list());
        a
    }
}

impl SearchPrsRequest {
    pub open spec fn arg_list(&self) -> Seq<Seq<char>> {
        seq!["search"@, "prs"@, self.query@] + opt_num("--limit"@, self.limit) + seq![
            "--json"@,
            "number,title,state,author,repository,createdAt,updatedAt,url"@,
        ]
    }

    /// The arguments for `gh`.
    pub fn args(&self) -> (r: Vec<String>)
        ensures
            arg_chars(r) == self.arg_list(),
    {
        let mut a: Vec<String> = Vec::new();
        push_lit(&mut a, "search");
        push_lit(&mut a, "prs");
        push_arg(&mut a, self.query.clone());
        push_num(&mut a, "--limit", self.limit);
        push_lit(&mut a, "--json");
        push_lit(&mut a, "number,title,state,author,repository,createdAt,updatedAt,url");
        assert(arg_chars(a) =~= self.arg_list());
        a
    }
}

impl CreatePrRequest {
    pub open spec fn arg_list(&self) -> Seq<Seq<char>> {
        seq![
            "pr"@,
            "create"@,
            "--repo"@,
            slug(self.owner@, self.repo@),
            "--title"@,
            self.title@,
            "--head"@,
            self.head@,
        ] + opt_arg("--body="@, self.body) + opt_arg("--base="@, self.base) + opt_switch(
            "--draft"@,
            self.draft,
        )
    }

    /// The arguments for `gh`.
    pub fn args(&self) -> (r: Vec<String>)
        ensures
            arg_chars(r) == self.arg_list(),
    {
        let mut a: Vec<String> = Vec::new();
        push_lit(&mut a, "pr");
        push_lit(&mut a, "create");
        push_lit(&mut a, "--repo");
        push_arg(&mut a, make_slug(self.owner.as_str(), self.repo.as_str()));
        push_lit(&mut a, "--title");
        push_arg(&mut a, self.title.clone());
        push_lit(&mut a, "--head");
        push_arg(&mut a, self.head.clone());
        push_opt(&mut a, "--body=", &self.body);
        push_opt(&mut a, "--base=", &self.base);
        push_switch(&mut a, "--draft", self.draft);
        assert(arg_chars(a) =~= self.arg_list());
        a
    }
}

impl EditPrRequest {
    pub open spec fn arg_list(&self) -> Seq<Seq<char>> {
        pr_head("edit"@, self.number, self.owner@, self.repo@) + opt_arg("--title="@, self.title)
            + opt_arg("--body="@, self.body) + opt_arg("--base="@, self.base)
    }

    /// The arguments for `gh`.
    pub fn args(&self) -> (r: Vec<String>)
        ensures
            arg_chars(r) == self.arg_list(),
    {
        let mut a = make_pr_head("edit", self.number, self.owner.as_str(), self.repo.as_str());
        push_opt(&mut a, "--title=", &self.title);
        push_opt(&mut a, "--body=", &self.body);
        push_opt(&mut a, "--base=", &self.base);
        assert(arg_chars(a) =~= self.arg_list());
        a
    }
}

impl MergePrRequest {
    pub open spec fn arg_list(&self) -> Seq<Seq<char>> {
        pr_head("merge"@, self.number, self.owner@, self.repo@) + seq![merge_switch(self.method)]
            + opt_switch("--delete-branch"@, self.delete_branch) + opt_arg(
            "--body="@,
            self.commit_message,
        )
    }

    /// The arguments for `gh`.
    pub fn args(&self) -> (r: Vec<String>)
        ensures
            arg_chars(r) == self.arg_list(),
    {
        let mut a = make_pr_head("merge", self.number, self.owner.as_str(), self.repo.as_str());
        match &self.method {
            Some(m) => {
                if str_eq(m.as_str(), "squash") {
                    push_lit(&mut a, "--squash");
                } else if str_eq(m.as_str(), "rebase") {
                    push_lit(&mut a, "--rebase");
                } else {
                    push_lit(&mut a, "--merge");
                }
            },
            None => push_lit(&mut a, "--merge"),
        }
        push_switch(&mut a, "--delete-branch", self.delete_branch);
        push_opt(&mut a, "--body=", &self.commit_message);
        assert(arg_chars(a) =~= self.arg_list());
        a
    }
}

impl ClosePrRequest {
    pub open spec fn arg_list(&self) -> Seq<Seq<char>> {
        pr_head("close"@, self.number, self.owner@, self.repo@)
    }

    /// The arguments for `gh`.
    pub fn args(&self) -> (r: Vec<String>)
        ensures
            arg_chars(r) == self.arg_list(),
    {
        make_pr_head("close", self.number, self.owner.as_str(), self.repo.as_str())
    }
}

impl CommentPrRequest {
    pub open spec fn arg_list(&self) -> Seq<Seq<char>> {
        pr_head("comment"@, self.number, self.owner@, self.repo@) + seq!["--body"@, self.body@]
    }

    /// The arguments for `gh`.
    pub fn args(&self) -> (r: Vec<String>)
        ensures
            arg_chars(r) == self.arg_list(),
    {
        let mut a = make_pr_head("comment", self.number, self.owner.as_str(), self.repo.as_str());
        push_lit(&mut a, "--body");
        push_arg(&mut a, self.body.clone());
        assert(arg_chars(a) =~= self.arg_list());
        a
    }
}

} // verus!
