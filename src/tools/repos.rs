//! Repository operations.
use vstd::prelude::*;

use crate::args::{arg_chars, opt_arg, opt_num, push_arg, push_lit, push_num, push_opt};
use crate::tools::{make_repo_path, make_slug, repo_path, slug};

verus! {

/// Request parameters for creating a repository.
#[derive(Debug, Clone, PartialEq, Eq)]
pub struct CreateRepoRequest {
    pub account: Option<String>,
    /// Name of the repository.
    pub name: String,
    /// Description of the repository.
    pub description: Option<String>,
    /// Whether the repository is private (default: public).
    pub private: Option<bool>,
    /// Organization to create the repository in (personal if not given).
    pub org: Option<String>,
}

/// Request parameters for listing repositories.
#[derive(Debug, Clone, PartialEq, Eq)]
pub struct ListReposRequest {
    pub account: Option<String>,
    /// User or organization (the authenticated user if not given).
    pub owner: Option<String>,
    /// Maximum number of repositories.
    pub limit: Option<u32>,
}

/// Request parameters for viewing a repository.
#[derive(Debug, Clone, PartialEq, Eq)]
pub struct GetRepoRequest {
    pub account: Option<String>,
    pub owner: String,
    pub repo: String,
}

/// Request parameters for archiving a repository.
#[derive(Debug, Clone, PartialEq, Eq)]
pub struct ArchiveRepoRequest {
    pub account: Option<String>,
    pub owner: String,
    pub repo: String,
}

impl CreateRepoRequest {
    pub open spec fn arg_list(&self) -> Seq<Seq<char>> {
        seq!["repo"@, "create"@, self.name@] + opt_arg("--description="@, self.description) + seq![
            if self.private == Some(true) { "--private"@ } else { "--public"@ },
            "--confirm"@,
        ]
    }

    /// The arguments for `gh`.
    pub fn args(&self) -> (r: Vec<String>)
        ensures
            arg_chars(r) == self.arg_list(),
    {
        let mut a: Vec<String> = Vec::new();
        push_lit(&mut a, "repo");
        push_lit(&mut a, "create");
        push_arg(&mut a, self.name.clone());
        push_opt(&mut a, "--description=", &self.description);
        match self.private {
            Some(true) => push_lit(&mut a, "--private"),
            _ => push_lit(&mut a, "--public"),
        }
        push_lit(&mut a, "--confirm");
        assert(arg_chars(a) =~= self.arg_list());
        a
    }
}

impl ListReposRequest {
    pub open spec fn arg_list(&self) -> Seq<Seq<char>> {
        seq!["repo"@, "list"@] + match self.owner {
            Some(o) => seq![o@],
            None => seq![],
        } + opt_num("--limit"@, self.limit) + seq![
            "--json"@,
            "name,description,visibility,updatedAt,url"@,
        ]
    }

    /// The arguments for `gh`.
    pub fn args(&self) -> (r: Vec<String>)
        ensures
            arg_chars(r) == self.arg_list(),
    {
        let mut a: Vec<String> = Vec::new();
        push_lit(&mut a, "repo");
        push_lit(&mut a, "list");
        push_opt(&mut a, "", &self.owner);
        push_num(&mut a, "--limit", self.limit);
        push_lit(&mut a, "--json");
        push_lit(&mut a, "name,description,visibility,updatedAt,url");
        proof {
            reveal_strlit("");
            if self.owner is Some {
                assert(""@ + self.owner->0@ =~= self.owner->0@);
            }
        }
        assert(arg_chars(a) =~= self.arg_list());
        a
    }
}

impl GetRepoRequest {
    pub open spec fn arg_list(&self) -> Seq<Seq<char>> {
        seq![
            "repo"@,
            "view"@,
            slug(self.owner@, self.repo@),
            "--json"@,
            "name,description,visibility,defaultBranchRef,url,createdAt,updatedAt,owner,stargazerCount,forkCount,issues,pullRequests"@,
        ]
    }

    /// The arguments for `gh`.
    pub fn args(&self) -> (r: Vec<String>)
        ensures
            arg_chars(r) == self.arg_list(),
    {
        let mut a: Vec<String> = Vec::new();
        push_lit(&mut a, "repo");
        push_lit(&mut a, "view");
        push_arg(&mut a, make_slug(self.owner.as_str(), self.repo.as_str()));
        push_lit(&mut a, "--json");
        push_lit(
            &mut a,
            "name,description,visibility,defaultBranchRef,url,createdAt,updatedAt,owner,stargazerCount,forkCount,issues,pullRequests",
        );
        assert(arg_chars(a) =~= self.arg_list());
        a
    }
}

impl ArchiveRepoRequest {
    pub open spec fn arg_list(&self) -> Seq<Seq<char>> {
        seq![
            "api"@,
            "-X"@,
            "PATCH"@,
            repo_path(self.owner@, self.repo@, ""@),
            "-f"@,
            "archived=true"@,
        ]
    }

    /// The arguments for `gh`.
    pub fn args(&self) -> (r: Vec<String>)
        ensures
            arg_chars(r) == self.arg_list(),
    {
        let mut a: Vec<String> = Vec::new();
        push_lit(&mut a, "api");
        push_lit(&mut a, "-X");
        push_lit(&mut a, "PATCH");
        push_arg(&mut a, make_repo_path(self.owner.as_str(), self.repo.as_str(), ""));
        push_lit(&mut a, "-f");
        push_lit(&mut a, "archived=true");
        assert(arg_chars(a) =~= self.arg_list());
        a
    }
}

} // verus!
