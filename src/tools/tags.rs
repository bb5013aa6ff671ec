//! Tag operations.
use vstd::prelude::*;

use crate::args::{arg_chars, push_arg, push_lit};
use crate::error::Error;
use crate::gh::Payload;
use crate::json::{json_string_at, string_at};
use crate::text::{cat, cat3, decimal, to_decimal};
use crate::tools::branches::{
    branch_ref_args, create_ref_args, make_branch_ref_args, make_create_ref_args,
};
use crate::tools::{make_repo_path, repo_path};

verus! {

/// Request parameters for listing tags.
#[derive(Debug, Clone, PartialEq, Eq)]
pub struct ListTagsRequest {
    pub account: Option<String>,
    pub owner: String,
    pub repo: String,
    pub limit: Option<u32>,
}

/// Request parameters for creating a tag.
#[derive(Debug, Clone, PartialEq, Eq)]
pub struct CreateTagRequest {
    pub account: Option<String>,
    pub owner: String,
    pub repo: String,
    /// Name of the tag (e.g. "v1.0.0").
    pub tag: String,
    /// Commit to tag; the tip of the default branch if not given.
    pub sha: Option<String>,
    /// Message of the tag.
    pub message: Option<String>,
}

/// Request parameters for deleting a tag.
#[derive(Debug, Clone, PartialEq, Eq)]
pub struct DeleteTagRequest {
    pub account: Option<String>,
    pub owner: String,
    pub repo: String,
    pub tag: String,
}

/// The string at `pointer` of a structured result, or `fallback`.
pub open spec fn field_or(result: Payload, pointer: Seq<char>, fallback: Seq<char>) -> Seq<char> {
    match result {
        Payload::Json(doc) => match json_string_at(doc@, pointer) {
            Some(s) => s,
            None => fallback,
        },
        _ => fallback,
    }
}

/// The string at `pointer` of a structured result, or `fallback`.
pub fn get_field_or(result: &Payload, pointer: &str, fallback: &str) -> (r: String)
    ensures
        r@ == field_or(*result, pointer@, fallback@),
{
    match result {
        Payload::Json(doc) => match string_at(doc.as_str(), pointer) {
            Some(s) => s,
            None => String::from_str(fallback),
        },
        _ => String::from_str(fallback),
    }
}

/// The branch whose tip is tagged, from the repository lookup: its `default_branch`, or
/// `main` where the reply names none or the tool failed.
pub open spec fn default_branch_after(lookup: Result<Payload, Error>) -> Seq<char> {
    match lookup {
        Ok(p) => field_or(p, "/default_branch"@, "main"@),
        Err(_) => "main"@,
    }
}

/// The branch whose tip is tagged, from the repository lookup.
pub fn default_branch_from(lookup: &Result<Payload, Error>) -> (r: String)
    ensures
        r@ == default_branch_after(*lookup),
{
    match lookup {
        Ok(p) => get_field_or(p, "/default_branch", "main"),
        Err(_) => String::from_str("main"),
    }
}

/// The commit to tag, from the lookup of the tip of `branch`: its object id (empty where the
/// reply names none), or the branch name itself, taken as the identifier, where the tool
/// failed.
pub open spec fn tag_target_after(branch: Seq<char>, lookup: Result<Payload, Error>) -> Seq<char> {
    match lookup {
        Ok(p) => field_or(p, "/object/sha"@, ""@),
        Err(_) => branch,
    }
}

/// The commit to tag, from the lookup of the tip of `branch`.
pub fn tag_target_from(branch: &str, lookup: &Result<Payload, Error>) -> (r: String)
    ensures
        r@ == tag_target_after(branch@, *lookup),
{
    match lookup {
        Ok(p) => get_field_or(p, "/object/sha", ""),
        Err(_) => String::from_str(branch),
    }
}

impl ListTagsRequest {
    pub open spec fn arg_list(&self) -> Seq<Seq<char>> {
        seq![
            "api"@,
            repo_path(self.owner@, self.repo@, "/tags"@) + match self.limit {
                Some(n) => "?per_page="@ + decimal(n as nat),
                None => seq![],
            },
        ]
    }

    /// The arguments for `gh`.
    pub fn args(&self) -> (r: Vec<String>)
        ensures
            arg_chars(r) == self.arg_list(),
    {
        let mut a: Vec<String> = Vec::new();
        push_lit(&mut a, "api");
        let mut endpoint = make_repo_path(self.owner.as_str(), self.repo.as_str(), "/tags");
        let ghost base = endpoint@;
        if let Some(n) = self.limit {
            let d = to_decimal(n as u64);
            endpoint.append("?per_page=");
            endpoint.append(d.as_str());
            assert(endpoint@ =~= base + ("?per_page="@ + decimal(n as nat)));
        } else {
            assert(endpoint@ =~= base + Seq::<char>::empty());
        }
        push_arg(&mut a, endpoint);
        assert(arg_chars(a) =~= self.arg_list());
        a
    }
}

impl CreateTagRequest {
    /// The lookup of the repository, for its default branch.
    pub open spec fn repo_arg_list(&self) -> Seq<Seq<char>> {
        seq!["api"@, repo_path(self.owner@, self.repo@, ""@)]
    }

    /// The arguments of the lookup of the repository.
    pub fn repo_args(&self) -> (r: Vec<String>)
        ensures
            arg_chars(r) == self.repo_arg_list(),
    {
        let mut a: Vec<String> = Vec::new();
        push_lit(&mut a, "api");
        push_arg(&mut a, make_repo_path(self.owner.as_str(), self.repo.as_str(), ""));
        assert(arg_chars(a) =~= self.repo_arg_list());
        a
    }

    /// The lookup of the tip of `branch`.
    pub open spec fn ref_arg_list(&self, branch: Seq<char>) -> Seq<Seq<char>> {
        branch_ref_args(self.owner@, self.repo@, branch)
    }

    /// The arguments of the lookup of the tip of `branch`.
    pub fn ref_args(&self, branch: &str) -> (r: Vec<String>)
        ensures
            arg_chars(r) == self.ref_arg_list(branch@),
    {
        make_branch_ref_args(self.owner.as_str(), self.repo.as_str(), branch)
    }

    /// The creation of the tag at commit `sha`.
    pub open spec fn create_arg_list(&self, sha: Seq<char>) -> Seq<Seq<char>> {
        create_ref_args(self.owner@, self.repo@, "refs/tags/"@ + self.tag@, sha)
    }

    /// The arguments that create the tag at commit `sha`.
    pub fn create_args(&self, sha: &str) -> (r: Vec<String>)
        ensures
            arg_chars(r) == self.create_arg_list(sha@),
    {
        let ref_name = cat("refs/tags/", self.tag.as_str());
        make_create_ref_args(self.owner.as_str(), self.repo.as_str(), ref_name.as_str(), sha)
    }
}

impl DeleteTagRequest {
    pub open spec fn arg_list(&self) -> Seq<Seq<char>> {
        seq!["api"@, "-X"@, "DELETE"@, repo_path(self.owner@, self.repo@, "/git/refs/tags/"@ + self.tag@)]
    }

    /// The arguments for `gh`.
    pub fn args(&self) -> (r: Vec<String>)
        ensures
            arg_chars(r) == self.arg_list(),
    {
        let mut a: Vec<String> = Vec::new();
        push_lit(&mut a, "api");
        push_lit(&mut a, "-X");
        push_lit(&mut a, "DELETE");
        let tail = cat("/git/refs/tags/", self.tag.as_str());
        push_arg(&mut a, make_repo_path(self.owner.as_str(), self.repo.as_str(), tail.as_str()));
        assert(arg_chars(a) =~= self.arg_list());
        a
    }

    /// The confirmation once the tag is gone.
    pub open spec fn done_text(&self) -> Seq<char> {
        "Tag '"@ + self.tag@ + "' deleted successfully"@
    }

    /// The confirmation once the tag is gone.
    pub fn done_message(&self) -> (r: String)
        ensures
            r@ == self.done_text(),
    {
        cat3("Tag '", self.tag.as_str(), "' deleted successfully")
    }
}

} // verus!
