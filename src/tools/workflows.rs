//! Workflow run and artifact operations.
use vstd::prelude::*;

use crate::args::{arg_chars, opt_arg, opt_num, push_arg, push_lit, push_num, push_opt};
use crate::text::{cat3, decimal, to_decimal};
use crate::tools::{make_repo_path, make_slug, repo_path, slug};

verus! {

/// Request parameters for listing workflow runs.
#[derive(Debug, Clone, PartialEq, Eq)]
pub struct ListWorkflowRunsRequest {
    pub account: Option<String>,
    pub owner: String,
    pub repo: String,
    /// Workflow name or file.
    pub workflow: Option<String>,
    pub branch: Option<String>,
    /// Run status (e.g. "completed", "in_progress").
    pub status: Option<String>,
    pub limit: Option<u32>,
}

/// Request parameters for listing the artifacts of a run.
#[derive(Debug, Clone, PartialEq, Eq)]
pub struct ListRunArtifactsRequest {
    pub account: Option<String>,
    pub owner: String,
    pub repo: String,
    pub run_id: u64,
}

/// Request parameters for downloading the artifacts of a run.
#[derive(Debug, Clone, PartialEq, Eq)]
pub struct DownloadRunArtifactRequest {
    pub account: Option<String>,
    pub owner: String,
    pub repo: String,
    pub run_id: u64,
    /// Name of one artifact (all if not given).
    pub name: Option<String>,
    /// Directory to download to.
    pub dir: Option<String>,
}

impl ListWorkflowRunsRequest {
    pub open spec fn arg_list(&self) -> Seq<Seq<char>> {
        seq!["run"@, "list"@, "--repo"@, slug(self.owner@, self.repo@)] + opt_arg(
            "--workflow="@,
            self.workflow,
        ) + opt_arg("--branch="@, self.branch) + opt_arg("--status="@, self.status) + opt_num(
            "--limit"@,
            self.limit,
        ) + seq![
            "--json"@,
            "databaseId,workflowName,status,conclusion,headBranch,event,createdAt,url"@,
        ]
    }

    /// The arguments for `gh`.
    pub fn args(&self) -> (r: Vec<String>)
        ensures
            arg_chars(r) == self.arg_list(),
    {
        let mut a: Vec<String> = Vec::new();
        push_lit(&mut a, "run");
        push_lit(&mut a, "list");
        push_lit(&mut a, "--repo");
        push_arg(&mut a, make_slug(self.owner.as_str(), self.repo.as_str()));
        push_opt(&mut a, "--workflow=", &self.workflow);
        push_opt(&mut a, "--branch=", &self.branch);
        push_opt(&mut a, "--status=", &self.status);
        push_num(&mut a, "--limit", self.limit);
        push_lit(&mut a, "--json");
        push_lit(&mut a, "databaseId,workflowName,status,conclusion,headBranch,event,createdAt,url");
        assert(arg_chars(a) =~= self.arg_list());
        a
    }
}

impl ListRunArtifactsRequest {
    pub open spec fn arg_list(&self) -> Seq<Seq<char>> {
        seq![
            "api"@,
            repo_path(
                self.owner@,
                self.repo@,
                "/actions/runs/"@ + decimal(self.run_id as nat) + "/artifacts"@,
            ),
        ]
    }

    /// The arguments for `gh`.
    pub fn args(&self) -> (r: Vec<String>)
        ensures
            arg_chars(r) == self.arg_list(),
    {
        let mut a: Vec<String> = Vec::new();
        push_lit(&mut a, "api");
        let id = to_decimal(self.run_id);
        let tail = cat3("/actions/runs/", id.as_str(), "/artifacts");
        push_arg(&mut a, make_repo_path(self.owner.as_str(), self.repo.as_str(), tail.as_str()));
        assert(arg_chars(a) =~= self.arg_list());
        a
    }
}

impl DownloadRunArtifactRequest {
    pub open spec fn arg_list(&self) -> Seq<Seq<char>> {
        seq!["run"@, "download"@, decimal(self.run_id as nat), "--repo"@, slug(self.owner@, self.repo@)]
            + opt_arg("--name="@, self.name) + opt_arg("--dir="@, self.dir)
    }

    /// The arguments for `gh`.
    pub fn args(&self) -> (r: Vec<String>)
        ensures
            arg_chars(r) == self.arg_list(),
    {
        let mut a: Vec<String> = Vec::new();
        push_lit(&mut a, "run");
        push_lit(&mut a, "download");
        push_arg(&mut a, to_decimal(self.run_id));
        push_lit(&mut a, "--repo");
        push_arg(&mut a, make_slug(self.owner.as_str(), self.repo.as_str()));
        push_opt(&mut a, "--name=", &self.name);
        push_opt(&mut a, "--dir=", &self.dir);
        assert(arg_chars(a) =~= self.arg_list());
        a
    }
}

} // verus!
