//! Release operations.
use vstd::prelude::*;

use crate::args::{
    arg_chars, opt_arg, opt_num, opt_switch, push_arg, push_lit, push_num, push_opt, push_switch,
};
use crate::tools::{make_slug, slug};

verus! {

/// Request parameters for listing releases.
#[derive(Debug, Clone, PartialEq, Eq)]
pub struct ListReleasesRequest {
    pub account: Option<String>,
    pub owner: String,
    pub repo: String,
    pub limit: Option<u32>,
}

/// Request parameters for viewing a release.
#[derive(Debug, Clone, PartialEq, Eq)]
pub struct GetReleaseRequest {
    pub account: Option<String>,
    pub owner: String,
    pub repo: String,
    /// Release tag (e.g. "v1.0.0").
    pub tag: String,
}

/// Request parameters for creating a release.
#[derive(Debug, Clone, PartialEq, Eq)]
pub struct CreateReleaseRequest {
    pub account: Option<String>,
    pub owner: String,
    pub repo: String,
    pub tag: String,
    pub title: Option<String>,
    /// Release notes (Markdown).
    pub notes: Option<String>,
    /// Commit or branch to tag (the default branch if not given).
    pub target: Option<String>,
    pub draft: Option<bool>,
    pub prerelease: Option<bool>,
    /// Generate the notes from the commits.
    pub generate_notes: Option<bool>,
}

/// Request parameters for deleting a release.
#[derive(Debug, Clone, PartialEq, Eq)]
pub struct DeleteReleaseRequest {
    pub account: Option<String>,
    pub owner: String,
    pub repo: String,
    pub tag: String,
    /// Delete the git tag too.
    pub delete_tag: Option<bool>,
}

/// Request parameters for listing the assets of a release.
#[derive(Debug, Clone, PartialEq, Eq)]
pub struct ListReleaseAssetsRequest {
    pub account: Option<String>,
    pub owner: String,
    pub repo: String,
    pub tag: String,
}

/// Request parameters for downloading the assets of a release.
#[derive(Debug, Clone, PartialEq, Eq)]
pub struct DownloadReleaseAssetRequest {
    pub account: Option<String>,
    pub owner: String,
    pub repo: String,
    pub tag: String,
    /// Glob pattern of the assets (e.g. "*.tar.gz").
    pub pattern: Option<String>,
    /// Directory to download to.
    pub dir: Option<String>,
}

/// The arguments `release <verb> <tag> --repo owner/repo`.
pub open spec fn release_head(verb: Seq<char>, tag: Seq<char>, owner: Seq<char>, repo: Seq<char>) -> Seq<Seq<char>> {
    seq!["release"@, verb, tag, "--repo"@, slug(owner, repo)]
}

/// The arguments `release <verb> <tag> --repo owner/repo`.
pub fn make_release_head(verb: &str, tag: &str, owner: &str, repo: &str) -> (r: Vec<String>)
    ensures
        arg_chars(r) == release_head(verb@, tag@, owner@, repo@),
{
    let mut a: Vec<String> = Vec::new();
    push_lit(&mut a, "release");
    push_lit(&mut a, verb);
    push_lit(&mut a, tag);
    push_lit(&mut a, "--repo");
    push_arg(&mut a, make_slug(owner, repo));
    assert(arg_chars(a) =~= release_head(verb@, tag@, owner@, repo@));
    a
}

impl ListReleasesRequest {
    pub open spec fn arg_list(&self) -> Seq<Seq<char>> {
        seq!["release"@, "list"@, "--repo"@, slug(self.owner@, self.repo@)] + opt_num("--limit"@, self.limit)
    }

    /// The arguments for `gh`.
    pub fn args(&self) -> (r: Vec<String>)
        ensures
            arg_chars(r) == self.arg_list(),
    {
        let mut a: Vec<String> = Vec::new();
        push_lit(&mut a, "release");
        push_lit(&mut a, "list");
        push_lit(&mut a, "--repo");
        push_arg(&mut a, make_slug(self.owner.as_str(), self.repo.as_str()));
        push_num(&mut a, "--limit", self.limit);
        assert(arg_chars(a) =~= self.arg_list());
        a
    }
}

impl GetReleaseRequest {
    pub open spec fn arg_list(&self) -> Seq<Seq<char>> {
        release_head("view"@, self.tag@, self.owner@, self.repo@) + seq![
            "--json"@,
            "tagName,name,body,author,createdAt,publishedAt,isDraft,isPrerelease,assets,url"@,
        ]
    }

    /// The arguments for `gh`.
    pub fn args(&self) -> (r: Vec<String>)
        ensures
            arg_chars(r) == self.arg_list(),
    {
        let mut a = make_release_head("view", self.tag.as_str(), self.owner.as_str(), self.repo.as_str());
        push_lit(&mut a, "--json");
        push_lit(&mut a, "tagName,name,body,author,createdAt,publishedAt,isDraft,isPrerelease,assets,url");
        assert(arg_chars(a) =~= self.arg_list());
        a
    }
}

impl CreateReleaseRequest {
    pub open spec fn arg_list(&self) -> Seq<Seq<char>> {
        release_head("create"@, self.tag@, self.owner@, self.repo@) + opt_arg("--title="@, self.title)
            + opt_arg("--notes="@, self.notes) + opt_arg("--target="@, self.target) + opt_switch(
            "--draft"@,
            self.draft,
        ) + opt_switch("--prerelease"@, self.prerelease) + opt_switch(
            "--generate-notes"@,
            self.generate_notes,
        )
    }

    /// The arguments for `gh`.
    pub fn args(&self) -> (r: Vec<String>)
        ensures
            arg_chars(r) == self.arg_list(),
    {
        let mut a = make_release_head("create", self.tag.as_str(), self.owner.as_str(), self.repo.as_str());
        push_opt(&mut a, "--title=", &self.title);
        push_opt(&mut a, "--notes=", &self.notes);
        push_opt(&mut a, "--target=", &self.target);
        push_switch(&mut a, "--draft", self.draft);
        push_switch(&mut a, "--prerelease", self.prerelease);
        push_switch(&mut a, "--generate-notes", self.generate_notes);
        assert(arg_chars(a) =~= self.arg_list());
        a
    }
}

impl DeleteReleaseRequest {
    pub open spec fn arg_list(&self) -> Seq<Seq<char>> {
        release_head("delete"@, self.tag@, self.owner@, self.repo@) + seq!["--yes"@] + opt_switch(
            "--cleanup-tag"@,
            self.delete_tag,
        )
    }

    /// The arguments for `gh`.
    pub fn args(&self) -> (r: Vec<String>)
        ensures
            arg_chars(r) == self.arg_list(),
    {
        let mut a = make_release_head("delete", self.tag.as_str(), self.owner.as_str(), self.repo.as_str());
        push_lit(&mut a, "--yes");
        push_switch(&mut a, "--cleanup-tag", self.delete_tag);
        assert(arg_chars(a) =~= self.arg_list());
        a
    }
}

impl ListReleaseAssetsRequest {
    pub open spec fn arg_list(&self) -> Seq<Seq<char>> {
        release_head("view"@, self.tag@, self.owner@, self.repo@) + seq!["--json"@, "assets"@]
    }

    /// The arguments for `gh`.
    pub fn args(&self) -> (r: Vec<String>)
        ensures
            arg_chars(r) == self.arg_list(),
    {
        let mut a = make_release_head("view", self.tag.as_str(), self.owner.as_str(), self.repo.as_str());
        push_lit(&mut a, "--json");
        push_lit(&mut a, "assets");
        assert(arg_chars(a) =~= self.arg_list());
        a
    }
}

impl DownloadReleaseAssetRequest {
    pub open spec fn arg_list(&self) -> Seq<Seq<char>> {
        release_head("download"@, self.tag@, self.owner@, self.repo@) + opt_arg("--pattern="@, self.pattern)
            + opt_arg("--dir="@, self.dir)
    }

    /// The arguments for `gh`.
    pub fn args(&self) -> (r: Vec<String>)
        ensures
            arg_chars(r) == self.arg_list(),
    {
        let mut a = make_release_head("download", self.tag.as_str(), self.owner.as_str(), self.repo.as_str());
        push_opt(&mut a, "--pattern=", &self.pattern);
        push_opt(&mut a, "--dir=", &self.dir);
        assert(arg_chars(a) =~= self.arg_list());
        a
    }
}

} // verus!
