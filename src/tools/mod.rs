//! Request types of the operations, each with the arguments it makes for `gh`.
use vstd::prelude::*;

pub mod account;
pub mod branches;
pub mod code;
pub mod protection;
pub mod prs;
pub mod releases;
pub mod repos;
pub mod tags;
pub mod teams;
pub mod workflows;

verus! {

/// `owner/repo`.
pub open spec fn slug(owner: Seq<char>, repo: Seq<char>) -> Seq<char> {
    owner + "/"@ + repo
}

/// The REST path of a repository followed by `tail`.
pub open spec fn repo_path(owner: Seq<char>, repo: Seq<char>, tail: Seq<char>) -> Seq<char> {
    "repos/"@ + owner + "/"@ + repo + tail
}

/// `owner/repo`.
pub fn make_slug(owner: &str, repo: &str) -> (r: String)
    ensures
        r@ == slug(owner@, repo@),
{
    let mut s = String::from_str(owner);
    s.append("/");
    s.append(repo);
    s
}

/// The REST path of a repository followed by `tail`.
pub fn make_repo_path(owner: &str, repo: &str, tail: &str) -> (r: String)
    ensures
        r@ == repo_path(owner@, repo@, tail@),
{
    let mut s = String::from_str("repos/");
    s.append(owner);
    s.append("/");
    s.append(repo);
    s.append(tail);
    s
}

} // verus!
