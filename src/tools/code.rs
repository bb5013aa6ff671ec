//! Code and content operations.
use vstd::prelude::*;

use crate::args::{
    arg_chars, opt_arg, opt_num, opt_num_arg, push_arg, push_lit, push_num, push_opt, push_opt_num,
    query, query_string,
};
use crate::gh::Payload;
use crate::json::{base64_decoded, decode_base64, json_string_at, string_at, utf8_text};
use crate::text::{cat, strip_newlines, without_newlines};
use crate::tools::{make_repo_path, repo_path};

verus! {

/// Request parameters for reading a file of a repository.
#[derive(Debug, Clone, PartialEq, Eq)]
pub struct GetFileRequest {
    pub account: Option<String>,
    pub owner: String,
    pub repo: String,
    /// File path within the repository.
    pub path: String,
    /// Git ref (branch, tag or commit id); the default branch if not given.
    pub git_ref: Option<String>,
}

/// Request parameters for searching code.
#[derive(Debug, Clone, PartialEq, Eq)]
pub struct SearchCodeRequest {
    pub account: Option<String>,
    /// Query in GitHub's code search syntax.
    pub query: String,
    pub limit: Option<u32>,
}

/// Request parameters for listing commits.
#[derive(Debug, Clone, PartialEq, Eq)]
pub struct ListCommitsRequest {
    pub account: Option<String>,
    pub owner: String,
    pub repo: String,
    /// Branch or commit to start from.
    pub sha: Option<String>,
    /// Only commits touching this path.
    pub path: Option<String>,
    /// Only commits by this author.
    pub author: Option<String>,
    pub limit: Option<u32>,
}

/// The text of a file response: the `content` field, once line breaks are taken out, decoded
/// from base64 and read as UTF-8; nothing where one of these steps fails.
pub open spec fn decoded_content(doc: Seq<char>) -> Option<Seq<char>> {
    match json_string_at(doc, "/content"@) {
        Some(c) => match base64_decoded(without_newlines(c)) {
            Some(b) => if vstd::utf8::valid_utf8(b) {
                Some(vstd::utf8::decode_utf8(b))
            } else {
                None
            },
            None => None,
        },
        None => None,
    }
}

/// What a file response becomes: the decoded text where there is one, else the response
/// unchanged.
pub fn file_reply(result: Payload) -> (r: Payload)
    ensures
        match result {
            Payload::Json(doc) => match decoded_content(doc@) {
                Some(t) => r matches Payload::Text(s) && s@ == t,
                None => r == result,
            },
            _ => r == result,
        },
{
    if let Payload::Json(doc) = &result {
        if let Some(content) = string_at(doc.as_str(), "/content") {
            let compact = strip_newlines(content.as_str());
            if let Some(bytes) = decode_base64(compact.as_str()) {
                if let Some(text) = utf8_text(bytes) {
                    return Payload::Text(text);
                }
            }
        }
    }
    result
}

impl GetFileRequest {
    pub open spec fn arg_list(&self) -> Seq<Seq<char>> {
        seq![
            "api"@,
            repo_path(self.owner@, self.repo@, "/contents/"@ + self.path@) + match self.git_ref {
                Some(r) => "?ref="@ + r@,
                None => seq![],
            },
        ]
    }

    /// The arguments for `gh`.
    pub fn args(&self) -> (r: Vec<String>)
        ensures
            arg_chars(r) == self.arg_list(),
    {
        let mut a: Vec<String> = Vec::new();
        push_lit(&mut a, "api");
        let tail = cat("/contents/", self.path.as_str());
        let mut endpoint = make_repo_path(self.owner.as_str(), self.repo.as_str(), tail.as_str());
        let ghost base = endpoint@;
        if let Some(r) = &self.git_ref {
            endpoint.append("?ref=");
            endpoint.append(r.as_str());
        }
        proof {
            if self.git_ref is None {
                assert(endpoint@ =~= base + Seq::<char>::empty());
            } else {
                assert(endpoint@ =~= base + ("?ref="@ + self.git_ref->0@));
            }
        }
        push_arg(&mut a, endpoint);
        assert(arg_chars(a) =~= self.arg_list());
        a
    }
}

impl SearchCodeRequest {
    pub open spec fn arg_list(&self) -> Seq<Seq<char>> {
        seq!["search"@, "code"@, self.query@] + opt_num("--limit"@, self.limit) + seq![
            "--json"@,
            "path,repository,textMatches"@,
        ]
    }

    /// The arguments for `gh`.
    pub fn args(&self) -> (r: Vec<String>)
        ensures
            arg_chars(r) == self.arg_list(),
    {
        let mut a: Vec<String> = Vec::new();
        push_lit(&mut a, "search");
        push_lit(&mut a, "code");
        push_arg(&mut a, self.query.clone());
        push_num(&mut a, "--limit", self.limit);
        push_lit(&mut a, "--json");
        push_lit(&mut a, "path,repository,textMatches");
        assert(arg_chars(a) =~= self.arg_list());
        a
    }
}

impl ListCommitsRequest {
    /// The query parameters, in a fixed order.
    pub open spec fn query_params(&self) -> Seq<Seq<char>> {
        opt_arg("sha="@, self.sha) + opt_arg("path="@, self.path) + opt_arg("author="@, self.author)
            + opt_num_arg("per_page="@, self.limit)
    }

    pub open spec fn arg_list(&self) -> Seq<Seq<char>> {
        seq!["api"@, repo_path(self.owner@, self.repo@, "/commits"@) + query_string(self.query_params())]
    }

    /// The arguments for `gh`.
    pub fn args(&self) -> (r: Vec<String>)
        ensures
            arg_chars(r) == self.arg_list(),
    {
        let mut params: Vec<String> = Vec::new();
        push_opt(&mut params, "sha=", &self.sha);
        push_opt(&mut params, "path=", &self.path);
        push_opt(&mut params, "author=", &self.author);
        push_opt_num(&mut params, "per_page=", self.limit);
        assert(arg_chars(params) =~= self.query_params());
        let q = query(&params);
        let mut a: Vec<String> = Vec::new();
        push_lit(&mut a, "api");
        let mut endpoint = make_repo_path(self.owner.as_str(), self.repo.as_str(), "/commits");
        endpoint.append(q.as_str());
        push_arg(&mut a, endpoint);
        assert(arg_chars(a) =~= self.arg_list());
        a
    }
}

} // verus!
