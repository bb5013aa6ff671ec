//! The operation table: for each operation, the runs of `gh` it asks for and the result it
//! gives, as a function of the request and of the outcomes of the runs made so far.
use vstd::prelude::*;

use crate::args::{arg_chars, opt_arg};
use crate::error::Error;
use crate::gh::{OutputMode, Payload};
use crate::tools::account::GetMeRequest;
use crate::tools::branches::{
    sha_after_lookup, sha_from_lookup, CreateBranchRequest, DeleteBranchRequest, ListBranchesRequest,
};
use crate::tools::code::{decoded_content, file_reply, GetFileRequest, ListCommitsRequest, SearchCodeRequest};
use crate::tools::protection::{
    make_protection_note, protection_note, DeleteBranchProtectionRequest, GetBranchProtectionRequest,
    SetBranchProtectionRequest,
};
use crate::tools::prs::{
    ClosePrRequest, CommentPrRequest, CreatePrRequest, EditPrRequest, GetPrDiffRequest, GetPrFilesRequest,
    GetPrRequest, ListPrsRequest, MergePrRequest, SearchPrsRequest,
};
use crate::tools::releases::{
    CreateReleaseRequest, DeleteReleaseRequest, DownloadReleaseAssetRequest, GetReleaseRequest,
    ListReleaseAssetsRequest, ListReleasesRequest,
};
use crate::tools::repos::{ArchiveRepoRequest, CreateRepoRequest, GetRepoRequest, ListReposRequest};
use crate::tools::tags::{
    default_branch_after, default_branch_from, tag_target_after, tag_target_from, CreateTagRequest,
    DeleteTagRequest, ListTagsRequest,
};
use crate::tools::workflows::{DownloadRunArtifactRequest, ListRunArtifactsRequest, ListWorkflowRunsRequest};

verus! {

/// One operation with its typed parameters.
#[derive(Debug, Clone, PartialEq, Eq)]
pub enum Operation {
    GetMe(GetMeRequest),
    CreateRepo(CreateRepoRequest),
    ListRepos(ListReposRequest),
    GetRepo(GetRepoRequest),
    ArchiveRepo(ArchiveRepoRequest),
    ListBranches(ListBranchesRequest),
    CreateBranch(CreateBranchRequest),
    DeleteBranch(DeleteBranchRequest),
    GetBranchProtection(GetBranchProtectionRequest),
    SetBranchProtection(SetBranchProtectionRequest),
    DeleteBranchProtection(DeleteBranchProtectionRequest),
    GetPr(GetPrRequest),
    GetPrDiff(GetPrDiffRequest),
    GetPrFiles(GetPrFilesRequest),
    ListPrs(ListPrsRequest),
    SearchPrs(SearchPrsRequest),
    CreatePr(CreatePrRequest),
    EditPr(EditPrRequest),
    MergePr(MergePrRequest),
    ClosePr(ClosePrRequest),
    CommentPr(CommentPrRequest),
    GetFile(GetFileRequest),
    SearchCode(SearchCodeRequest),
    ListCommits(ListCommitsRequest),
    ListReleases(ListReleasesRequest),
    GetRelease(GetReleaseRequest),
    CreateRelease(CreateReleaseRequest),
    DeleteRelease(DeleteReleaseRequest),
    ListReleaseAssets(ListReleaseAssetsRequest),
    DownloadReleaseAsset(DownloadReleaseAssetRequest),
    ListTags(ListTagsRequest),
    CreateTag(CreateTagRequest),
    DeleteTag(DeleteTagRequest),
    ListWorkflowRuns(ListWorkflowRunsRequest),
    ListRunArtifacts(ListRunArtifactsRequest),
    DownloadRunArtifact(DownloadRunArtifactRequest),
}

/// One run of `gh` that an operation asks for.
#[derive(Debug, Clone, PartialEq, Eq)]
pub struct Command {
    /// Whose token the run uses (the default account if none).
    pub account: Option<String>,
    pub args: Vec<String>,
    pub mode: OutputMode,
}

/// What an operation does next: run `gh` once more, or answer.
#[derive(Debug, PartialEq, Eq)]
pub enum Step {
    Run(Command),
    Done(Result<Payload, Error>),
}

/// What an operation does next, in terms of views.
pub enum Plan {
    /// Run `gh` with these arguments, read in this mode.
    Run(Seq<Seq<char>>, OutputMode),
    /// Answer with the outcome of the run of that index, as it is.
    Pass(nat),
    /// Answer with this text.
    Reply(Seq<char>),
}

/// Whether the outcome of a run ends the call with its error: a credential that cannot be
/// had (unknown account, missing, unreadable or blank token file). Any other failure of a
/// lookup is met with its fallback.
pub open spec fn ends_call(r: Result<Payload, Error>) -> bool {
    match r {
        Err(Error::AccountNotFound(_)) => true,
        Err(Error::TokenNotFound(_)) => true,
        Err(Error::TokenRead(_)) => true,
        _ => false,
    }
}

/// Whether the outcome of a run ends the call with its error.
fn stops_call(r: &Result<Payload, Error>) -> (b: bool)
    ensures
        b == ends_call(*r),
{
    match r {
        Err(Error::AccountNotFound(_)) => true,
        Err(Error::TokenNotFound(_)) => true,
        Err(Error::TokenRead(_)) => true,
        _ => false,
    }
}

/// A single run, whose outcome is the answer.
pub open spec fn single(args: Seq<Seq<char>>, mode: OutputMode, results: Seq<Result<Payload, Error>>) -> Plan {
    if results.len() == 0 {
        Plan::Run(args, mode)
    } else {
        Plan::Pass(0)
    }
}

/// A single run that removes something: on success the answer is a confirmation.
pub open spec fn removal(args: Seq<Seq<char>>, done: Seq<char>, results: Seq<Result<Payload, Error>>) -> Plan {
    if results.len() == 0 {
        Plan::Run(args, OutputMode::Structured)
    } else if results[0] is Ok {
        Plan::Reply(done)
    } else {
        Plan::Pass(0)
    }
}

/// A copy of an optional string.
fn copy_opt(o: &Option<String>) -> (r: Option<String>)
    ensures
        r == *o,
{
    match o {
        Some(s) => Some(s.clone()),
        None => None,
    }
}

impl Operation {
    /// The account the operation runs with.
    pub open spec fn account_of(&self) -> Option<String> {
        match self {
            Operation::GetMe(r) => r.account,
            Operation::CreateRepo(r) => r.account,
            Operation::ListRepos(r) => r.account,
            Operation::GetRepo(r) => r.account,
            Operation::ArchiveRepo(r) => r.account,
            Operation::ListBranches(r) => r.account,
            Operation::CreateBranch(r) => r.account,
            Operation::DeleteBranch(r) => r.account,
            Operation::GetBranchProtection(r) => r.account,
            Operation::SetBranchProtection(r) => r.account,
            Operation::DeleteBranchProtection(r) => r.account,
            Operation::GetPr(r) => r.account,
            Operation::GetPrDiff(r) => r.account,
            Operation::GetPrFiles(r) => r.account,
            Operation::ListPrs(r) => r.account,
            Operation::SearchPrs(r) => r.account,
            Operation::CreatePr(r) => r.account,
            Operation::EditPr(r) => r.account,
            Operation::MergePr(r) => r.account,
            Operation::ClosePr(r) => r.account,
            Operation::CommentPr(r) => r.account,
            Operation::GetFile(r) => r.account,
            Operation::SearchCode(r) => r.account,
            Operation::ListCommits(r) => r.account,
            Operation::ListReleases(r) => r.account,
            Operation::GetRelease(r) => r.account,
            Operation::CreateRelease(r) => r.account,
            Operation::DeleteRelease(r) => r.account,
            Operation::ListReleaseAssets(r) => r.account,
            Operation::DownloadReleaseAsset(r) => r.account,
            Operation::ListTags(r) => r.account,
            Operation::CreateTag(r) => r.account,
            Operation::DeleteTag(r) => r.account,
            Operation::ListWorkflowRuns(r) => r.account,
            Operation::ListRunArtifacts(r) => r.account,
            Operation::DownloadRunArtifact(r) => r.account,
        }
    }

    /// The account the operation runs with.
    pub fn account(&self) -> (r: Option<String>)
        ensures
            r == self.account_of(),
    {
        match self {
            Operation::GetMe(r) => copy_opt(&r.account),
            Operation::CreateRepo(r) => copy_opt(&r.account),
            Operation::ListRepos(r) => copy_opt(&r.account),
            Operation::GetRepo(r) => copy_opt(&r.account),
            Operation::ArchiveRepo(r) => copy_opt(&r.account),
            Operation::ListBranches(r) => copy_opt(&r.account),
            Operation::CreateBranch(r) => copy_opt(&r.account),
            Operation::DeleteBranch(r) => copy_opt(&r.account),
            Operation::GetBranchProtection(r) => copy_opt(&r.account),
            Operation::SetBranchProtection(r) => copy_opt(&r.account),
            Operation::DeleteBranchProtection(r) => copy_opt(&r.account),
            Operation::GetPr(r) => copy_opt(&r.account),
            Operation::GetPrDiff(r) => copy_opt(&r.account),
            Operation::GetPrFiles(r) => copy_opt(&r.account),
            Operation::ListPrs(r) => copy_opt(&r.account),
            Operation::SearchPrs(r) => copy_opt(&r.account),
            Operation::CreatePr(r) => copy_opt(&r.account),
            Operation::EditPr(r) => copy_opt(&r.account),
            Operation::MergePr(r) => copy_opt(&r.account),
            Operation::ClosePr(r) => copy_opt(&r.account),
            Operation::CommentPr(r) => copy_opt(&r.account),
            Operation::GetFile(r) => copy_opt(&r.account),
            Operation::SearchCode(r) => copy_opt(&r.account),
            Operation::ListCommits(r) => copy_opt(&r.account),
            Operation::ListReleases(r) => copy_opt(&r.account),
            Operation::GetRelease(r) => copy_opt(&r.account),
            Operation::CreateRelease(r) => copy_opt(&r.account),
            Operation::DeleteRelease(r) => copy_opt(&r.account),
            Operation::ListReleaseAssets(r) => copy_opt(&r.account),
            Operation::DownloadReleaseAsset(r) => copy_opt(&r.account),
            Operation::ListTags(r) => copy_opt(&r.account),
            Operation::CreateTag(r) => copy_opt(&r.account),
            Operation::DeleteTag(r) => copy_opt(&r.account),
            Operation::ListWorkflowRuns(r) => copy_opt(&r.account),
            Operation::ListRunArtifacts(r) => copy_opt(&r.account),
            Operation::DownloadRunArtifact(r) => copy_opt(&r.account),
        }
    }

    /// What the operation does next, given the outcomes of its runs so far.
    pub open spec fn plan(&self, results: Seq<Result<Payload, Error>>) -> Plan {
        let s = OutputMode::Structured;
        match self {
            Operation::GetMe(r) => single(r.arg_list(), s, results),
            Operation::CreateRepo(r) => single(r.arg_list(), s, results),
            Operation::ListRepos(r) => single(r.arg_list(), s, results),
            Operation::GetRepo(r) => single(r.arg_list(), s, results),
            Operation::ArchiveRepo(r) => single(r.arg_list(), s, results),
            Operation::ListBranches(r) => single(r.arg_list(), s, results),
            Operation::CreateBranch(r) => if results.len() == 0 {
                Plan::Run(r.lookup_arg_list(), s)
            } else if ends_call(results[0]) {
                Plan::Pass(0)
            } else if results.len() == 1 {
                Plan::Run(r.create_arg_list(sha_after_lookup(r.source(), results[0])), s)
            } else {
                Plan::Pass(1)
            },
            Operation::DeleteBranch(r) => removal(r.arg_list(), r.done_text(), results),
            Operation::GetBranchProtection(r) => single(r.arg_list(), s, results),
            Operation::SetBranchProtection(r) => if results.len() == 0 {
                Plan::Run(r.arg_list(), s)
            } else {
                match results[0] {
                    Err(Error::GhCli(m)) => Plan::Reply(protection_note(Error::GhCli(m))),
                    _ => Plan::Pass(0),
                }
            },
            Operation::DeleteBranchProtection(r) => removal(r.arg_list(), r.done_text(), results),
            Operation::GetPr(r) => single(r.arg_list(), s, results),
            Operation::GetPrDiff(r) => single(r.arg_list(), OutputMode::RawText, results),
            Operation::GetPrFiles(r) => single(r.arg_list(), s, results),
            Operation::ListPrs(r) => single(r.arg_list(), s, results),
            Operation::SearchPrs(r) => single(r.arg_list(), s, results),
            Operation::CreatePr(r) => single(r.arg_list(), s, results),
            Operation::EditPr(r) => single(r.arg_list(), s, results),
            Operation::MergePr(r) => single(r.arg_list(), s, results),
            Operation::ClosePr(r) => single(r.arg_list(), s, results),
            Operation::CommentPr(r) => single(r.arg_list(), s, results),
            Operation::GetFile(r) => if results.len() == 0 {
                Plan::Run(r.arg_list(), s)
            } else {
                match results[0] {
                    Ok(Payload::Json(doc)) => match decoded_content(doc@) {
                        Some(t) => Plan::Reply(t),
                        None => Plan::Pass(0),
                    },
                    _ => Plan::Pass(0),
                }
            },
            Operation::SearchCode(r) => single(r.arg_list(), s, results),
            Operation::ListCommits(r) => single(r.arg_list(), s, results),
            Operation::ListReleases(r) => single(r.arg_list(), s, results),
            Operation::GetRelease(r) => single(r.arg_list(), s, results),
            Operation::CreateRelease(r) => single(r.arg_list(), s, results),
            Operation::DeleteRelease(r) => single(r.arg_list(), s, results),
            Operation::ListReleaseAssets(r) => single(r.arg_list(), s, results),
            Operation::DownloadReleaseAsset(r) => single(r.arg_list(), s, results),
            Operation::ListTags(r) => single(r.arg_list(), s, results),
            Operation::CreateTag(r) => match r.sha {
                Some(sha) => single(r.create_arg_list(sha@), s, results),
                None => if results.len() == 0 {
                    Plan::Run(r.repo_arg_list(), s)
                } else if ends_call(results[0]) {
                    Plan::Pass(0)
                } else if results.len() == 1 {
                    Plan::Run(r.ref_arg_list(default_branch_after(results[0])), s)
                } else if ends_call(results[1]) {
                    Plan::Pass(1)
                } else if results.len() == 2 {
                    Plan::Run(
                        r.create_arg_list(tag_target_after(default_branch_after(results[0]), results[1])),
                        s,
                    )
                } else {
                    Plan::Pass(2)
                },
            },
            Operation::DeleteTag(r) => removal(r.arg_list(), r.done_text(), results),
            Operation::ListWorkflowRuns(r) => single(r.arg_list(), s, results),
            Operation::ListRunArtifacts(r) => single(r.arg_list(), s, results),
            Operation::DownloadRunArtifact(r) => single(r.arg_list(), s, results),
        }
    }

    /// Whether `step` is what `plan` says, with the operation's account on every run.
    pub open spec fn follows(&self, results: Seq<Result<Payload, Error>>, step: Step) -> bool {
        follows_plan(self.plan(results), self.account_of(), results, step)
    }

    /// What the operation does next, given the outcomes of its runs so far, in order.
    pub fn step(&self, results: Vec<Result<Payload, Error>>) -> (r: Step)
        ensures
            self.follows(results@, r),
    {
        let account = self.account();
        let s = OutputMode::Structured;
        match self {
            Operation::GetMe(r) => single_step(account, r.args(), s, results),
            Operation::CreateRepo(r) => single_step(account, r.args(), s, results),
            Operation::ListRepos(r) => single_step(account, r.args(), s, results),
            Operation::GetRepo(r) => single_step(account, r.args(), s, results),
            Operation::ArchiveRepo(r) => single_step(account, r.args(), s, results),
            Operation::ListBranches(r) => single_step(account, r.args(), s, results),
            Operation::CreateBranch(r) => {
                if results.len() == 0 {
                    run_step(account, r.lookup_args(), s)
                } else if stops_call(&results[0]) {
                    Step::Done(take(results, 0))
                } else if results.len() == 1 {
                    let source = r.source_name();
                    let sha = sha_from_lookup(source.as_str(), &results[0]);
                    run_step(account, r.create_args(sha.as_str()), s)
                } else {
                    Step::Done(take(results, 1))
                }
            },
            Operation::DeleteBranch(r) => removal_step(account, r.args(), r.done_message(), results),
            Operation::GetBranchProtection(r) => single_step(account, r.args(), s, results),
            Operation::SetBranchProtection(r) => {
                if results.len() == 0 {
                    run_step(account, r.args(), s)
                } else {
                    match take(results, 0) {
                        Err(Error::GhCli(m)) => {
                            let e = Error::GhCli(m);
                            Step::Done(Ok(Payload::Text(make_protection_note(&e))))
                        },
                        other => Step::Done(other),
                    }
                }
            },
            Operation::DeleteBranchProtection(r) => removal_step(
                account,
                r.args(),
                r.done_message(),
                results,
            ),
            Operation::GetPr(r) => single_step(account, r.args(), s, results),
            Operation::GetPrDiff(r) => single_step(account, r.args(), OutputMode::RawText, results),
            Operation::GetPrFiles(r) => single_step(account, r.args(), s, results),
            Operation::ListPrs(r) => single_step(account, r.args(), s, results),
            Operation::SearchPrs(r) => single_step(account, r.args(), s, results),
            Operation::CreatePr(r) => single_step(account, r.args(), s, results),
            Operation::EditPr(r) => single_step(account, r.args(), s, results),
            Operation::MergePr(r) => single_step(account, r.args(), s, results),
            Operation::ClosePr(r) => single_step(account, r.args(), s, results),
            Operation::CommentPr(r) => single_step(account, r.args(), s, results),
            Operation::GetFile(r) => {
                if results.len() == 0 {
                    run_step(account, r.args(), s)
                } else {
                    match take(results, 0) {
                        Ok(p) => Step::Done(Ok(file_reply(p))),
                        Err(e) => Step::Done(Err(e)),
                    }
                }
            },
            Operation::SearchCode(r) => single_step(account, r.args(), s, results),
            Operation::ListCommits(r) => single_step(account, r.args(), s, results),
            Operation::ListReleases(r) => single_step(account, r.args(), s, results),
            Operation::GetRelease(r) => single_step(account, r.args(), s, results),
            Operation::CreateRelease(r) => single_step(account, r.args(), s, results),
            Operation::DeleteRelease(r) => single_step(account, r.args(), s, results),
            Operation::ListReleaseAssets(r) => single_step(account, r.args(), s, results),
            Operation::DownloadReleaseAsset(r) => single_step(account, r.args(), s, results),
            Operation::ListTags(r) => single_step(account, r.args(), s, results),
            Operation::CreateTag(r) => match &r.sha {
                Some(sha) => single_step(account, r.create_args(sha.as_str()), s, results),
                None => {
                    if results.len() == 0 {
                        run_step(account, r.repo_args(), s)
                    } else if stops_call(&results[0]) {
                        Step::Done(take(results, 0))
                    } else if results.len() == 1 {
                        let branch = default_branch_from(&results[0]);
                        run_step(account, r.ref_args(branch.as_str()), s)
                    } else if stops_call(&results[1]) {
                        Step::Done(take(results, 1))
                    } else if results.len() == 2 {
                        let branch = default_branch_from(&results[0]);
                        let sha = tag_target_from(branch.as_str(), &results[1]);
                        run_step(account, r.create_args(sha.as_str()), s)
                    } else {
                        Step::Done(take(results, 2))
                    }
                },
            },
            Operation::DeleteTag(r) => removal_step(account, r.args(), r.done_message(), results),
            Operation::ListWorkflowRuns(r) => single_step(account, r.args(), s, results),
            Operation::ListRunArtifacts(r) => single_step(account, r.args(), s, results),
            Operation::DownloadRunArtifact(r) => single_step(account, r.args(), s, results),
        }
    }
}


/// Building the arguments is deterministic: the same operation with the same outcomes so far
/// always asks for the same run, its optional flags in the same order; each optional
/// parameter that is present adds exactly one argument, and an absent one adds none.
pub proof fn flags_are_stable(
    a: Operation,
    b: Operation,
    results: Seq<Result<Payload, Error>>,
    prefix: Seq<char>,
    value: Option<String>,
)
    requires
        a == b,
    ensures
        a.plan(results) == b.plan(results),
        opt_arg(prefix, value).len() == if value is Some { 1int } else { 0int },
        value matches Some(v) ==> opt_arg(prefix, value)[0] == prefix + v@,
{
}

/// Whether `step` carries out `plan` for an operation that runs with `account`.
pub open spec fn follows_plan(
    plan: Plan,
    account: Option<String>,
    results: Seq<Result<Payload, Error>>,
    step: Step,
) -> bool {
    match plan {
        Plan::Run(a, m) => step matches Step::Run(c) && arg_chars(c.args) == a && c.mode == m
            && c.account == account,
        Plan::Pass(i) => i < results.len() && step == Step::Done(results[i as int]),
        Plan::Reply(t) => step matches Step::Done(Ok(Payload::Text(x))) && x@ == t,
    }
}

/// The run of `gh` with `args`.
fn run_step(account: Option<String>, args: Vec<String>, mode: OutputMode) -> (r: Step)
    ensures
        r == Step::Run(Command { account, args, mode }),
{
    Step::Run(Command { account, args, mode })
}

/// The outcome of the run of index `i`.
fn take(results: Vec<Result<Payload, Error>>, i: usize) -> (r: Result<Payload, Error>)
    requires
        i < results@.len(),
    ensures
        r == results@[i as int],
{
    let mut v = results;
    v.swap_remove(i)
}

/// The step of an operation that makes one run and answers with its outcome.
fn single_step(
    account: Option<String>,
    args: Vec<String>,
    mode: OutputMode,
    results: Vec<Result<Payload, Error>>,
) -> (r: Step)
    ensures
        follows_plan(single(arg_chars(args), mode, results@), account, results@, r),
{
    if results.len() == 0 {
        run_step(account, args, mode)
    } else {
        Step::Done(take(results, 0))
    }
}

/// The step of an operation that removes something and confirms it with `done`.
fn removal_step(
    account: Option<String>,
    args: Vec<String>,
    done: String,
    results: Vec<Result<Payload, Error>>,
) -> (r: Step)
    ensures
        follows_plan(removal(arg_chars(args), done@, results@), account, results@, r),
{
    if results.len() == 0 {
        run_step(account, args, OutputMode::Structured)
    } else if results[0].is_ok() {
        Step::Done(Ok(Payload::Text(done)))
    } else {
        Step::Done(take(results, 0))
    }
}

} // verus!
