use multi_account_github_mcp::config::TokenFile;
use multi_account_github_mcp::dispatch::{Command, Operation, Step};
use multi_account_github_mcp::gh::{classify, prepare, CommandOutcome, OutputMode, Payload};
use multi_account_github_mcp::tools::account::GetMeRequest;
use multi_account_github_mcp::tools::branches::{CreateBranchRequest, DeleteBranchRequest, ListBranchesRequest};
use multi_account_github_mcp::tools::code::{file_reply, GetFileRequest, ListCommitsRequest, SearchCodeRequest};
use multi_account_github_mcp::tools::protection::SetBranchProtectionRequest;
use multi_account_github_mcp::tools::prs::{GetPrDiffRequest, ListPrsRequest, MergePrRequest};
use multi_account_github_mcp::tools::releases::CreateReleaseRequest;
use multi_account_github_mcp::tools::repos::{CreateRepoRequest, ListReposRequest};
use multi_account_github_mcp::tools::tags::{CreateTagRequest, ListTagsRequest};
use multi_account_github_mcp::tools::workflows::ListRunArtifactsRequest;
use multi_account_github_mcp::{Config, Error, GhClient, LogConfig};

fn s(x: &str) -> String {
    x.to_string()
}

fn run_of(step: Step) -> Command {
    match step {
        Step::Run(c) => c,
        Step::Done(r) => panic!("expected a run, got {r:?}"),
    }
}

fn json(doc: &str) -> Result<Payload, Error> {
    Ok(Payload::Json(s(doc)))
}

#[test]
fn current_user_with_work_account() {
    let config = Config {
        default_account: s("home"),
        accounts: vec![(s("home"), s("/tokens/home")), (s("work"), s("/tokens/work"))],
        logging: LogConfig::default(),
    };
    let client = GhClient::with_probe(config, true).unwrap();
    let op = Operation::GetMe(GetMeRequest { account: Some(s("work")) });
    let cmd = run_of(op.step(vec![]));
    assert_eq!(cmd.account.as_deref(), Some("work"));
    assert_eq!(cmd.mode, OutputMode::Structured);
    let path = client.token_path(cmd.account.as_deref()).unwrap();
    assert_eq!(path, "/tokens/work");
    let inv = prepare(&path, TokenFile::Contents(s("ghp_abcdef\n")), cmd.args.clone()).unwrap();
    assert_eq!(inv.args, vec!["api", "user"]);
    assert_eq!(inv.env[0], (s("GH_TOKEN"), s("ghp_abcdef")));
    let out = CommandOutcome { success: true, stdout: s("{\"login\":\"octocat\"}\n"), stderr: String::new() };
    let result = classify(cmd.mode, &out);
    assert_eq!(op.step(vec![result]), Step::Done(json("{\"login\":\"octocat\"}\n")));
}

#[test]
fn missing_account_stops_before_any_run() {
    let config = Config {
        default_account: s("home"),
        accounts: vec![(s("home"), s("/tokens/home"))],
        logging: LogConfig::default(),
    };
    let client = GhClient::with_probe(config, true).unwrap();
    let op = Operation::ListBranches(ListBranchesRequest {
        account: Some(s("missing")),
        owner: s("o"),
        repo: s("r"),
    });
    let cmd = run_of(op.step(vec![]));
    assert_eq!(
        client.token_path(cmd.account.as_deref()),
        Err(Error::AccountNotFound(s("missing")))
    );
}

#[test]
fn create_branch_falls_back_to_head() {
    let op = Operation::CreateBranch(CreateBranchRequest {
        account: None,
        owner: s("o"),
        repo: s("r"),
        branch: s("feature/x"),
        from: None,
    });
    let lookup = run_of(op.step(vec![]));
    assert_eq!(lookup.args, vec!["api", "repos/o/r/git/ref/heads/HEAD"]);
    let failed = Err(Error::GhCli(s("HTTP 404: Not Found")));
    let create = run_of(op.step(vec![failed.clone()]));
    assert_eq!(
        create.args,
        vec!["api", "-X", "POST", "repos/o/r/git/refs", "-f", "ref=refs/heads/feature/x", "-f", "sha=HEAD"]
    );
    let done = op.step(vec![failed, json("{\"ref\":\"refs/heads/feature/x\"}")]);
    assert_eq!(done, Step::Done(json("{\"ref\":\"refs/heads/feature/x\"}")));
}

#[test]
fn create_branch_uses_looked_up_sha() {
    let op = Operation::CreateBranch(CreateBranchRequest {
        account: Some(s("work")),
        owner: s("o"),
        repo: s("r"),
        branch: s("b"),
        from: Some(s("main")),
    });
    assert_eq!(run_of(op.step(vec![])).args, vec!["api", "repos/o/r/git/ref/heads/main"]);
    let found = json("{\"object\":{\"sha\":\"abc123\",\"type\":\"commit\"}}");
    let create = run_of(op.step(vec![found]));
    assert_eq!(create.args[7], "sha=abc123");
    assert_eq!(create.account.as_deref(), Some("work"));
}

#[test]
fn file_text_is_decoded() {
    let doc = r#"{"name":"a.txt","content":"aGVsbG8g\nd29ybGQK\n","encoding":"base64"}"#;
    assert_eq!(file_reply(Payload::Json(s(doc))), Payload::Text(s("hello world\n")));
    let op = Operation::GetFile(GetFileRequest {
        account: None,
        owner: s("o"),
        repo: s("r"),
        path: s("a.txt"),
        git_ref: None,
    });
    assert_eq!(op.step(vec![json(doc)]), Step::Done(Ok(Payload::Text(s("hello world\n")))));
}

#[test]
fn binary_or_bad_file_content_keeps_envelope() {
    let binary = r#"{"content":"//4A","encoding":"base64"}"#;
    assert_eq!(file_reply(Payload::Json(s(binary))), Payload::Json(s(binary)));
    let bad = r#"{"content":"!!not base64!!","encoding":"base64"}"#;
    assert_eq!(file_reply(Payload::Json(s(bad))), Payload::Json(s(bad)));
    let none = r#"[{"name":"dir"}]"#;
    assert_eq!(file_reply(Payload::Json(s(none))), Payload::Json(s(none)));
    assert_eq!(file_reply(Payload::Null), Payload::Null);
}

#[test]
fn file_request_with_ref() {
    let req = GetFileRequest {
        account: None,
        owner: s("o"),
        repo: s("r"),
        path: s("src/lib.rs"),
        git_ref: Some(s("v1")),
    };
    assert_eq!(req.args(), vec!["api", "repos/o/r/contents/src/lib.rs?ref=v1"]);
}

#[test]
fn optional_flags_in_fixed_order() {
    let req = ListPrsRequest {
        account: None,
        owner: s("o"),
        repo: s("r"),
        state: Some(s("open")),
        limit: Some(5),
        base: None,
        head: Some(s("topic")),
    };
    let expected = vec![
        "pr",
        "list",
        "--repo",
        "o/r",
        "--state=open",
        "--limit",
        "5",
        "--head=topic",
        "--json",
        "number,title,state,author,createdAt,updatedAt,url,headRefName,baseRefName",
    ];
    assert_eq!(req.args(), expected);
    assert_eq!(req.args(), req.args());
}

#[test]
fn absent_flags_add_nothing() {
    let req = ListPrsRequest {
        account: None,
        owner: s("o"),
        repo: s("r"),
        state: None,
        limit: None,
        base: None,
        head: None,
    };
    assert_eq!(req.args().len(), 6);
}

#[test]
fn list_commits_query() {
    let mut req = ListCommitsRequest {
        account: None,
        owner: s("o"),
        repo: s("r"),
        sha: Some(s("main")),
        path: None,
        author: Some(s("me")),
        limit: Some(10),
    };
    assert_eq!(req.args(), vec!["api", "repos/o/r/commits?sha=main&author=me&per_page=10"]);
    req.sha = None;
    req.author = None;
    req.limit = None;
    assert_eq!(req.args(), vec!["api", "repos/o/r/commits"]);
}

#[test]
fn search_code_limit() {
    let req = SearchCodeRequest { account: None, query: s("fn main"), limit: Some(30) };
    assert_eq!(req.args(), vec!["search", "code", "fn main", "--limit", "30", "--json", "path,repository,textMatches"]);
}

#[test]
fn create_repo_visibility() {
    let mut req = CreateRepoRequest {
        account: None,
        name: s("test-repo"),
        description: Some(s("A repo")),
        private: Some(true),
        org: None,
    };
    assert_eq!(req.args(), vec!["repo", "create", "test-repo", "--description=A repo", "--private", "--confirm"]);
    req.private = None;
    req.description = None;
    assert_eq!(req.args(), vec!["repo", "create", "test-repo", "--public", "--confirm"]);
}

#[test]
fn list_repos_owner_and_limit() {
    let req = ListReposRequest { account: None, owner: Some(s("octo")), limit: Some(100) };
    assert_eq!(
        req.args(),
        vec!["repo", "list", "octo", "--limit", "100", "--json", "name,description,visibility,updatedAt,url"]
    );
}

#[test]
fn merge_methods() {
    let mut req = MergePrRequest {
        account: None,
        owner: s("o"),
        repo: s("r"),
        number: 42,
        method: Some(s("squash")),
        delete_branch: Some(true),
        commit_message: None,
    };
    assert_eq!(req.args(), vec!["pr", "merge", "42", "--repo", "o/r", "--squash", "--delete-branch"]);
    req.method = Some(s("rebase"));
    req.delete_branch = Some(false);
    assert_eq!(req.args(), vec!["pr", "merge", "42", "--repo", "o/r", "--rebase"]);
    req.method = Some(s("other"));
    req.commit_message = Some(s("msg"));
    assert_eq!(req.args(), vec!["pr", "merge", "42", "--repo", "o/r", "--merge", "--body=msg"]);
}

#[test]
fn release_switches() {
    let req = CreateReleaseRequest {
        account: None,
        owner: s("o"),
        repo: s("r"),
        tag: s("v1.0.0"),
        title: Some(s("Release 1.0")),
        notes: None,
        target: None,
        draft: Some(true),
        prerelease: Some(false),
        generate_notes: Some(true),
    };
    assert_eq!(
        req.args(),
        vec!["release", "create", "v1.0.0", "--repo", "o/r", "--title=Release 1.0", "--draft", "--generate-notes"]
    );
}

#[test]
fn tags_limit_and_artifacts_endpoint() {
    let req = ListTagsRequest { account: None, owner: s("o"), repo: s("r"), limit: Some(7) };
    assert_eq!(req.args(), vec!["api", "repos/o/r/tags?per_page=7"]);
    let req = ListRunArtifactsRequest { account: None, owner: s("o"), repo: s("r"), run_id: 123456789 };
    assert_eq!(req.args(), vec!["api", "repos/o/r/actions/runs/123456789/artifacts"]);
}

#[test]
fn diff_is_raw_text() {
    let op = Operation::GetPrDiff(GetPrDiffRequest { account: None, owner: s("o"), repo: s("r"), number: 7 });
    let cmd = run_of(op.step(vec![]));
    assert_eq!(cmd.mode, OutputMode::RawText);
    assert_eq!(cmd.args, vec!["pr", "diff", "7", "--repo", "o/r"]);
    let diff = Ok(Payload::Text(s("+a\n-b\n")));
    assert_eq!(op.step(vec![diff.clone()]), Step::Done(diff));
}

#[test]
fn delete_branch_confirms() {
    let op = Operation::DeleteBranch(DeleteBranchRequest {
        account: None,
        owner: s("o"),
        repo: s("r"),
        branch: s("old"),
    });
    assert_eq!(run_of(op.step(vec![])).args, vec!["api", "-X", "DELETE", "repos/o/r/git/refs/heads/old"]);
    assert_eq!(
        op.step(vec![Ok(Payload::Null)]),
        Step::Done(Ok(Payload::Text(s("Branch 'old' deleted successfully"))))
    );
    let err = Err(Error::GhCli(s("Reference does not exist")));
    assert_eq!(op.step(vec![err.clone()]), Step::Done(err));
}

#[test]
fn branch_protection_degrades_to_note() {
    let op = Operation::SetBranchProtection(SetBranchProtectionRequest {
        account: None,
        owner: s("o"),
        repo: s("r"),
        branch: s("main"),
        required_status_checks: None,
        enforce_admins: Some(true),
        required_pull_request_reviews: None,
        restrictions: None,
        required_signatures: None,
        required_linear_history: None,
        allow_force_pushes: None,
        allow_deletions: None,
    });
    assert_eq!(
        run_of(op.step(vec![])).args,
        vec![
            "api",
            "-X",
            "PUT",
            "repos/o/r/branches/main/protection",
            "-H",
            "Accept: application/vnd.github+json",
            "-f",
            "enforce_admins=true"
        ]
    );
    let step = op.step(vec![Err(Error::GhCli(s("HTTP 422")))]);
    assert_eq!(
        step,
        Step::Done(Ok(Payload::Text(s(
            "Branch protection update attempted. Note: Full protection settings may require direct API access. Error details: gh CLI error: HTTP 422"
        ))))
    );
}

#[test]
fn create_tag_from_default_branch() {
    let op = Operation::CreateTag(CreateTagRequest {
        account: None,
        owner: s("o"),
        repo: s("r"),
        tag: s("v1.0.0"),
        sha: None,
        message: Some(s("Release version 1.0.0")),
    });
    assert_eq!(run_of(op.step(vec![])).args, vec!["api", "repos/o/r"]);
    let repo = json("{\"default_branch\":\"trunk\"}");
    assert_eq!(run_of(op.step(vec![repo.clone()])).args, vec!["api", "repos/o/r/git/ref/heads/trunk"]);
    let head = json("{\"object\":{\"sha\":\"f00\"}}");
    let create = run_of(op.step(vec![repo.clone(), head.clone()]));
    assert_eq!(
        create.args,
        vec!["api", "-X", "POST", "repos/o/r/git/refs", "-f", "ref=refs/tags/v1.0.0", "-f", "sha=f00"]
    );
}

#[test]
fn create_tag_lookups_fall_back_on_tool_errors() {
    let op = Operation::CreateTag(CreateTagRequest {
        account: None,
        owner: s("o"),
        repo: s("r"),
        tag: s("v1.0.0"),
        sha: None,
        message: None,
    });
    let failed = Err(Error::GhCli(s("HTTP 404: Not Found")));
    assert_eq!(run_of(op.step(vec![failed.clone()])).args, vec!["api", "repos/o/r/git/ref/heads/main"]);
    let create = run_of(op.step(vec![failed.clone(), failed.clone()]));
    assert_eq!(
        create.args,
        vec!["api", "-X", "POST", "repos/o/r/git/refs", "-f", "ref=refs/tags/v1.0.0", "-f", "sha=main"]
    );
    let repo = json("{\"default_branch\":\"trunk\"}");
    let create = run_of(op.step(vec![repo, failed.clone()]));
    assert_eq!(create.args[7], "sha=trunk");
    let done = op.step(vec![failed.clone(), failed.clone(), json("{\"ref\":\"refs/tags/v1.0.0\"}")]);
    assert_eq!(done, Step::Done(json("{\"ref\":\"refs/tags/v1.0.0\"}")));
}

#[test]
fn create_tag_credential_errors_end_the_call() {
    let op = Operation::CreateTag(CreateTagRequest {
        account: Some(s("missing")),
        owner: s("o"),
        repo: s("r"),
        tag: s("v1"),
        sha: None,
        message: None,
    });
    let missing = Err(Error::AccountNotFound(s("missing")));
    assert_eq!(op.step(vec![missing.clone()]), Step::Done(missing.clone()));
    let unreadable = Err(Error::TokenRead(s("/t: denied")));
    assert_eq!(op.step(vec![json("{}"), unreadable.clone()]), Step::Done(unreadable));
}

#[test]
fn create_branch_credential_error_ends_the_call() {
    let op = Operation::CreateBranch(CreateBranchRequest {
        account: Some(s("missing")),
        owner: s("o"),
        repo: s("r"),
        branch: s("b"),
        from: None,
    });
    let missing = Err(Error::AccountNotFound(s("missing")));
    assert_eq!(op.step(vec![missing.clone()]), Step::Done(missing));
}

#[test]
fn branch_protection_keeps_credential_errors() {
    let op = Operation::SetBranchProtection(SetBranchProtectionRequest {
        account: Some(s("missing")),
        owner: s("o"),
        repo: s("r"),
        branch: s("main"),
        required_status_checks: None,
        enforce_admins: None,
        required_pull_request_reviews: None,
        restrictions: None,
        required_signatures: None,
        required_linear_history: None,
        allow_force_pushes: None,
        allow_deletions: None,
    });
    assert_eq!(run_of(op.step(vec![])).args[7], "enforce_admins=false");
    let missing = Err(Error::AccountNotFound(s("missing")));
    assert_eq!(op.step(vec![missing.clone()]), Step::Done(missing));
    let malformed = Err(Error::JsonParse(s("x")));
    assert_eq!(op.step(vec![malformed.clone()]), Step::Done(malformed));
    assert_eq!(op.step(vec![Ok(Payload::Null)]), Step::Done(Ok(Payload::Null)));
}

#[test]
fn create_tag_defaults_to_main() {
    let op = Operation::CreateTag(CreateTagRequest {
        account: None,
        owner: s("o"),
        repo: s("r"),
        tag: s("v2"),
        sha: None,
        message: None,
    });
    assert_eq!(
        run_of(op.step(vec![Ok(Payload::Null)])).args,
        vec!["api", "repos/o/r/git/ref/heads/main"]
    );
}

#[test]
fn create_tag_with_sha_is_one_run() {
    let op = Operation::CreateTag(CreateTagRequest {
        account: None,
        owner: s("o"),
        repo: s("r"),
        tag: s("v3"),
        sha: Some(s("beef")),
        message: None,
    });
    assert_eq!(run_of(op.step(vec![])).args[7], "sha=beef");
    assert_eq!(op.step(vec![Ok(Payload::Null)]), Step::Done(Ok(Payload::Null)));
}

#[test]
fn create_branch_falls_back_on_unreadable_lookup() {
    let op = Operation::CreateBranch(CreateBranchRequest {
        account: None,
        owner: s("o"),
        repo: s("r"),
        branch: s("b"),
        from: None,
    });
    let malformed = Err(Error::JsonParse(s("Failed to parse gh output as JSON. Output: <html>")));
    let create = run_of(op.step(vec![malformed]));
    assert_eq!(
        create.args,
        vec!["api", "-X", "POST", "repos/o/r/git/refs", "-f", "ref=refs/heads/b", "-f", "sha=HEAD"]
    );
}

#[test]
fn create_tag_falls_back_on_unreadable_lookups() {
    let op = Operation::CreateTag(CreateTagRequest {
        account: None,
        owner: s("o"),
        repo: s("r"),
        tag: s("v1"),
        sha: None,
        message: None,
    });
    let malformed = Err(Error::JsonParse(s("x")));
    assert_eq!(run_of(op.step(vec![malformed.clone()])).args, vec!["api", "repos/o/r/git/ref/heads/main"]);
    let create = run_of(op.step(vec![malformed.clone(), malformed]));
    assert_eq!(create.args[7], "sha=main");
}
