//! The structured-query side of the transport: the query documents sent to
//! the single query endpoint, the variable objects that accompany them, and
//! the normalization of caller-supplied state tokens into the filter sets
//! the query language understands.
use vstd::prelude::*;
use vstd::string::StringExecFns;

use crate::text::{ascii_lower, eq_ignore_case};
use crate::value::{Val, ValModel, fields_model, spec_opt_str, group_val_model, opt_view};

verus! {

/// The issue filter set for a state token, compared without regard to ASCII
/// case: `open`, `closed` and `all` select their sets; anything else falls
/// back to the open-only set.
pub open spec fn spec_issue_states(state: Seq<char>) -> Seq<char> {
    if ascii_lower(state) == "open"@ {
        "[OPEN]"@
    } else if ascii_lower(state) == "closed"@ {
        "[CLOSED]"@
    } else if ascii_lower(state) == "all"@ {
        "[OPEN, CLOSED]"@
    } else {
        "[OPEN]"@
    }
}

/// The pull-request filter set for a state token; `merged` is a filter of
/// its own here, and `all` includes it.
pub open spec fn spec_pr_states(state: Seq<char>) -> Seq<char> {
    if ascii_lower(state) == "open"@ {
        "[OPEN]"@
    } else if ascii_lower(state) == "closed"@ {
        "[CLOSED]"@
    } else if ascii_lower(state) == "merged"@ {
        "[MERGED]"@
    } else if ascii_lower(state) == "all"@ {
        "[OPEN, CLOSED, MERGED]"@
    } else {
        "[OPEN]"@
    }
}

/// A lower-case ASCII literal folds to itself; stated for the tokens the
/// filters compare against.
proof fn lemma_lower_tokens()
    ensures
        ascii_lower("open"@) == "open"@,
        ascii_lower("closed"@) == "closed"@,
        ascii_lower("merged"@) == "merged"@,
        ascii_lower("all"@) == "all"@,
{
    reveal_strlit("open");
    reveal_strlit("closed");
    reveal_strlit("merged");
    reveal_strlit("all");
    assert(ascii_lower("open"@) =~= "open"@);
    assert(ascii_lower("closed"@) =~= "closed"@);
    assert(ascii_lower("merged"@) =~= "merged"@);
    assert(ascii_lower("all"@) =~= "all"@);
}

/// Every state token resolves to a defined filter set, and a token outside
/// the recognized ones resolves to the open-only set rather than failing.
pub proof fn lemma_state_filter_total(state: Seq<char>)
    ensures
        spec_issue_states(state) == "[OPEN]"@ || spec_issue_states(state) == "[CLOSED]"@
            || spec_issue_states(state) == "[OPEN, CLOSED]"@,
        spec_pr_states(state) == "[OPEN]"@ || spec_pr_states(state) == "[CLOSED]"@
            || spec_pr_states(state) == "[MERGED]"@ || spec_pr_states(state)
            == "[OPEN, CLOSED, MERGED]"@,
        !(ascii_lower(state) == "open"@ || ascii_lower(state) == "closed"@ || ascii_lower(state)
            == "all"@) ==> spec_issue_states(state) == "[OPEN]"@,
        !(ascii_lower(state) == "open"@ || ascii_lower(state) == "closed"@ || ascii_lower(state)
            == "merged"@ || ascii_lower(state) == "all"@) ==> spec_pr_states(state) == "[OPEN]"@,
{
}

/// Normalizes a state token into the issue filter set.
pub fn issue_states_filter(state: &str) -> (r: &'static str)
    ensures
        r@ == spec_issue_states(state@),
{
    proof {
        lemma_lower_tokens();
    }
    if eq_ignore_case(state, "open") {
        "[OPEN]"
    } else if eq_ignore_case(state, "closed") {
        "[CLOSED]"
    } else if eq_ignore_case(state, "all") {
        "[OPEN, CLOSED]"
    } else {
        "[OPEN]"
    }
}

/// Normalizes a state token into the pull-request filter set.
pub fn pr_states_filter(state: &str) -> (r: &'static str)
    ensures
        r@ == spec_pr_states(state@),
{
    proof {
        lemma_lower_tokens();
    }
    if eq_ignore_case(state, "open") {
        "[OPEN]"
    } else if eq_ignore_case(state, "closed") {
        "[CLOSED]"
    } else if eq_ignore_case(state, "merged") {
        "[MERGED]"
    } else if eq_ignore_case(state, "all") {
        "[OPEN, CLOSED, MERGED]"
    } else {
        "[OPEN]"
    }
}

/// The request body for a structured-query call: the query document, and
/// the variables when there are any.
pub open spec fn spec_request_body(query: Seq<char>, variables: Option<ValModel>) -> ValModel {
    match variables {
        Some(v) => ValModel::Obj(seq![("query"@, ValModel::Str(query)), ("variables"@, v)]),
        None => ValModel::Obj(seq![("query"@, ValModel::Str(query))]),
    }
}

/// Builds the request body value for a query and optional variables.
pub fn request_body(query: &str, variables: Option<Val>) -> (r: Val)
    ensures
        r@ == spec_request_body(query@, opt_view(variables)),
{
    broadcast use group_val_model;

    let mut fs: Vec<(String, Val)> = Vec::new();
    fs.push(("query".to_owned(), Val::str_of(query)));
    match variables {
        Some(v) => {
            let ghost vg = v@;
            fs.push(("variables".to_owned(), v));
            let r = Val::Obj(fs);
            proof {
                assert(fs@.len() == 2);
                assert(r@ == ValModel::Obj(fields_model(fs@)));
                assert(r@->Obj_0 =~= spec_request_body(query@, Some(vg))->Obj_0);
            }
            r
        },
        None => {
            let r = Val::Obj(fs);
            proof {
                assert(fs@.len() == 1);
                assert(r@ == ValModel::Obj(fields_model(fs@)));
                assert(r@->Obj_0 =~= spec_request_body(query@, None)->Obj_0);
            }
            r
        },
    }
}

/// The variables of the repository-list query.
pub open spec fn spec_repos_variables(limit: int) -> ValModel {
    ValModel::Obj(seq![("first"@, ValModel::Int(limit))])
}

/// Builds the variables for the repository-list query.
pub fn repos_variables(limit: i32) -> (r: Val)
    ensures
        r@ == spec_repos_variables(limit as int),
{
    broadcast use group_val_model;

    let mut fs: Vec<(String, Val)> = Vec::new();
    fs.push(("first".to_owned(), Val::Int(limit as i64)));
    let r = Val::Obj(fs);
    proof {
        assert(fs@.len() == 1);
        assert(r@ == ValModel::Obj(fields_model(fs@)));
        assert(r@->Obj_0 =~= spec_repos_variables(limit as int)->Obj_0);
    }
    r
}

/// The variables of the issue-list and pull-request-list queries.
pub open spec fn spec_list_variables(owner: Seq<char>, name: Seq<char>, limit: int) -> ValModel {
    ValModel::Obj(
        seq![
            ("owner"@, ValModel::Str(owner)),
            ("name"@, ValModel::Str(name)),
            ("first"@, ValModel::Int(limit)),
        ],
    )
}

/// Builds the variables for a repository-scoped list query.
pub fn list_variables(owner: &str, name: &str, limit: i32) -> (r: Val)
    ensures
        r@ == spec_list_variables(owner@, name@, limit as int),
{
    broadcast use group_val_model;

    let mut fs: Vec<(String, Val)> = Vec::new();
    fs.push(("owner".to_owned(), Val::str_of(owner)));
    fs.push(("name".to_owned(), Val::str_of(name)));
    fs.push(("first".to_owned(), Val::Int(limit as i64)));
    let r = Val::Obj(fs);
    proof {
        assert(fs@.len() == 3);
        assert(r@ == ValModel::Obj(fields_model(fs@)));
        assert(r@->Obj_0 =~= spec_list_variables(owner@, name@, limit as int)->Obj_0);
    }
    r
}

/// The variables of the single-pull-request query.
pub open spec fn spec_pr_variables(owner: Seq<char>, name: Seq<char>, number: int) -> ValModel {
    ValModel::Obj(
        seq![
            ("owner"@, ValModel::Str(owner)),
            ("name"@, ValModel::Str(name)),
            ("number"@, ValModel::Int(number)),
        ],
    )
}

/// Builds the variables for the single-pull-request query.
pub fn pr_variables(owner: &str, name: &str, number: i32) -> (r: Val)
    ensures
        r@ == spec_pr_variables(owner@, name@, number as int),
{
    broadcast use group_val_model;

    let mut fs: Vec<(String, Val)> = Vec::new();
    fs.push(("owner".to_owned(), Val::str_of(owner)));
    fs.push(("name".to_owned(), Val::str_of(name)));
    fs.push(("number".to_owned(), Val::Int(number as i64)));
    let r = Val::Obj(fs);
    proof {
        assert(fs@.len() == 3);
        assert(r@ == ValModel::Obj(fields_model(fs@)));
        assert(r@->Obj_0 =~= spec_pr_variables(owner@, name@, number as int)->Obj_0);
    }
    r
}

/// The variables of the repository-id query.
pub open spec fn spec_repo_id_variables(owner: Seq<char>, name: Seq<char>) -> ValModel {
    ValModel::Obj(seq![("owner"@, ValModel::Str(owner)), ("name"@, ValModel::Str(name))])
}

/// Builds the variables for the repository-id query.
pub fn repo_id_variables(owner: &str, name: &str) -> (r: Val)
    ensures
        r@ == spec_repo_id_variables(owner@, name@),
{
    broadcast use group_val_model;

    let mut fs: Vec<(String, Val)> = Vec::new();
    fs.push(("owner".to_owned(), Val::str_of(owner)));
    fs.push(("name".to_owned(), Val::str_of(name)));
    let r = Val::Obj(fs);
    proof {
        assert(fs@.len() == 2);
        assert(r@ == ValModel::Obj(fields_model(fs@)));
        assert(r@->Obj_0 =~= spec_repo_id_variables(owner@, name@)->Obj_0);
    }
    r
}

/// The variables of the issue-creation mutation: the body is passed through
/// as an optional string.
pub open spec fn spec_create_issue_variables(
    repo_id: Seq<char>,
    title: Seq<char>,
    body: Option<Seq<char>>,
) -> ValModel {
    ValModel::Obj(
        seq![
            ("repositoryId"@, ValModel::Str(repo_id)),
            ("title"@, ValModel::Str(title)),
            ("body"@, spec_opt_str(body)),
        ],
    )
}

/// Builds the variables for the issue-creation mutation.
pub fn create_issue_variables(repo_id: &str, title: &str, body: &Option<String>) -> (r: Val)
    ensures
        r@ == spec_create_issue_variables(repo_id@, title@, opt_view(*body)),
{
    broadcast use group_val_model;

    let mut fs: Vec<(String, Val)> = Vec::new();
    fs.push(("repositoryId".to_owned(), Val::str_of(repo_id)));
    fs.push(("title".to_owned(), Val::str_of(title)));
    fs.push(("body".to_owned(), Val::opt_str_of(body)));
    let r = Val::Obj(fs);
    proof {
        assert(fs@.len() == 3);
        assert(r@ == ValModel::Obj(fields_model(fs@)));
        assert(r@->Obj_0 =~= spec_create_issue_variables(repo_id@, title@, opt_view(*body))->Obj_0);
    }
    r
}

/// The fixed query documents, each a function of nothing; the two list
/// queries take their filter set inline, so they are built by concatenation.
pub fn viewer_login_query() -> (r: &'static str)
    ensures
        r@ == "query { viewer { login } }"@,
{
    "query { viewer { login } }"
}

/// The current-user query including the email field, which needs an
/// elevated permission scope.
pub fn user_query_with_email() -> (r: &'static str)
    ensures
        r@
            == "query { viewer { login name email avatarUrl bio company location websiteUrl twitterUsername repositories { totalCount } followers { totalCount } following { totalCount } createdAt } }"@,
{
    "query { viewer { login name email avatarUrl bio company location websiteUrl twitterUsername repositories { totalCount } followers { totalCount } following { totalCount } createdAt } }"
}

/// The reduced current-user query, without the email field: what the
/// scope fallback sends.
pub fn user_query_without_email() -> (r: &'static str)
    ensures
        r@
            == "query { viewer { login name avatarUrl bio company location websiteUrl twitterUsername repositories { totalCount } followers { totalCount } following { totalCount } createdAt } }"@,
{
    "query { viewer { login name avatarUrl bio company location websiteUrl twitterUsername repositories { totalCount } followers { totalCount } following { totalCount } createdAt } }"
}

/// The repository-list query.
pub fn repos_query() -> (r: &'static str)
    ensures
        r@
            == "query($first: Int!) { viewer { repositories(first: $first, orderBy: {field: UPDATED_AT, direction: DESC}) { nodes { name nameWithOwner description url isPrivate isFork stargazerCount forkCount primaryLanguage { name } updatedAt pushedAt } } } }"@,
{
    "query($first: Int!) { viewer { repositories(first: $first, orderBy: {field: UPDATED_AT, direction: DESC}) { nodes { name nameWithOwner description url isPrivate isFork stargazerCount forkCount primaryLanguage { name } updatedAt pushedAt } } } }"
}

/// The issue-list query for a state token: the filter set is interpolated
/// into the document.
pub fn issues_query(state: &str) -> (r: String)
    ensures
        r@
            == "query($owner: String!, $name: String!, $first: Int!) { repository(owner: $owner, name: $name) { issues(first: $first, states: "@
            + spec_issue_states(state@)
            + ", orderBy: {field: UPDATED_AT, direction: DESC}) { nodes { number title state url createdAt updatedAt author { login } labels(first: 10) { nodes { name color } } comments { totalCount } } } } }"@,
{
    let mut q: String =
        "query($owner: String!, $name: String!, $first: Int!) { repository(owner: $owner, name: $name) { issues(first: $first, states: ".to_owned();
    q.append(issue_states_filter(state));
    q.append(
        ", orderBy: {field: UPDATED_AT, direction: DESC}) { nodes { number title state url createdAt updatedAt author { login } labels(first: 10) { nodes { name color } } comments { totalCount } } } } }",
    );
    q
}

/// The pull-request-list query for a state token.
pub fn prs_query(state: &str) -> (r: String)
    ensures
        r@
            == "query($owner: String!, $name: String!, $first: Int!) { repository(owner: $owner, name: $name) { pullRequests(first: $first, states: "@
            + spec_pr_states(state@)
            + ", orderBy: {field: UPDATED_AT, direction: DESC}) { nodes { number title state url isDraft mergeable createdAt updatedAt author { login } headRefName baseRefName additions deletions changedFiles commits { totalCount } comments { totalCount } reviews(first: 5) { nodes { author { login } state submittedAt } } } } } }"@,
{
    let mut q: String =
        "query($owner: String!, $name: String!, $first: Int!) { repository(owner: $owner, name: $name) { pullRequests(first: $first, states: ".to_owned();
    q.append(pr_states_filter(state));
    q.append(
        ", orderBy: {field: UPDATED_AT, direction: DESC}) { nodes { number title state url isDraft mergeable createdAt updatedAt author { login } headRefName baseRefName additions deletions changedFiles commits { totalCount } comments { totalCount } reviews(first: 5) { nodes { author { login } state submittedAt } } } } } }",
    );
    q
}

/// The single-pull-request query, with reviews and check status.
pub fn pr_query() -> (r: &'static str)
    ensures
        r@
            == "query($owner: String!, $name: String!, $number: Int!) { repository(owner: $owner, name: $name) { pullRequest(number: $number) { number title state url isDraft mergeable createdAt updatedAt author { login } headRefName baseRefName additions deletions changedFiles commits { totalCount } comments { totalCount } reviews(first: 10) { nodes { author { login } state submittedAt } } } } }"@,
{
    "query($owner: String!, $name: String!, $number: Int!) { repository(owner: $owner, name: $name) { pullRequest(number: $number) { number title state url isDraft mergeable createdAt updatedAt author { login } headRefName baseRefName additions deletions changedFiles commits { totalCount } comments { totalCount } reviews(first: 10) { nodes { author { login } state submittedAt } } } } }"
}

/// The repository-id query: mutations need the node id.
pub fn repo_id_query() -> (r: &'static str)
    ensures
        r@
            == "query($owner: String!, $name: String!) { repository(owner: $owner, name: $name) { id } }"@,
{
    "query($owner: String!, $name: String!) { repository(owner: $owner, name: $name) { id } }"
}

/// The issue-creation mutation.
pub fn create_issue_query() -> (r: &'static str)
    ensures
        r@
            == "mutation($repositoryId: ID!, $title: String!, $body: String) { createIssue(input: {repositoryId: $repositoryId, title: $title, body: $body}) { issue { number title state url createdAt updatedAt author { login } } } }"@,
{
    "mutation($repositoryId: ID!, $title: String!, $body: String) { createIssue(input: {repositoryId: $repositoryId, title: $title, body: $body}) { issue { number title state url createdAt updatedAt author { login } } } }"
}

} // verus!
