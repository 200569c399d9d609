//! The method dispatcher: resolves a method name (bare or namespaced) to a
//! typed call plan, validating and extracting parameters from the untyped
//! parameter object, and serializes call results back into untyped values.
//! The surrounding application executes each plan's network operation and
//! hands the outcome back to the interpreters here.
use vstd::prelude::*;
use vstd::string::StrSliceExecFns;

use crate::errors::{ApiError, ApiErrorModel, result_view, spec_scope_error, is_scope_error};
use crate::mapper::{
    issues_view, notifications_view, prs_view, repos_view, spec_created_issue_from_data,
    spec_issues_from_data, spec_notifications_from_body, spec_pr_from_data, spec_prs_from_data,
    spec_repo_id_from_data, spec_repos_from_data, spec_user_from_data, spec_viewer_login,
    created_issue_from_data, issues_from_data, notifications_from_body, pr_from_data,
    prs_from_data, repo_id_from_data, repos_from_data, user_from_data, viewer_login,
};
use crate::models::{
    Issue, IssueModel, Notification, NotificationModel, PullRequest, PullRequestModel, Repository,
    RepositoryModel, User, UserModel, spec_issue_val, spec_notification_val,
    spec_pull_request_val, spec_repository_val,
};
use crate::text::{
    count_char, find_char, lemma_count_char_concat, lemma_count_char_zero, lemma_find_char_at,
    str_eq,
};
use crate::transport::{
    EnvelopeModel, GraphQLResponse, spec_upstream_or_malformed, upstream_or_malformed,
};
use crate::value::{
    Val, ValModel, field_of, fields_model, opt_view, seq_model, str_field, group_val_model,
};

verus! {

/// The integer parameter named `key`, truncated to the machine width, or
/// the default when absent or not an integer.
pub open spec fn spec_param_i32(m: ValModel, key: Seq<char>, default: i32) -> i32 {
    match field_of(m, key) {
        Some(ValModel::Int(n)) => n as i32,
        _ => default,
    }
}

/// Extracts an integer parameter with a default.
pub fn param_i32(params: &Val, key: &str, default: i32) -> (r: i32)
    ensures
        r == spec_param_i32(params@, key@, default),
{
    match params.get(key) {
        Some(f) => match f {
            Val::Int(n) => #[verifier::truncate] (*n as i32),
            _ => default,
        },
        None => default,
    }
}

/// The string parameter named `key`, or absent when missing or of another
/// type.
pub open spec fn spec_param_str(m: ValModel, key: Seq<char>) -> Option<Seq<char>> {
    str_field(m, key)
}

/// Extracts a string parameter.
pub fn param_str(params: &Val, key: &str) -> (r: Option<String>)
    ensures
        opt_view(r) == spec_param_str(params@, key@),
{
    params.get_str(key)
}

/// The owner and name of a `owner/name` parameter: defined exactly when
/// the text holds one separator, so any other segment count is the
/// repo-format failure, never a default.
pub open spec fn spec_parse_repo(s: Seq<char>) -> Result<(Seq<char>, Seq<char>), ApiErrorModel> {
    if count_char(s, '/') == 1 {
        let i = find_char(s, '/');
        Ok((s.take(i), s.skip(i + 1)))
    } else {
        Err(ApiErrorModel::InvalidRepoFormat { got: s })
    }
}

/// Splits a `owner/name` parameter on its single separator; any other
/// count of segments fails with the repo-format error.
pub fn parse_repo(repo: &str) -> (r: Result<(String, String), ApiError>)
    ensures
        match r {
            Ok(p) => spec_parse_repo(repo@) == Ok::<(Seq<char>, Seq<char>), ApiErrorModel>(
                (p.0@, p.1@),
            ) && p.0@ + seq!['/'] + p.1@ == repo@ && count_char(p.0@, '/') == 0 && count_char(
                p.1@,
                '/',
            ) == 0,
            Err(e) => spec_parse_repo(repo@) == Err::<(Seq<char>, Seq<char>), ApiErrorModel>(e@),
        },
{
    let n = repo.unicode_len();
    let (slashes, first) = crate::text::find_and_count(repo, '/');
    if slashes != 1 {
        return Err(ApiError::InvalidRepoFormat { got: repo.to_owned() });
    }
    let ix = match first {
        Some(i) => i,
        None => {
            return Err(ApiError::InvalidRepoFormat { got: repo.to_owned() });
        },
    };
    let owner = repo.substring_char(0, ix).to_owned();
    let name = repo.substring_char(ix + 1, n).to_owned();
    proof {
        lemma_find_char_at(repo@, '/', ix as int);
        assert(owner@ =~= repo@.take(ix as int));
        assert(name@ =~= repo@.skip(ix + 1));
        assert(owner@ + seq!['/'] + name@ =~= repo@);
        lemma_count_char_zero(owner@, '/');
        lemma_count_char_concat(owner@ + seq!['/'], name@, '/');
        lemma_count_char_concat(owner@, seq!['/'], '/');
        assert(count_char(seq!['/'], '/') == 1);
    }
    Ok((owner, name))
}

/// A validated call plan: what the dispatcher decided the method and
/// parameters mean. The network operation it names is performed outside;
/// the interpreters below consume the outcome.
#[derive(Debug)]
pub enum Plan {
    Health,
    CurrentUser,
    Repos { limit: i32 },
    Issues { owner: String, name: String, repo: String, state: String, limit: i32 },
    Prs { owner: String, name: String, repo: String, state: String, limit: i32 },
    Pr { owner: String, name: String, number: i32 },
    Notifications,
    CreateIssue { owner: String, name: String, title: String, body: Option<String> },
}

/// The model of a `Plan`.
pub enum PlanModel {
    Health,
    CurrentUser,
    Repos { limit: i32 },
    Issues { owner: Seq<char>, name: Seq<char>, repo: Seq<char>, state: Seq<char>, limit: i32 },
    Prs { owner: Seq<char>, name: Seq<char>, repo: Seq<char>, state: Seq<char>, limit: i32 },
    Pr { owner: Seq<char>, name: Seq<char>, number: i32 },
    Notifications,
    CreateIssue {
        owner: Seq<char>,
        name: Seq<char>,
        title: Seq<char>,
        body: Option<Seq<char>>,
    },
}

impl View for Plan {
    type V = PlanModel;

    open spec fn view(&self) -> PlanModel {
        match self {
            Plan::Health => PlanModel::Health,
            Plan::CurrentUser => PlanModel::CurrentUser,
            Plan::Repos { limit } => PlanModel::Repos { limit: *limit },
            Plan::Issues { owner, name, repo, state, limit } => PlanModel::Issues {
                owner: owner@,
                name: name@,
                repo: repo@,
                state: state@,
                limit: *limit,
            },
            Plan::Prs { owner, name, repo, state, limit } => PlanModel::Prs {
                owner: owner@,
                name: name@,
                repo: repo@,
                state: state@,
                limit: *limit,
            },
            Plan::Pr { owner, name, number } => PlanModel::Pr {
                owner: owner@,
                name: name@,
                number: *number,
            },
            Plan::Notifications => PlanModel::Notifications,
            Plan::CreateIssue { owner, name, title, body } => PlanModel::CreateIssue {
                owner: owner@,
                name: name@,
                title: title@,
                body: opt_view(*body),
            },
        }
    }
}

/// The state parameter, with its default.
pub open spec fn spec_state_param(params: ValModel) -> Seq<char> {
    match spec_param_str(params, "state"@) {
        Some(s) => s,
        None => "open"@,
    }
}

/// The plan of a repository-scoped list call: the repo parameter is
/// structurally required, state and limit fall back to their defaults.
pub open spec fn spec_list_plan(params: ValModel, prs: bool) -> Result<PlanModel, ApiErrorModel> {
    match spec_param_str(params, "repo"@) {
        Some(repo) => match spec_parse_repo(repo) {
            Ok(parts) => Ok(
                if prs {
                    PlanModel::Prs {
                        owner: parts.0,
                        name: parts.1,
                        repo,
                        state: spec_state_param(params),
                        limit: spec_param_i32(params, "limit"@, 10),
                    }
                } else {
                    PlanModel::Issues {
                        owner: parts.0,
                        name: parts.1,
                        repo,
                        state: spec_state_param(params),
                        limit: spec_param_i32(params, "limit"@, 10),
                    }
                },
            ),
            Err(e) => Err(e),
        },
        None => Err(ApiErrorModel::MissingParameter { name: "repo"@ }),
    }
}

/// The plan of the single-pull-request call: repo and number are required;
/// a missing or non-numeric number shows up as the zero default and is
/// rejected.
pub open spec fn spec_pr_plan(params: ValModel) -> Result<PlanModel, ApiErrorModel> {
    match spec_param_str(params, "repo"@) {
        Some(repo) => match spec_parse_repo(repo) {
            Ok(parts) => {
                let number = spec_param_i32(params, "number"@, 0);
                if number == 0 {
                    Err(ApiErrorModel::MissingParameter { name: "number"@ })
                } else {
                    Ok(PlanModel::Pr { owner: parts.0, name: parts.1, number })
                }
            },
            Err(e) => Err(e),
        },
        None => Err(ApiErrorModel::MissingParameter { name: "repo"@ }),
    }
}

/// The plan of the issue-creation call: repo and title are required, the
/// body is optional.
pub open spec fn spec_create_issue_plan(params: ValModel) -> Result<PlanModel, ApiErrorModel> {
    match spec_param_str(params, "repo"@) {
        Some(repo) => match spec_parse_repo(repo) {
            Ok(parts) => match spec_param_str(params, "title"@) {
                Some(title) => Ok(
                    PlanModel::CreateIssue {
                        owner: parts.0,
                        name: parts.1,
                        title,
                        body: spec_param_str(params, "body"@),
                    },
                ),
                None => Err(ApiErrorModel::MissingParameter { name: "title"@ }),
            },
            Err(e) => Err(e),
        },
        None => Err(ApiErrorModel::MissingParameter { name: "repo"@ }),
    }
}

/// Method-name resolution and parameter validation: every method is
/// reachable under its bare verb and under the namespaced alias; a name
/// outside the table is the unknown-method failure.
pub open spec fn spec_dispatch_plan(method: Seq<char>, params: ValModel) -> Result<
    PlanModel,
    ApiErrorModel,
> {
    if method == "health"@ || method == "github.health"@ {
        Ok(PlanModel::Health)
    } else if method == "user"@ || method == "github.user"@ {
        Ok(PlanModel::CurrentUser)
    } else if method == "repos"@ || method == "github.repos"@ {
        Ok(PlanModel::Repos { limit: spec_param_i32(params, "limit"@, 10) })
    } else if method == "issues"@ || method == "github.issues"@ {
        spec_list_plan(params, false)
    } else if method == "prs"@ || method == "github.prs"@ {
        spec_list_plan(params, true)
    } else if method == "pr"@ || method == "github.pr"@ {
        spec_pr_plan(params)
    } else if method == "notifications"@ || method == "github.notifications"@ {
        Ok(PlanModel::Notifications)
    } else if method == "create_issue"@ || method == "github.create_issue"@ {
        spec_create_issue_plan(params)
    } else {
        Err(ApiErrorModel::UnknownMethod { name: method })
    }
}

/// Every method resolves identically under its bare verb and under its
/// namespaced alias, whatever the parameters.
pub proof fn lemma_namespaced_alias(params: ValModel)
    ensures
        spec_dispatch_plan("health"@, params) == spec_dispatch_plan("github.health"@, params),
        spec_dispatch_plan("user"@, params) == spec_dispatch_plan("github.user"@, params),
        spec_dispatch_plan("repos"@, params) == spec_dispatch_plan("github.repos"@, params),
        spec_dispatch_plan("issues"@, params) == spec_dispatch_plan("github.issues"@, params),
        spec_dispatch_plan("prs"@, params) == spec_dispatch_plan("github.prs"@, params),
        spec_dispatch_plan("pr"@, params) == spec_dispatch_plan("github.pr"@, params),
        spec_dispatch_plan("notifications"@, params) == spec_dispatch_plan(
            "github.notifications"@,
            params,
        ),
        spec_dispatch_plan("create_issue"@, params) == spec_dispatch_plan(
            "github.create_issue"@,
            params,
        ),
{
    reveal_strlit("health");
    reveal_strlit("github.health");
    reveal_strlit("user");
    reveal_strlit("github.user");
    reveal_strlit("repos");
    reveal_strlit("github.repos");
    reveal_strlit("issues");
    reveal_strlit("github.issues");
    reveal_strlit("prs");
    reveal_strlit("github.prs");
    reveal_strlit("pr");
    reveal_strlit("github.pr");
    reveal_strlit("notifications");
    reveal_strlit("github.notifications");
    reveal_strlit("create_issue");
    reveal_strlit("github.create_issue");
    assert("health"@.len() == 6);
    assert("github.health"@.len() == 13);
    assert("user"@.len() == 4);
    assert("github.user"@.len() == 11);
    assert("repos"@.len() == 5);
    assert("github.repos"@.len() == 12);
    assert("issues"@.len() == 6);
    assert("github.issues"@.len() == 13);
    assert("prs"@.len() == 3);
    assert("github.prs"@.len() == 10);
    assert("pr"@.len() == 2);
    assert("github.pr"@.len() == 9);
    assert("notifications"@.len() == 13);
    assert("github.notifications"@.len() == 20);
    assert("create_issue"@.len() == 12);
    assert("github.create_issue"@.len() == 19);
    crate::value::lemma_seq_neq_at("issues"@, "health"@, 0);
    crate::value::lemma_seq_neq_at("github.health"@, "github.issues"@, 7);
    crate::value::lemma_seq_neq_at("notifications"@, "github.health"@, 0);
    crate::value::lemma_seq_neq_at("notifications"@, "github.issues"@, 0);
    crate::value::lemma_seq_neq_at("create_issue"@, "github.repos"@, 0);
}

/// Extracts the state parameter with its default.
fn state_param(params: &Val) -> (r: String)
    ensures
        r@ == spec_state_param(params@),
{
    match param_str(params, "state") {
        Some(s) => s,
        None => "open".to_owned(),
    }
}

/// Resolves a method name and validates its parameters into a plan.
pub fn dispatch_plan(method: &str, params: &Val) -> (r: Result<Plan, ApiError>)
    ensures
        result_view(r) == spec_dispatch_plan(method@, params@),
{
    if str_eq(method, "health") || str_eq(method, "github.health") {
        Ok(Plan::Health)
    } else if str_eq(method, "user") || str_eq(method, "github.user") {
        Ok(Plan::CurrentUser)
    } else if str_eq(method, "repos") || str_eq(method, "github.repos") {
        Ok(Plan::Repos { limit: param_i32(params, "limit", 10) })
    } else if str_eq(method, "issues") || str_eq(method, "github.issues") {
        let repo = match param_str(params, "repo") {
            Some(s) => s,
            None => {
                return Err(ApiError::MissingParameter { name: "repo".to_owned() });
            },
        };
        let parts = match parse_repo(repo.as_str()) {
            Ok(p) => p,
            Err(e) => {
                return Err(e);
            },
        };
        Ok(
            Plan::Issues {
                owner: parts.0,
                name: parts.1,
                repo,
                state: state_param(params),
                limit: param_i32(params, "limit", 10),
            },
        )
    } else if str_eq(method, "prs") || str_eq(method, "github.prs") {
        let repo = match param_str(params, "repo") {
            Some(s) => s,
            None => {
                return Err(ApiError::MissingParameter { name: "repo".to_owned() });
            },
        };
        let parts = match parse_repo(repo.as_str()) {
            Ok(p) => p,
            Err(e) => {
                return Err(e);
            },
        };
        Ok(
            Plan::Prs {
                owner: parts.0,
                name: parts.1,
                repo,
                state: state_param(params),
                limit: param_i32(params, "limit", 10),
            },
        )
    } else if str_eq(method, "pr") || str_eq(method, "github.pr") {
        let repo = match param_str(params, "repo") {
            Some(s) => s,
            None => {
                return Err(ApiError::MissingParameter { name: "repo".to_owned() });
            },
        };
        let parts = match parse_repo(repo.as_str()) {
            Ok(p) => p,
            Err(e) => {
                return Err(e);
            },
        };
        let number = param_i32(params, "number", 0);
        if number == 0 {
            return Err(ApiError::MissingParameter { name: "number".to_owned() });
        }
        Ok(Plan::Pr { owner: parts.0, name: parts.1, number })
    } else if str_eq(method, "notifications") || str_eq(method, "github.notifications") {
        Ok(Plan::Notifications)
    } else if str_eq(method, "create_issue") || str_eq(method, "github.create_issue") {
        let repo = match param_str(params, "repo") {
            Some(s) => s,
            None => {
                return Err(ApiError::MissingParameter { name: "repo".to_owned() });
            },
        };
        let parts = match parse_repo(repo.as_str()) {
            Ok(p) => p,
            Err(e) => {
                return Err(e);
            },
        };
        let title = match param_str(params, "title") {
            Some(s) => s,
            None => {
                return Err(ApiError::MissingParameter { name: "title".to_owned() });
            },
        };
        Ok(
            Plan::CreateIssue {
                owner: parts.0,
                name: parts.1,
                title,
                body: param_str(params, "body"),
            },
        )
    } else {
        Err(ApiError::UnknownMethod { name: method.to_owned() })
    }
}

/// The record a mapper read out of a delivered envelope, or the failure:
/// transport failures pass through unchanged; an envelope whose data is
/// absent or does not map reports the upstream messages when there are
/// any, and a malformed response otherwise.
pub open spec fn spec_mapped<T>(
    env: Result<EnvelopeModel, ApiErrorModel>,
    mapped: Option<T>,
) -> Result<T, ApiErrorModel> {
    match env {
        Err(e) => Err(e),
        Ok(en) => match mapped {
            Some(x) => Ok(x),
            None => Err(spec_upstream_or_malformed(en.errors)),
        },
    }
}

/// The current user out of a query outcome.
pub open spec fn spec_user_response(env: Result<EnvelopeModel, ApiErrorModel>) -> Result<
    UserModel,
    ApiErrorModel,
> {
    spec_mapped(
        env,
        match env {
            Ok(en) => match en.data {
                Some(d) => spec_user_from_data(d),
                None => None,
            },
            Err(_) => None,
        },
    )
}

/// Interprets the current-user query outcome.
pub fn user_response(env: Result<GraphQLResponse, ApiError>) -> (r: Result<User, ApiError>)
    ensures
        result_view(r) == spec_user_response(result_view(env)),
{
    match env {
        Err(e) => Err(e),
        Ok(en) => {
            let GraphQLResponse { data, errors } = en;
            match data {
                Some(d) => match user_from_data(&d) {
                    Some(u) => Ok(u),
                    None => Err(upstream_or_malformed(errors)),
                },
                None => Err(upstream_or_malformed(errors)),
            }
        },
    }
}

/// The repository list out of a query outcome.
pub open spec fn spec_repos_response(env: Result<EnvelopeModel, ApiErrorModel>) -> Result<
    Seq<RepositoryModel>,
    ApiErrorModel,
> {
    spec_mapped(
        env,
        match env {
            Ok(en) => match en.data {
                Some(d) => spec_repos_from_data(d),
                None => None,
            },
            Err(_) => None,
        },
    )
}

/// Interprets the repository-list query outcome.
pub fn repos_response(env: Result<GraphQLResponse, ApiError>) -> (r: Result<
    Vec<Repository>,
    ApiError,
>)
    ensures
        match r {
            Ok(out) => spec_repos_response(result_view(env)) == Ok::<_, ApiErrorModel>(
                repos_view(out@),
            ),
            Err(e) => spec_repos_response(result_view(env)) == Err::<Seq<RepositoryModel>, _>(e@),
        },
{
    match env {
        Err(e) => Err(e),
        Ok(en) => {
            let GraphQLResponse { data, errors } = en;
            match data {
                Some(d) => match repos_from_data(&d) {
                    Some(out) => Ok(out),
                    None => Err(upstream_or_malformed(errors)),
                },
                None => Err(upstream_or_malformed(errors)),
            }
        },
    }
}

/// The issue list out of a query outcome.
pub open spec fn spec_issues_response(env: Result<EnvelopeModel, ApiErrorModel>) -> Result<
    Seq<IssueModel>,
    ApiErrorModel,
> {
    spec_mapped(
        env,
        match env {
            Ok(en) => match en.data {
                Some(d) => spec_issues_from_data(d),
                None => None,
            },
            Err(_) => None,
        },
    )
}

/// Interprets the issue-list query outcome.
pub fn issues_response(env: Result<GraphQLResponse, ApiError>) -> (r: Result<Vec<Issue>, ApiError>)
    ensures
        match r {
            Ok(out) => spec_issues_response(result_view(env)) == Ok::<_, ApiErrorModel>(
                issues_view(out@),
            ),
            Err(e) => spec_issues_response(result_view(env)) == Err::<Seq<IssueModel>, _>(e@),
        },
{
    match env {
        Err(e) => Err(e),
        Ok(en) => {
            let GraphQLResponse { data, errors } = en;
            match data {
                Some(d) => match issues_from_data(&d) {
                    Some(out) => Ok(out),
                    None => Err(upstream_or_malformed(errors)),
                },
                None => Err(upstream_or_malformed(errors)),
            }
        },
    }
}

/// The pull-request list out of a query outcome.
pub open spec fn spec_prs_response(env: Result<EnvelopeModel, ApiErrorModel>) -> Result<
    Seq<PullRequestModel>,
    ApiErrorModel,
> {
    spec_mapped(
        env,
        match env {
            Ok(en) => match en.data {
                Some(d) => spec_prs_from_data(d),
                None => None,
            },
            Err(_) => None,
        },
    )
}

/// Interprets the pull-request-list query outcome.
pub fn prs_response(env: Result<GraphQLResponse, ApiError>) -> (r: Result<
    Vec<PullRequest>,
    ApiError,
>)
    ensures
        match r {
            Ok(out) => spec_prs_response(result_view(env)) == Ok::<_, ApiErrorModel>(
                prs_view(out@),
            ),
            Err(e) => spec_prs_response(result_view(env)) == Err::<Seq<PullRequestModel>, _>(e@),
        },
{
    match env {
        Err(e) => Err(e),
        Ok(en) => {
            let GraphQLResponse { data, errors } = en;
            match data {
                Some(d) => match prs_from_data(&d) {
                    Some(out) => Ok(out),
                    None => Err(upstream_or_malformed(errors)),
                },
                None => Err(upstream_or_malformed(errors)),
            }
        },
    }
}

/// The single pull request out of a query outcome.
pub open spec fn spec_pr_response(env: Result<EnvelopeModel, ApiErrorModel>) -> Result<
    PullRequestModel,
    ApiErrorModel,
> {
    spec_mapped(
        env,
        match env {
            Ok(en) => match en.data {
                Some(d) => spec_pr_from_data(d),
                None => None,
            },
            Err(_) => None,
        },
    )
}

/// Interprets the single-pull-request query outcome.
pub fn pr_response(env: Result<GraphQLResponse, ApiError>) -> (r: Result<PullRequest, ApiError>)
    ensures
        result_view(r) == spec_pr_response(result_view(env)),
{
    match env {
        Err(e) => Err(e),
        Ok(en) => {
            let GraphQLResponse { data, errors } = en;
            match data {
                Some(d) => match pr_from_data(&d) {
                    Some(p) => Ok(p),
                    None => Err(upstream_or_malformed(errors)),
                },
                None => Err(upstream_or_malformed(errors)),
            }
        },
    }
}

/// A repository that lacks the requested pull request fails with the
/// upstream messages when the response carries any, never with a panic or
/// an empty success.
pub proof fn lemma_pr_missing_is_upstream(env: EnvelopeModel)
    requires
        match env.data {
            Some(d) => spec_pr_from_data(d) is None,
            None => true,
        },
        env.errors matches Some(es) && es.len() > 0,
    ensures
        spec_pr_response(Ok(env)) == Err::<PullRequestModel, ApiErrorModel>(
            spec_upstream_or_malformed(env.errors),
        ),
        spec_upstream_or_malformed(env.errors) is UpstreamQueryError,
{
}

/// The repository node id out of a query outcome.
pub open spec fn spec_repo_id_response(env: Result<EnvelopeModel, ApiErrorModel>) -> Result<
    Seq<char>,
    ApiErrorModel,
> {
    spec_mapped(
        env,
        match env {
            Ok(en) => match en.data {
                Some(d) => spec_repo_id_from_data(d),
                None => None,
            },
            Err(_) => None,
        },
    )
}

/// Interprets the repository-id query outcome.
pub fn repo_id_response(env: Result<GraphQLResponse, ApiError>) -> (r: Result<String, ApiError>)
    ensures
        result_view(r) == spec_repo_id_response(result_view(env)),
{
    match env {
        Err(e) => Err(e),
        Ok(en) => {
            let GraphQLResponse { data, errors } = en;
            match data {
                Some(d) => match repo_id_from_data(&d) {
                    Some(id) => Ok(id),
                    None => Err(upstream_or_malformed(errors)),
                },
                None => Err(upstream_or_malformed(errors)),
            }
        },
    }
}

/// The created issue out of a mutation outcome.
pub open spec fn spec_created_issue_response(env: Result<EnvelopeModel, ApiErrorModel>) -> Result<
    IssueModel,
    ApiErrorModel,
> {
    spec_mapped(
        env,
        match env {
            Ok(en) => match en.data {
                Some(d) => spec_created_issue_from_data(d),
                None => None,
            },
            Err(_) => None,
        },
    )
}

/// Interprets the issue-creation mutation outcome.
pub fn created_issue_response(env: Result<GraphQLResponse, ApiError>) -> (r: Result<
    Issue,
    ApiError,
>)
    ensures
        result_view(r) == spec_created_issue_response(result_view(env)),
{
    match env {
        Err(e) => Err(e),
        Ok(en) => {
            let GraphQLResponse { data, errors } = en;
            match data {
                Some(d) => match created_issue_from_data(&d) {
                    Some(s) => Ok(s),
                    None => Err(upstream_or_malformed(errors)),
                },
                None => Err(upstream_or_malformed(errors)),
            }
        },
    }
}

/// Whether the identity round trip found a usable identity: the login out
/// of a probe outcome, non-empty.
pub open spec fn spec_ping_response(env: Result<EnvelopeModel, ApiErrorModel>) -> Result<
    bool,
    ApiErrorModel,
> {
    spec_mapped(
        env,
        match env {
            Ok(en) => match en.data {
                Some(d) => match spec_viewer_login(d) {
                    Some(login) => Some(login.len() > 0),
                    None => None,
                },
                None => None,
            },
            Err(_) => None,
        },
    )
}

/// Interprets the connectivity-probe outcome: connected, and the identity
/// is usable only if the login is non-empty.
pub fn ping_response(env: Result<GraphQLResponse, ApiError>) -> (r: Result<bool, ApiError>)
    ensures
        match r {
            Ok(b) => spec_ping_response(result_view(env)) == Ok::<bool, ApiErrorModel>(b),
            Err(e) => spec_ping_response(result_view(env)) == Err::<bool, ApiErrorModel>(e@),
        },
{
    match env {
        Err(e) => Err(e),
        Ok(en) => {
            let GraphQLResponse { data, errors } = en;
            match data {
                Some(d) => match viewer_login(&d) {
                    Some(login) => Ok(login.as_str().unicode_len() > 0),
                    None => Err(upstream_or_malformed(errors)),
                },
                None => Err(upstream_or_malformed(errors)),
            }
        },
    }
}

/// The notification list out of a resource-path outcome.
pub open spec fn spec_notifications_response(rest: Result<ValModel, ApiErrorModel>) -> Result<
    Seq<NotificationModel>,
    ApiErrorModel,
> {
    match rest {
        Err(e) => Err(e),
        Ok(body) => match spec_notifications_from_body(body) {
            Some(ns) => Ok(ns),
            None => Err(ApiErrorModel::MalformedResponse),
        },
    }
}

/// Interprets the notification-list outcome.
pub fn notifications_response(rest: Result<Val, ApiError>) -> (r: Result<
    Vec<Notification>,
    ApiError,
>)
    ensures
        match r {
            Ok(out) => spec_notifications_response(result_view(rest)) == Ok::<_, ApiErrorModel>(
                notifications_view(out@),
            ),
            Err(e) => spec_notifications_response(result_view(rest)) == Err::<
                Seq<NotificationModel>,
                _,
            >(e@),
        },
{
    match rest {
        Err(e) => Err(e),
        Ok(body) => match notifications_from_body(&body) {
            Some(ns) => Ok(ns),
            None => Err(ApiError::MalformedResponse),
        },
    }
}

/// The values of a serialized issue list.
pub open spec fn spec_issue_vals(s: Seq<IssueModel>) -> Seq<ValModel> {
    Seq::new(s.len(), |i: int| spec_issue_val(s[i]))
}

/// The values of a serialized repository list.
pub open spec fn spec_repo_vals(s: Seq<RepositoryModel>) -> Seq<ValModel> {
    Seq::new(s.len(), |i: int| spec_repository_val(s[i]))
}

/// The values of a serialized pull-request list.
pub open spec fn spec_pr_vals(s: Seq<PullRequestModel>) -> Seq<ValModel> {
    Seq::new(s.len(), |i: int| spec_pull_request_val(s[i]))
}

/// The values of a serialized notification list.
pub open spec fn spec_notification_vals(s: Seq<NotificationModel>) -> Seq<ValModel> {
    Seq::new(s.len(), |i: int| spec_notification_val(s[i]))
}

fn issues_arr(issues: &Vec<Issue>) -> (r: Val)
    ensures
        r@ == ValModel::Arr(spec_issue_vals(issues_view(issues@))),
{
    broadcast use group_val_model;

    let n = issues.len();
    let mut out: Vec<Val> = Vec::new();
    let mut i: usize = 0;
    while i < n
        invariant
            i <= n == issues@.len(),
            out@.len() == i,
            forall|j: int| 0 <= j < i ==> out@[j]@ == spec_issue_val((#[trigger] issues@[j])@),
        decreases n - i,
    {
        out.push(issues[i].to_val());
        i = i + 1;
    }
    let r = Val::Arr(out);
    proof {
        assert(r@ == ValModel::Arr(seq_model(out@)));
        assert(seq_model(out@) =~= spec_issue_vals(issues_view(issues@)));
    }
    r
}

fn repos_arr(repos: &Vec<Repository>) -> (r: Val)
    ensures
        r@ == ValModel::Arr(spec_repo_vals(repos_view(repos@))),
{
    broadcast use group_val_model;

    let n = repos.len();
    let mut out: Vec<Val> = Vec::new();
    let mut i: usize = 0;
    while i < n
        invariant
            i <= n == repos@.len(),
            out@.len() == i,
            forall|j: int| 0 <= j < i ==> out@[j]@ == spec_repository_val((#[trigger] repos@[j])@),
        decreases n - i,
    {
        out.push(repos[i].to_val());
        i = i + 1;
    }
    let r = Val::Arr(out);
    proof {
        assert(r@ == ValModel::Arr(seq_model(out@)));
        assert(seq_model(out@) =~= spec_repo_vals(repos_view(repos@)));
    }
    r
}

fn prs_arr(prs: &Vec<PullRequest>) -> (r: Val)
    ensures
        r@ == ValModel::Arr(spec_pr_vals(prs_view(prs@))),
{
    broadcast use group_val_model;

    let n = prs.len();
    let mut out: Vec<Val> = Vec::new();
    let mut i: usize = 0;
    while i < n
        invariant
            i <= n == prs@.len(),
            out@.len() == i,
            forall|j: int| 0 <= j < i ==> out@[j]@ == spec_pull_request_val(
                (#[trigger] prs@[j])@,
            ),
        decreases n - i,
    {
        out.push(prs[i].to_val());
        i = i + 1;
    }
    let r = Val::Arr(out);
    proof {
        assert(r@ == ValModel::Arr(seq_model(out@)));
        assert(seq_model(out@) =~= spec_pr_vals(prs_view(prs@)));
    }
    r
}

fn notifications_arr(ns: &Vec<Notification>) -> (r: Val)
    ensures
        r@ == ValModel::Arr(spec_notification_vals(notifications_view(ns@))),
{
    broadcast use group_val_model;

    let n = ns.len();
    let mut out: Vec<Val> = Vec::new();
    let mut i: usize = 0;
    while i < n
        invariant
            i <= n == ns@.len(),
            out@.len() == i,
            forall|j: int| 0 <= j < i ==> out@[j]@ == spec_notification_val(
                (#[trigger] ns@[j])@,
            ),
        decreases n - i,
    {
        out.push(ns[i].to_val());
        i = i + 1;
    }
    let r = Val::Arr(out);
    proof {
        assert(r@ == ValModel::Arr(seq_model(out@)));
        assert(seq_model(out@) =~= spec_notification_vals(notifications_view(ns@)));
    }
    r
}

/// The repository-list result envelope: the serialized list and its count.
pub open spec fn spec_repos_result(repos: Seq<RepositoryModel>) -> ValModel {
    ValModel::Obj(
        seq![
            ("repos"@, ValModel::Arr(spec_repo_vals(repos))),
            ("count"@, ValModel::Int(repos.len() as int)),
        ],
    )
}

/// Serializes the repository-list result.
pub fn repos_result(repos: &Vec<Repository>) -> (r: Val)
    requires
        repos@.len() <= i64::MAX,
    ensures
        r@ == spec_repos_result(repos_view(repos@)),
{
    broadcast use group_val_model;

    let mut fs: Vec<(String, Val)> = Vec::new();
    fs.push(("repos".to_owned(), repos_arr(repos)));
    fs.push(("count".to_owned(), Val::Int(repos.len() as i64)));
    let r = Val::Obj(fs);
    proof {
        assert(fs@.len() == 2);
        assert(r@ == ValModel::Obj(fields_model(fs@)));
        assert(r@->Obj_0 =~= spec_repos_result(repos_view(repos@))->Obj_0);
    }
    r
}

/// The issue-list result envelope: the repo and state as given, the
/// serialized list, and its count.
pub open spec fn spec_issues_result(
    repo: Seq<char>,
    state: Seq<char>,
    issues: Seq<IssueModel>,
) -> ValModel {
    ValModel::Obj(
        seq![
            ("repo"@, ValModel::Str(repo)),
            ("state"@, ValModel::Str(state)),
            ("issues"@, ValModel::Arr(spec_issue_vals(issues))),
            ("count"@, ValModel::Int(issues.len() as int)),
        ],
    )
}

/// Serializes the issue-list result.
pub fn issues_result(repo: &str, state: &str, issues: &Vec<Issue>) -> (r: Val)
    requires
        issues@.len() <= i64::MAX,
    ensures
        r@ == spec_issues_result(repo@, state@, issues_view(issues@)),
{
    broadcast use group_val_model;

    let mut fs: Vec<(String, Val)> = Vec::new();
    fs.push(("repo".to_owned(), Val::str_of(repo)));
    fs.push(("state".to_owned(), Val::str_of(state)));
    fs.push(("issues".to_owned(), issues_arr(issues)));
    fs.push(("count".to_owned(), Val::Int(issues.len() as i64)));
    let r = Val::Obj(fs);
    proof {
        assert(fs@.len() == 4);
        assert(r@ == ValModel::Obj(fields_model(fs@)));
        assert(r@->Obj_0 =~= spec_issues_result(repo@, state@, issues_view(issues@))->Obj_0);
    }
    r
}

/// The pull-request-list result envelope.
pub open spec fn spec_prs_result(
    repo: Seq<char>,
    state: Seq<char>,
    prs: Seq<PullRequestModel>,
) -> ValModel {
    ValModel::Obj(
        seq![
            ("repo"@, ValModel::Str(repo)),
            ("state"@, ValModel::Str(state)),
            ("prs"@, ValModel::Arr(spec_pr_vals(prs))),
            ("count"@, ValModel::Int(prs.len() as int)),
        ],
    )
}

/// Serializes the pull-request-list result.
pub fn prs_result(repo: &str, state: &str, prs: &Vec<PullRequest>) -> (r: Val)
    requires
        prs@.len() <= i64::MAX,
    ensures
        r@ == spec_prs_result(repo@, state@, prs_view(prs@)),
{
    broadcast use group_val_model;

    let mut fs: Vec<(String, Val)> = Vec::new();
    fs.push(("repo".to_owned(), Val::str_of(repo)));
    fs.push(("state".to_owned(), Val::str_of(state)));
    fs.push(("prs".to_owned(), prs_arr(prs)));
    fs.push(("count".to_owned(), Val::Int(prs.len() as i64)));
    let r = Val::Obj(fs);
    proof {
        assert(fs@.len() == 4);
        assert(r@ == ValModel::Obj(fields_model(fs@)));
        assert(r@->Obj_0 =~= spec_prs_result(repo@, state@, prs_view(prs@))->Obj_0);
    }
    r
}

/// How many notifications of a list are unread.
pub open spec fn count_unread(s: Seq<NotificationModel>) -> int
    decreases s.len(),
{
    if s.len() == 0 {
        0
    } else {
        count_unread(s.drop_last()) + (if s.last().unread {
            1int
        } else {
            0int
        })
    }
}

proof fn lemma_count_unread_take_step(s: Seq<NotificationModel>, i: int)
    requires
        0 <= i < s.len(),
    ensures
        count_unread(s.take(i + 1)) == count_unread(s.take(i)) + (if s[i].unread {
            1int
        } else {
            0int
        }),
{
    assert(s.take(i + 1).drop_last() =~= s.take(i));
    assert(s.take(i + 1).last() == s[i]);
}

proof fn lemma_count_unread_bound(s: Seq<NotificationModel>)
    ensures
        0 <= count_unread(s) <= s.len(),
    decreases s.len(),
{
    if s.len() > 0 {
        lemma_count_unread_bound(s.drop_last());
    }
}

/// The notification result envelope: the serialized list and how many of
/// its entries are unread.
pub open spec fn spec_notifications_result(ns: Seq<NotificationModel>) -> ValModel {
    ValModel::Obj(
        seq![
            ("notifications"@, ValModel::Arr(spec_notification_vals(ns))),
            ("unread_count"@, ValModel::Int(count_unread(ns))),
        ],
    )
}

/// Serializes the notification result, counting the unread entries.
pub fn notifications_result(ns: &Vec<Notification>) -> (r: Val)
    requires
        ns@.len() <= i64::MAX,
    ensures
        r@ == spec_notifications_result(notifications_view(ns@)),
{
    broadcast use group_val_model;

    let ghost nv = notifications_view(ns@);
    let n = ns.len();
    let mut unread: usize = 0;
    let mut i: usize = 0;
    proof {
        assert(nv.take(0) =~= Seq::<NotificationModel>::empty());
    }
    while i < n
        invariant
            i <= n == ns@.len() == nv.len(),
            unread == count_unread(nv.take(i as int)),
            unread <= i,
            forall|j: int| 0 <= j < nv.len() ==> nv[j] == (#[trigger] ns@[j])@,
        decreases n - i,
    {
        proof {
            lemma_count_unread_take_step(nv, i as int);
        }
        if ns[i].unread {
            unread = unread + 1;
        }
        i = i + 1;
    }
    proof {
        assert(nv.take(n as int) =~= nv);
        lemma_count_unread_bound(nv);
    }
    let mut fs: Vec<(String, Val)> = Vec::new();
    fs.push(("notifications".to_owned(), notifications_arr(ns)));
    fs.push(("unread_count".to_owned(), Val::Int(unread as i64)));
    let r = Val::Obj(fs);
    proof {
        assert(fs@.len() == 2);
        assert(r@ == ValModel::Obj(fields_model(fs@)));
        assert(r@->Obj_0 =~= spec_notifications_result(nv)->Obj_0);
    }
    r
}

/// The issue-creation result envelope.
pub open spec fn spec_create_issue_result(issue: IssueModel) -> ValModel {
    ValModel::Obj(
        seq![("created"@, ValModel::Bool(true)), ("issue"@, spec_issue_val(issue))],
    )
}

/// Serializes the issue-creation result.
pub fn create_issue_result(issue: &Issue) -> (r: Val)
    ensures
        r@ == spec_create_issue_result(issue@),
{
    broadcast use group_val_model;

    let mut fs: Vec<(String, Val)> = Vec::new();
    fs.push(("created".to_owned(), Val::Bool(true)));
    fs.push(("issue".to_owned(), issue.to_val()));
    let r = Val::Obj(fs);
    proof {
        assert(fs@.len() == 2);
        assert(r@ == ValModel::Obj(fields_model(fs@)));
        assert(r@->Obj_0 =~= spec_create_issue_result(issue@)->Obj_0);
    }
    r
}

/// The health result envelope: healthy exactly when the probe succeeded
/// with a usable identity.
pub open spec fn spec_health_value(ok: bool, version: Seq<char>) -> ValModel {
    ValModel::Obj(
        seq![
            (
                "status"@,
                ValModel::Str(
                    if ok {
                        "healthy"@
                    } else {
                        "unhealthy"@
                    },
                ),
            ),
            ("api_connected"@, ValModel::Bool(ok)),
            ("version"@, ValModel::Str(version)),
        ],
    )
}

/// Serializes the health result.
pub fn health_value(ok: bool, version: &str) -> (r: Val)
    ensures
        r@ == spec_health_value(ok, version@),
{
    broadcast use group_val_model;

    let mut fs: Vec<(String, Val)> = Vec::new();
    let status: &str = if ok {
        "healthy"
    } else {
        "unhealthy"
    };
    fs.push(("status".to_owned(), Val::str_of(status)));
    fs.push(("api_connected".to_owned(), Val::Bool(ok)));
    fs.push(("version".to_owned(), Val::str_of(version)));
    let r = Val::Obj(fs);
    proof {
        assert(fs@.len() == 3);
        assert(r@ == ValModel::Obj(fields_model(fs@)));
        assert(r@->Obj_0 =~= spec_health_value(ok, version@)->Obj_0);
    }
    r
}

/// A probe that succeeds transport-wise but yields an empty login reports
/// the service unhealthy: connected is not usable.
pub proof fn lemma_health_empty_login(env: EnvelopeModel, version: Seq<char>)
    requires
        env.data matches Some(d) && spec_viewer_login(d) == Some(Seq::<char>::empty()),
    ensures
        spec_ping_response(Ok(env)) == Ok::<bool, ApiErrorModel>(false),
        field_of(spec_health_value(false, version), "status"@) == Some(
            ValModel::Str("unhealthy"@),
        ),
        field_of(spec_health_value(false, version), "api_connected"@) == Some(
            ValModel::Bool(false),
        ),
{
    reveal_strlit("status");
    reveal_strlit("api_connected");
    reveal_strlit("version");
    let fs = spec_health_value(false, version)->Obj_0;
    assert("status"@.len() == 6);
    assert("api_connected"@.len() == 13);
    assert("version"@.len() == 7);
    crate::value::lemma_obj_lookup_at(fs, "status"@, 0);
    crate::value::lemma_obj_lookup_at(fs, "api_connected"@, 1);
}

/// What the current-user retrieval does next after an attempt: retry once
/// with the reduced query, or finish with the attempt's outcome.
#[derive(Debug)]
pub enum UserFetch {
    Retry,
    Done(Result<User, ApiError>),
}

/// The model of a `UserFetch`.
pub enum UserFetchModel {
    Retry,
    Done(Result<UserModel, ApiErrorModel>),
}

impl View for UserFetch {
    type V = UserFetchModel;

    open spec fn view(&self) -> UserFetchModel {
        match self {
            UserFetch::Retry => UserFetchModel::Retry,
            UserFetch::Done(r) => UserFetchModel::Done(
                match r {
                    Ok(u) => Ok(u@),
                    Err(e) => Err(e@),
                },
            ),
        }
    }
}

/// The fallback decision: only a first attempt that failed with the
/// email-scope signature is retried; everything else — any success, any
/// other failure, and any second attempt — finishes.
pub open spec fn spec_user_fetch_next(first: bool, outcome: Result<UserModel, ApiErrorModel>) -> UserFetchModel {
    match outcome {
        Err(e) => if first && spec_scope_error(e) {
            UserFetchModel::Retry
        } else {
            UserFetchModel::Done(Err(e))
        },
        Ok(u) => UserFetchModel::Done(Ok(u)),
    }
}

/// Decides whether the current-user retrieval retries with the reduced
/// query; `first` says whether the outcome is from the first attempt.
pub fn user_fetch_next(first: bool, outcome: Result<User, ApiError>) -> (r: UserFetch)
    ensures
        r@ == spec_user_fetch_next(first, result_view(outcome)),
{
    match outcome {
        Err(e) => {
            if first && is_scope_error(&e) {
                UserFetch::Retry
            } else {
                UserFetch::Done(Err(e))
            }
        },
        Ok(u) => UserFetch::Done(Ok(u)),
    }
}

/// The email-scope fallback is bounded to exactly one retry, and fires only
/// on the scope signature: a first failure retries exactly when its
/// messages name the missing scope; any other first failure, and every
/// second outcome, finishes unchanged.
pub proof fn lemma_scope_fallback(
    first: bool,
    e: ApiErrorModel,
    u: UserModel,
    outcome: Result<UserModel, ApiErrorModel>,
)
    ensures
        (spec_user_fetch_next(true, Err(e)) == UserFetchModel::Retry) <==> spec_scope_error(e),
        !spec_scope_error(e) ==> spec_user_fetch_next(true, Err(e)) == UserFetchModel::Done(
            Err::<UserModel, ApiErrorModel>(e),
        ),
        spec_user_fetch_next(false, outcome) == UserFetchModel::Done(outcome),
        spec_user_fetch_next(first, Ok(u)) == UserFetchModel::Done(
            Ok::<UserModel, ApiErrorModel>(u),
        ),
{
}

/// A viewer object without an email field maps to a user whose email is
/// absent: what the reduced query's response yields.
pub proof fn lemma_user_email_absent(m: ValModel)
    requires
        spec_user_from_data(m) is Some,
        field_of(m, "viewer"@) matches Some(v) && str_field(v, "email"@) is None,
    ensures
        spec_user_from_data(m)->Some_0.email is None,
{
}

/// The startup probe: a reachable API lets the service start whatever the
/// identity looked like; a transport failure stops it.
pub fn on_start_outcome(ping: Result<bool, ApiError>) -> (r: Result<(), ApiError>)
    ensures
        ping matches Ok(_) ==> r is Ok,
        ping matches Err(e) ==> (r matches Err(e2) && e2@ == e@),
{
    match ping {
        Ok(_) => Ok(()),
        Err(e) => Err(e),
    }
}

/// One subsystem's health as the serving framework reports it.
#[derive(Debug)]
pub enum ServiceHealth {
    Healthy { latency_ms: u64 },
    Unhealthy { reason: String },
}

/// The model of a `ServiceHealth`.
pub enum ServiceHealthModel {
    Healthy { latency_ms: int },
    Unhealthy { reason: Seq<char> },
}

impl View for ServiceHealth {
    type V = ServiceHealthModel;

    open spec fn view(&self) -> ServiceHealthModel {
        match self {
            ServiceHealth::Healthy { latency_ms } => ServiceHealthModel::Healthy {
                latency_ms: *latency_ms as int,
            },
            ServiceHealth::Unhealthy { reason } => ServiceHealthModel::Unhealthy {
                reason: reason@,
            },
        }
    }
}

/// The liveness report for a probe outcome: healthy with the measured
/// latency only when the round trip succeeded and the identity was usable;
/// an empty identity is unhealthy even though the call succeeded.
pub open spec fn spec_health_check_status(
    ping: Result<bool, ApiErrorModel>,
    latency_ms: int,
) -> ServiceHealthModel {
    match ping {
        Ok(true) => ServiceHealthModel::Healthy { latency_ms },
        Ok(false) => ServiceHealthModel::Unhealthy { reason: "Empty viewer login"@ },
        Err(e) => ServiceHealthModel::Unhealthy { reason: crate::errors::spec_message_of(e) },
    }
}

/// Builds the liveness report from the probe outcome and its latency.
pub fn health_check_status(ping: Result<bool, ApiError>, latency_ms: u64) -> (r: ServiceHealth)
    ensures
        r@ == spec_health_check_status(
            match ping {
                Ok(b) => Ok(b),
                Err(e) => Err(e@),
            },
            latency_ms as int,
        ),
{
    match ping {
        Ok(true) => ServiceHealth::Healthy { latency_ms },
        Ok(false) => ServiceHealth::Unhealthy { reason: "Empty viewer login".to_owned() },
        Err(e) => ServiceHealth::Unhealthy { reason: e.message() },
    }
}

/// One parameter's entry in the published method catalog.
pub open spec fn spec_param_info(
    name: Seq<char>,
    ptype: Seq<char>,
    required: bool,
    default: Option<ValModel>,
) -> ValModel {
    ValModel::Obj(
        seq![
            ("name"@, ValModel::Str(name)),
            ("param_type"@, ValModel::Str(ptype)),
            ("required"@, ValModel::Bool(required)),
            (
                "default"@,
                match default {
                    Some(d) => d,
                    None => ValModel::Null,
                },
            ),
        ],
    )
}

/// Builds one parameter entry of the catalog.
fn param_info(name: &str, ptype: &str, required: bool, default: Option<Val>) -> (r: Val)
    ensures
        r@ == spec_param_info(name@, ptype@, required, opt_view(default)),
{
    broadcast use group_val_model;

    let ghost dm = opt_view(default);
    let mut fs: Vec<(String, Val)> = Vec::new();
    fs.push(("name".to_owned(), Val::str_of(name)));
    fs.push(("param_type".to_owned(), Val::str_of(ptype)));
    fs.push(("required".to_owned(), Val::Bool(required)));
    let dv = match default {
        Some(d) => d,
        None => Val::Null,
    };
    fs.push(("default".to_owned(), dv));
    let r = Val::Obj(fs);
    proof {
        assert(fs@.len() == 4);
        assert(r@ == ValModel::Obj(fields_model(fs@)));
        assert(r@->Obj_0 =~= spec_param_info(name@, ptype@, required, dm)->Obj_0);
    }
    r
}

/// One method's entry in the published catalog.
pub open spec fn spec_method_info(
    name: Seq<char>,
    description: Seq<char>,
    params: Seq<ValModel>,
) -> ValModel {
    ValModel::Obj(
        seq![
            ("name"@, ValModel::Str(name)),
            ("description"@, ValModel::Str(description)),
            ("params"@, ValModel::Arr(params)),
        ],
    )
}

/// Builds one method entry of the catalog.
fn method_info(name: &str, description: &str, params: Vec<Val>) -> (r: Val)
    ensures
        r@ == spec_method_info(name@, description@, seq_model(params@)),
{
    broadcast use group_val_model;

    let ghost pm = seq_model(params@);
    let mut fs: Vec<(String, Val)> = Vec::new();
    fs.push(("name".to_owned(), Val::str_of(name)));
    fs.push(("description".to_owned(), Val::str_of(description)));
    fs.push(("params".to_owned(), Val::Arr(params)));
    let r = Val::Obj(fs);
    proof {
        assert(fs@.len() == 3);
        assert(r@ == ValModel::Obj(fields_model(fs@)));
        assert(r@->Obj_0 =~= spec_method_info(name@, description@, pm)->Obj_0);
    }
    r
}

/// The parameter triple of the two repository-scoped list methods.
pub open spec fn spec_list_params() -> Seq<ValModel> {
    seq![
        spec_param_info("repo"@, "string"@, true, None),
        spec_param_info("state"@, "string"@, false, Some(ValModel::Str("open"@))),
        spec_param_info("limit"@, "integer"@, false, Some(ValModel::Int(10))),
    ]
}

fn list_params() -> (r: Vec<Val>)
    ensures
        seq_model(r@) == spec_list_params(),
{
    broadcast use group_val_model;

    let mut ps: Vec<Val> = Vec::new();
    ps.push(param_info("repo", "string", true, None));
    ps.push(param_info("state", "string", false, Some(Val::str_of("open"))));
    ps.push(param_info("limit", "integer", false, Some(Val::Int(10))));
    proof {
        assert(seq_model(ps@) =~= spec_list_params());
    }
    ps
}

/// The machine-readable catalog of the method table: name, description and
/// parameter shape of every method, defaults included.
pub open spec fn spec_method_list() -> ValModel {
    ValModel::Arr(
        seq![
            spec_method_info(
                "github.health"@,
                "Check service health and API connectivity"@,
                Seq::empty(),
            ),
            spec_method_info("github.user"@, "Get current authenticated user"@, Seq::empty()),
            spec_method_info(
                "github.repos"@,
                "List your repositories"@,
                seq![spec_param_info("limit"@, "integer"@, false, Some(ValModel::Int(10)))],
            ),
            spec_method_info("github.issues"@, "List issues for a repository"@, spec_list_params()),
            spec_method_info(
                "github.prs"@,
                "List pull requests for a repository"@,
                spec_list_params(),
            ),
            spec_method_info(
                "github.pr"@,
                "Get pull request details with reviews and status checks"@,
                seq![
                    spec_param_info("repo"@, "string"@, true, None),
                    spec_param_info("number"@, "integer"@, true, None),
                ],
            ),
            spec_method_info("github.notifications"@, "Get unread notifications"@, Seq::empty()),
            spec_method_info(
                "github.create_issue"@,
                "Create a new issue"@,
                seq![
                    spec_param_info("repo"@, "string"@, true, None),
                    spec_param_info("title"@, "string"@, true, None),
                    spec_param_info("body"@, "string"@, false, None),
                ],
            ),
        ],
    )
}

/// Builds the published method catalog.
pub fn method_list_val() -> (r: Val)
    ensures
        r@ == spec_method_list(),
{
    broadcast use group_val_model;

    let mut methods: Vec<Val> = Vec::new();

    let health_ps: Vec<Val> = Vec::new();
    proof {
        assert(seq_model(health_ps@) =~= Seq::<ValModel>::empty());
    }
    methods.push(
        method_info("github.health", "Check service health and API connectivity", health_ps),
    );

    let empty0: Vec<Val> = Vec::new();
    proof {
        assert(seq_model(empty0@) =~= Seq::<ValModel>::empty());
    }
    methods.push(method_info("github.user", "Get current authenticated user", empty0));

    let mut repos_ps: Vec<Val> = Vec::new();
    repos_ps.push(param_info("limit", "integer", false, Some(Val::Int(10))));
    proof {
        assert(seq_model(repos_ps@) =~= seq![
            spec_param_info("limit"@, "integer"@, false, Some(ValModel::Int(10))),
        ]);
    }
    methods.push(method_info("github.repos", "List your repositories", repos_ps));

    methods.push(method_info("github.issues", "List issues for a repository", list_params()));
    methods.push(method_info("github.prs", "List pull requests for a repository", list_params()));

    let mut pr_ps: Vec<Val> = Vec::new();
    pr_ps.push(param_info("repo", "string", true, None));
    pr_ps.push(param_info("number", "integer", true, None));
    proof {
        assert(seq_model(pr_ps@) =~= seq![
            spec_param_info("repo"@, "string"@, true, None),
            spec_param_info("number"@, "integer"@, true, None),
        ]);
    }
    methods.push(
        method_info("github.pr", "Get pull request details with reviews and status checks", pr_ps),
    );

    let empty1: Vec<Val> = Vec::new();
    proof {
        assert(seq_model(empty1@) =~= Seq::<ValModel>::empty());
    }
    methods.push(method_info("github.notifications", "Get unread notifications", empty1));

    let mut ci_ps: Vec<Val> = Vec::new();
    ci_ps.push(param_info("repo", "string", true, None));
    ci_ps.push(param_info("title", "string", true, None));
    ci_ps.push(param_info("body", "string", false, None));
    proof {
        assert(seq_model(ci_ps@) =~= seq![
            spec_param_info("repo"@, "string"@, true, None),
            spec_param_info("title"@, "string"@, true, None),
            spec_param_info("body"@, "string"@, false, None),
        ]);
    }
    methods.push(method_info("github.create_issue", "Create a new issue", ci_ps));

    let r = Val::Arr(methods);
    proof {
        assert(r@ == ValModel::Arr(seq_model(methods@)));
        assert(seq_model(methods@) =~= spec_method_list()->Arr_0);
    }
    r
}

} // verus!
