use fgp_github::dispatch::{
    create_issue_result, dispatch_plan, health_check_status, health_value, issues_result,
    method_list_val, notifications_result, on_start_outcome, parse_repo, ping_response, pr_response,
    repo_id_response, created_issue_response, issues_response, repos_response, prs_response,
    notifications_response, Plan, ServiceHealth,
};
use fgp_github::errors::ApiError;
use fgp_github::models::Notification;
use fgp_github::queries::{issue_states_filter, issues_query, pr_states_filter};
use fgp_github::transport::graphql_envelope;
use fgp_github::value::Val;

fn s(x: &str) -> String {
    x.to_string()
}

fn obj(fields: Vec<(&str, Val)>) -> Val {
    Val::Obj(fields.into_iter().map(|(k, v)| (k.to_string(), v)).collect())
}

#[test]
fn repo_must_have_exactly_two_segments() {
    assert!(matches!(parse_repo("foo"), Err(ApiError::InvalidRepoFormat { .. })));
    assert!(matches!(parse_repo("a/b/c"), Err(ApiError::InvalidRepoFormat { .. })));
    assert!(matches!(parse_repo(""), Err(ApiError::InvalidRepoFormat { .. })));
    let (owner, name) = parse_repo("octocat/hello-world").unwrap();
    assert_eq!(owner, "octocat");
    assert_eq!(name, "hello-world");
}

#[test]
fn bad_repo_parameter_is_not_defaulted() {
    let params = obj(vec![("repo", Val::Str(s("foo")))]);
    let r = dispatch_plan("issues", &params);
    match r {
        Err(ApiError::InvalidRepoFormat { got }) => assert_eq!(got, "foo"),
        _ => panic!("expected the repo-format failure"),
    }
}

#[test]
fn state_filters_normalize_case_insensitively() {
    assert_eq!(issue_states_filter("open"), "[OPEN]");
    assert_eq!(issue_states_filter("OPEN"), "[OPEN]");
    assert_eq!(issue_states_filter("closed"), "[CLOSED]");
    assert_eq!(issue_states_filter("all"), "[OPEN, CLOSED]");
    // Merged is no issue state: it falls back to open-only.
    assert_eq!(issue_states_filter("merged"), "[OPEN]");
    assert_eq!(issue_states_filter("bogus"), "[OPEN]");
    assert_eq!(pr_states_filter("open"), "[OPEN]");
    assert_eq!(pr_states_filter("Closed"), "[CLOSED]");
    assert_eq!(pr_states_filter("MERGED"), "[MERGED]");
    assert_eq!(pr_states_filter("all"), "[OPEN, CLOSED, MERGED]");
    assert_eq!(pr_states_filter("bogus"), "[OPEN]");
}

#[test]
fn issues_query_interpolates_the_filter() {
    let q = issues_query("all");
    assert!(q.contains("states: [OPEN, CLOSED],"));
    let q2 = issues_query("nonsense");
    assert!(q2.contains("states: [OPEN],"));
}

#[test]
fn dispatch_resolves_bare_and_namespaced_names() {
    let empty = obj(vec![]);
    assert!(matches!(dispatch_plan("health", &empty), Ok(Plan::Health)));
    assert!(matches!(dispatch_plan("github.health", &empty), Ok(Plan::Health)));
    assert!(matches!(dispatch_plan("user", &empty), Ok(Plan::CurrentUser)));
    assert!(matches!(dispatch_plan("github.user", &empty), Ok(Plan::CurrentUser)));
    assert!(matches!(dispatch_plan("repos", &empty), Ok(Plan::Repos { limit: 10 })));
    assert!(matches!(dispatch_plan("github.repos", &empty), Ok(Plan::Repos { limit: 10 })));
    assert!(matches!(dispatch_plan("notifications", &empty), Ok(Plan::Notifications)));
    match dispatch_plan("nonsense", &empty) {
        Err(ApiError::UnknownMethod { name }) => assert_eq!(name, "nonsense"),
        _ => panic!("expected the unknown-method failure"),
    }
}

#[test]
fn missing_required_parameters_are_reported() {
    let empty = obj(vec![]);
    match dispatch_plan("issues", &empty) {
        Err(ApiError::MissingParameter { name }) => assert_eq!(name, "repo"),
        _ => panic!("expected the missing-parameter failure"),
    }
    let with_repo = obj(vec![("repo", Val::Str(s("a/b")))]);
    match dispatch_plan("pr", &with_repo) {
        Err(ApiError::MissingParameter { name }) => assert_eq!(name, "number"),
        _ => panic!("expected the missing-parameter failure"),
    }
    match dispatch_plan("create_issue", &with_repo) {
        Err(ApiError::MissingParameter { name }) => assert_eq!(name, "title"),
        _ => panic!("expected the missing-parameter failure"),
    }
}

#[test]
fn permissive_parameters_fall_back_to_defaults() {
    // A wrong-typed limit is treated as absent, not as a type error.
    let params = obj(vec![("limit", Val::Str(s("many")))]);
    assert!(matches!(dispatch_plan("repos", &params), Ok(Plan::Repos { limit: 10 })));
    // A wrong-typed state falls back to the default state.
    let params2 = obj(vec![("repo", Val::Str(s("a/b"))), ("state", Val::Int(3))]);
    match dispatch_plan("issues", &params2) {
        Ok(Plan::Issues { state, limit, .. }) => {
            assert_eq!(state, "open");
            assert_eq!(limit, 10);
        },
        _ => panic!("expected an issues plan"),
    }
}

fn issue_node(number: i64, state: &str) -> Val {
    obj(vec![
        ("number", Val::Int(number)),
        ("title", Val::Str(s("t"))),
        ("state", Val::Str(s(state))),
        ("url", Val::Str(s("u"))),
        ("createdAt", Val::Str(s("c"))),
        ("updatedAt", Val::Str(s("d"))),
        ("author", obj(vec![("login", Val::Str(s("octocat")))])),
        ("labels", obj(vec![("nodes", Val::Arr(vec![]))])),
        ("comments", obj(vec![("totalCount", Val::Int(0))])),
    ])
}

#[test]
fn issues_with_state_all_count_five() {
    // A repository with 3 open and 2 closed issues, asked with state "all"
    // and limit 5.
    let params = obj(vec![
        ("repo", Val::Str(s("octocat/hello-world"))),
        ("state", Val::Str(s("all"))),
        ("limit", Val::Int(5)),
    ]);
    let plan = dispatch_plan("issues", &params).unwrap();
    let (repo, state) = match &plan {
        Plan::Issues { repo, state, limit, owner, name } => {
            assert_eq!(owner, "octocat");
            assert_eq!(name, "hello-world");
            assert_eq!(*limit, 5);
            (repo.clone(), state.clone())
        },
        _ => panic!("expected an issues plan"),
    };
    let nodes: Vec<Val> = vec![
        issue_node(1, "OPEN"),
        issue_node(2, "OPEN"),
        issue_node(3, "OPEN"),
        issue_node(4, "CLOSED"),
        issue_node(5, "CLOSED"),
    ];
    let body = obj(vec![(
        "data",
        obj(vec![(
            "repository",
            obj(vec![("issues", obj(vec![("nodes", Val::Arr(nodes))]))]),
        )]),
    )]);
    let env = graphql_envelope(200, "", Some(body)).unwrap();
    let issues = issues_response(Ok(env)).unwrap();
    assert_eq!(issues.len(), 5);
    let result = issues_result(&repo, &state, &issues);
    assert_eq!(result.get_i32("count"), Some(5));
    assert_eq!(result.get_str("state"), Some(s("all")));
    assert_eq!(result.get_str("repo"), Some(s("octocat/hello-world")));
}

#[test]
fn missing_pr_fails_with_an_upstream_error() {
    // The upstream answer for a repo that lacks the requested number:
    // a null pull request and an explanatory error.
    let body = obj(vec![
        (
            "data",
            obj(vec![("repository", obj(vec![("pullRequest", Val::Null)]))]),
        ),
        (
            "errors",
            Val::Arr(vec![obj(vec![(
                "message",
                Val::Str(s("Could not resolve to a PullRequest with the number of 999.")),
            )])]),
        ),
    ]);
    let env = graphql_envelope(200, "", Some(body)).unwrap();
    let r = pr_response(Ok(env));
    match r {
        Err(ApiError::UpstreamQueryError { messages }) => {
            assert_eq!(messages.len(), 1);
            assert!(messages[0].contains("Could not resolve"));
        },
        _ => panic!("expected an upstream failure, not a panic or empty success"),
    }
}

#[test]
fn empty_login_is_unhealthy_even_when_connected() {
    let body = obj(vec![(
        "data",
        obj(vec![("viewer", obj(vec![("login", Val::Str(s("")))]))]),
    )]);
    let env = graphql_envelope(200, "", Some(body)).unwrap();
    let ok = ping_response(Ok(env)).unwrap();
    assert!(!ok);
    let health = health_value(ok, "0.2.0");
    assert_eq!(health.get_str("status"), Some(s("unhealthy")));
    assert_eq!(health.get_bool("api_connected"), Some(false));
    assert_eq!(health.get_str("version"), Some(s("0.2.0")));
    match health_check_status(Ok(false), 12) {
        ServiceHealth::Unhealthy { reason } => assert_eq!(reason, "Empty viewer login"),
        _ => panic!("expected an unhealthy report"),
    }
}

#[test]
fn non_empty_login_is_healthy() {
    let body = obj(vec![(
        "data",
        obj(vec![("viewer", obj(vec![("login", Val::Str(s("octocat")))]))]),
    )]);
    let env = graphql_envelope(200, "", Some(body)).unwrap();
    assert!(ping_response(Ok(env)).unwrap());
    let health = health_value(true, "0.2.0");
    assert_eq!(health.get_str("status"), Some(s("healthy")));
    assert!(matches!(health_check_status(Ok(true), 12), ServiceHealth::Healthy { latency_ms: 12 }));
}

#[test]
fn startup_probe_fails_fast_only_on_transport_failure() {
    assert!(on_start_outcome(Ok(true)).is_ok());
    assert!(on_start_outcome(Ok(false)).is_ok());
    let e = ApiError::TransportError { status: 0, body: s("no route") };
    assert!(on_start_outcome(Err(e)).is_err());
}

#[test]
fn method_catalog_lists_every_method() {
    let catalog = method_list_val();
    let entries = match &catalog {
        Val::Arr(xs) => xs,
        _ => panic!("expected an array"),
    };
    assert_eq!(entries.len(), 8);
    assert_eq!(entries[0].get_str("name"), Some(s("github.health")));
    assert_eq!(entries[1].get_str("name"), Some(s("github.user")));
    assert_eq!(entries[7].get_str("name"), Some(s("github.create_issue")));
    // The issues entry publishes its defaults.
    let issues_params = match entries[3].get("params") {
        Some(Val::Arr(ps)) => ps,
        _ => panic!("expected parameters"),
    };
    assert_eq!(issues_params.len(), 3);
    assert_eq!(issues_params[1].get_str("default"), Some(s("open")));
    assert_eq!(issues_params[2].get_i32("default"), Some(10));
}

#[test]
fn notifications_count_unread_entries() {
    let make = |id: &str, unread: bool| Notification {
        id: s(id),
        unread,
        reason: s("mention"),
        subject_title: s("t"),
        subject_type: s("Issue"),
        subject_url: None,
        repo_full_name: s("octocat/repo"),
        updated_at: s("u"),
    };
    let ns = vec![make("1", true), make("2", false), make("3", true)];
    let result = notifications_result(&ns);
    assert_eq!(result.get_i32("unread_count"), Some(2));
}

#[test]
fn notifications_map_from_the_resource_body() {
    let elem = obj(vec![
        ("id", Val::Str(s("12345"))),
        ("unread", Val::Bool(true)),
        ("reason", Val::Str(s("mention"))),
        (
            "subject",
            obj(vec![
                ("title", Val::Str(s("You were mentioned"))),
                ("type", Val::Str(s("Issue"))),
                ("url", Val::Null),
            ]),
        ),
        ("repository", obj(vec![("full_name", Val::Str(s("octocat/repo")))])),
        ("updated_at", Val::Str(s("2024-01-14T00:00:00Z"))),
    ]);
    let ns = notifications_response(Ok(Val::Arr(vec![elem]))).unwrap();
    assert_eq!(ns.len(), 1);
    assert_eq!(ns[0].id, "12345");
    assert!(ns[0].subject_url.is_none());
}

#[test]
fn create_issue_flow_maps_and_wraps() {
    let id_body = obj(vec![(
        "data",
        obj(vec![("repository", obj(vec![("id", Val::Str(s("R_node123")))]))]),
    )]);
    let env = graphql_envelope(200, "", Some(id_body)).unwrap();
    assert_eq!(repo_id_response(Ok(env)).unwrap(), "R_node123");

    let created_body = obj(vec![(
        "data",
        obj(vec![(
            "createIssue",
            obj(vec![(
                "issue",
                obj(vec![
                    ("number", Val::Int(77)),
                    ("title", Val::Str(s("New bug"))),
                    ("state", Val::Str(s("OPEN"))),
                    ("url", Val::Str(s("u"))),
                    ("createdAt", Val::Str(s("c"))),
                    ("updatedAt", Val::Str(s("d"))),
                    ("author", obj(vec![("login", Val::Str(s("octocat")))])),
                ]),
            )]),
        )]),
    )]);
    let env2 = graphql_envelope(200, "", Some(created_body)).unwrap();
    let issue = created_issue_response(Ok(env2)).unwrap();
    assert_eq!(issue.number, 77);
    assert!(issue.labels.is_empty());
    assert_eq!(issue.comment_count, 0);
    let wrapped = create_issue_result(&issue);
    assert_eq!(wrapped.get_bool("created"), Some(true));
    assert!(wrapped.get("issue").is_some());
}

#[test]
fn repo_and_pr_lists_map_from_response_data() {
    let repo_node = obj(vec![
        ("name", Val::Str(s("hello-world"))),
        ("nameWithOwner", Val::Str(s("octocat/hello-world"))),
        ("description", Val::Null),
        ("url", Val::Str(s("u"))),
        ("isPrivate", Val::Bool(false)),
        ("isFork", Val::Bool(true)),
        ("stargazerCount", Val::Int(9)),
        ("forkCount", Val::Int(4)),
        ("primaryLanguage", obj(vec![("name", Val::Str(s("Rust")))])),
        ("updatedAt", Val::Str(s("t"))),
        ("pushedAt", Val::Null),
    ]);
    let body = obj(vec![(
        "data",
        obj(vec![(
            "viewer",
            obj(vec![("repositories", obj(vec![("nodes", Val::Arr(vec![repo_node]))]))]),
        )]),
    )]);
    let env = graphql_envelope(200, "", Some(body)).unwrap();
    let repos = repos_response(Ok(env)).unwrap();
    assert_eq!(repos.len(), 1);
    assert_eq!(repos[0].language, Some(s("Rust")));
    assert!(repos[0].is_fork);
    assert!(repos[0].pushed_at.is_none());

    let pr_node = obj(vec![
        ("number", Val::Int(123)),
        ("title", Val::Str(s("t"))),
        ("state", Val::Str(s("OPEN"))),
        ("url", Val::Str(s("u"))),
        ("isDraft", Val::Bool(true)),
        ("mergeable", Val::Str(s("UNKNOWN"))),
        ("createdAt", Val::Str(s("c"))),
        ("updatedAt", Val::Str(s("d"))),
        ("author", Val::Null),
        ("headRefName", Val::Str(s("feature"))),
        ("baseRefName", Val::Str(s("main"))),
        ("additions", Val::Int(10)),
        ("deletions", Val::Int(2)),
        ("changedFiles", Val::Int(1)),
        ("commits", obj(vec![("totalCount", Val::Int(4))])),
        ("comments", obj(vec![("totalCount", Val::Int(0))])),
        (
            "reviews",
            obj(vec![(
                "nodes",
                Val::Arr(vec![obj(vec![
                    ("author", obj(vec![("login", Val::Str(s("approver")))])),
                    ("state", Val::Str(s("APPROVED"))),
                    ("submittedAt", Val::Null),
                ])]),
            )]),
        ),
    ]);
    let body2 = obj(vec![(
        "data",
        obj(vec![(
            "repository",
            obj(vec![("pullRequests", obj(vec![("nodes", Val::Arr(vec![pr_node]))]))]),
        )]),
    )]);
    let env2 = graphql_envelope(200, "", Some(body2)).unwrap();
    let prs = prs_response(Ok(env2)).unwrap();
    assert_eq!(prs.len(), 1);
    assert!(prs[0].is_draft);
    assert!(prs[0].author.is_none());
    assert_eq!(prs[0].reviews[0].author, Some(s("approver")));
    assert!(prs[0].reviews[0].submitted_at.is_none());
}

#[test]
fn integer_parameters_truncate_like_the_wire_format() {
    // A limit wider than the machine word of the parameter wraps, as an
    // untyped numeric parameter does.
    let params = obj(vec![("limit", Val::Int((1i64 << 32) + 7))]);
    assert!(matches!(dispatch_plan("repos", &params), Ok(Plan::Repos { limit: 7 })));
}
