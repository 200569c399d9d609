use fgp_github::dispatch::{user_fetch_next, user_response, UserFetch};
use fgp_github::errors::{is_scope_error, ApiError};
use fgp_github::transport::{envelope_from_val, graphql_envelope, rest_envelope};
use fgp_github::value::Val;

fn s(x: &str) -> String {
    x.to_string()
}

fn obj(fields: Vec<(&str, Val)>) -> Val {
    Val::Obj(fields.into_iter().map(|(k, v)| (k.to_string(), v)).collect())
}

fn errors_body(messages: Vec<&str>) -> Val {
    obj(vec![
        ("data", Val::Null),
        (
            "errors",
            Val::Arr(
                messages
                    .into_iter()
                    .map(|m| obj(vec![("message", Val::Str(s(m)))]))
                    .collect(),
            ),
        ),
    ])
}

fn viewer_body(login: &str, email: Option<&str>) -> Val {
    let mut viewer = vec![
        ("login", Val::Str(s(login))),
        ("avatarUrl", Val::Str(s("https://example.invalid/a.png"))),
        ("createdAt", Val::Str(s("2020-01-01T00:00:00Z"))),
        ("repositories", obj(vec![("totalCount", Val::Int(1))])),
        ("followers", obj(vec![("totalCount", Val::Int(2))])),
        ("following", obj(vec![("totalCount", Val::Int(3))])),
    ];
    if let Some(e) = email {
        viewer.push(("email", Val::Str(s(e))));
    }
    obj(vec![("data", obj(vec![("viewer", obj(viewer))]))])
}

#[test]
fn non_success_status_is_a_transport_error() {
    let r = graphql_envelope(404, "Not Found", None);
    match r {
        Err(ApiError::TransportError { status, body }) => {
            assert_eq!(status, 404);
            assert_eq!(body, "Not Found");
        },
        _ => panic!("expected a transport error"),
    }
}

#[test]
fn transport_error_body_is_truncated() {
    let long = "x".repeat(600);
    let r = graphql_envelope(500, &long, None);
    match r {
        Err(ApiError::TransportError { status, body }) => {
            assert_eq!(status, 500);
            assert_eq!(body.len(), 500);
        },
        _ => panic!("expected a transport error"),
    }
}

#[test]
fn unparsable_body_is_malformed() {
    assert!(matches!(graphql_envelope(200, "not json", None), Err(ApiError::MalformedResponse)));
    assert!(matches!(rest_envelope(200, "not json", None), Err(ApiError::MalformedResponse)));
}

#[test]
fn envelope_with_neither_data_nor_errors_fails_closed() {
    let env = graphql_envelope(200, "{}", Some(obj(vec![]))).unwrap();
    // The call that consumes it reports a malformed response.
    let r = user_response(Ok(env));
    assert!(matches!(r, Err(ApiError::MalformedResponse)));
}

#[test]
fn empty_error_list_without_data_fails_closed() {
    let body = obj(vec![("data", Val::Null), ("errors", Val::Arr(vec![]))]);
    let env = graphql_envelope(200, "", Some(body)).unwrap();
    let r = user_response(Ok(env));
    assert!(matches!(r, Err(ApiError::MalformedResponse)));
}

#[test]
fn envelope_splits_data_and_errors() {
    let env = envelope_from_val(errors_body(vec!["boom"])).unwrap();
    assert!(env.data.is_none());
    let errs = env.errors.unwrap();
    assert_eq!(errs.len(), 1);
    assert_eq!(errs[0].message, "boom");
}

#[test]
fn upstream_errors_surface_with_their_messages() {
    let env = graphql_envelope(200, "", Some(errors_body(vec!["first", "second"]))).unwrap();
    let r = user_response(Ok(env));
    match r {
        Err(ApiError::UpstreamQueryError { messages }) => {
            assert_eq!(messages, vec![s("first"), s("second")]);
        },
        _ => panic!("expected an upstream failure"),
    }
}

#[test]
fn joined_error_message_keeps_all_messages() {
    let e = ApiError::UpstreamQueryError { messages: vec![s("first"), s("second")] };
    assert_eq!(e.message(), "GraphQL errors: first, second");
}

#[test]
fn scope_failure_triggers_exactly_one_retry() {
    let scope_err = ApiError::UpstreamQueryError {
        messages: vec![s("Your token has not been granted the required scopes: user:email")],
    };
    assert!(is_scope_error(&scope_err));
    // First attempt: the scope signature retries.
    assert!(matches!(user_fetch_next(true, Err(scope_err)), UserFetch::Retry));
    // Second attempt: the same failure finishes; the fallback is bounded.
    let scope_err_again = ApiError::UpstreamQueryError {
        messages: vec![s("still lacking read:user scope")],
    };
    assert!(matches!(user_fetch_next(false, Err(scope_err_again)), UserFetch::Done(Err(_))));
}

#[test]
fn other_failures_propagate_without_retry() {
    let other = ApiError::UpstreamQueryError { messages: vec![s("rate limit exceeded")] };
    assert!(!is_scope_error(&other));
    assert!(matches!(user_fetch_next(true, Err(other)), UserFetch::Done(Err(_))));
    let transport = ApiError::TransportError { status: 502, body: s("bad gateway") };
    assert!(matches!(user_fetch_next(true, Err(transport)), UserFetch::Done(Err(_))));
}

#[test]
fn fallback_user_has_absent_email() {
    // First attempt fails with the scope signature.
    let first = graphql_envelope(
        200,
        "",
        Some(errors_body(vec!["field requires user:email scope"])),
    )
    .unwrap();
    let outcome = user_response(Ok(first));
    assert!(matches!(user_fetch_next(true, outcome), UserFetch::Retry));
    // The reduced query's response carries no email field.
    let second = graphql_envelope(200, "", Some(viewer_body("octocat", None))).unwrap();
    let user = user_response(Ok(second)).unwrap();
    assert_eq!(user.login, "octocat");
    assert!(user.email.is_none());
}

#[test]
fn full_query_user_keeps_email() {
    let env = graphql_envelope(200, "", Some(viewer_body("octocat", Some("o@g.h")))).unwrap();
    let user = user_response(Ok(env)).unwrap();
    assert_eq!(user.email, Some(s("o@g.h")));
    assert_eq!(user.followers, 2);
}

#[test]
fn transport_error_message_renders_status_digits() {
    let e = ApiError::TransportError { status: 404, body: s("Not Found") };
    assert_eq!(e.message(), "request failed: 404 - Not Found");
    let z = ApiError::TransportError { status: 0, body: s("connect failure") };
    assert_eq!(z.message(), "request failed: 0 - connect failure");
}
