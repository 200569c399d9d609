use fgp_github::models::{Issue, Notification, PullRequest, Repository, Review, User};
use fgp_github::value::Val;

fn s(x: &str) -> String {
    x.to_string()
}

#[test]
fn test_user_serialization() {
    let user = User {
        login: s("octocat"),
        name: Some(s("The Octocat")),
        email: Some(s("octocat@github.com")),
        avatar_url: s("https://github.com/images/error/octocat.png"),
        bio: Some(s("A developer")),
        company: Some(s("@github")),
        location: Some(s("San Francisco")),
        website_url: Some(s("https://github.com/octocat")),
        twitter_username: Some(s("octocat")),
        public_repos: 42,
        followers: 1000,
        following: 10,
        created_at: s("2008-01-14T04:33:35Z"),
    };

    let val = user.to_val();
    let parsed = User::from_val(&val).unwrap();

    assert_eq!(parsed.login, "octocat");
    assert_eq!(parsed.public_repos, 42);
}

#[test]
fn test_repository_serialization() {
    let repo = Repository {
        name: s("hello-world"),
        full_name: s("octocat/hello-world"),
        description: Some(s("My first repo")),
        url: s("https://github.com/octocat/hello-world"),
        is_private: false,
        is_fork: false,
        stars: 100,
        forks: 50,
        language: Some(s("Rust")),
        updated_at: s("2024-01-14T00:00:00Z"),
        pushed_at: Some(s("2024-01-14T00:00:00Z")),
    };

    let val = repo.to_val();
    let parsed = Repository::from_val(&val).unwrap();

    assert_eq!(parsed.full_name, "octocat/hello-world");
    assert_eq!(parsed.stars, 100);
}

#[test]
fn test_issue_serialization() {
    let issue = Issue {
        number: 42,
        title: s("Found a bug"),
        state: s("OPEN"),
        url: s("https://github.com/octocat/repo/issues/42"),
        created_at: s("2024-01-14T00:00:00Z"),
        updated_at: s("2024-01-14T00:00:00Z"),
        author: Some(s("octocat")),
        labels: vec![s("bug"), s("help wanted")],
        comment_count: 5,
    };

    let val = issue.to_val();
    let parsed = Issue::from_val(&val).unwrap();

    assert_eq!(parsed.number, 42);
    assert_eq!(parsed.labels.len(), 2);
}

#[test]
fn test_pull_request_serialization() {
    let pr = PullRequest {
        number: 123,
        title: s("Add new feature"),
        state: s("OPEN"),
        url: s("https://github.com/octocat/repo/pull/123"),
        is_draft: false,
        mergeable: s("MERGEABLE"),
        created_at: s("2024-01-14T00:00:00Z"),
        updated_at: s("2024-01-14T00:00:00Z"),
        author: Some(s("octocat")),
        head_branch: s("feature-branch"),
        base_branch: s("main"),
        additions: 100,
        deletions: 50,
        changed_files: 5,
        commit_count: 3,
        comment_count: 2,
        reviews: vec![Review {
            author: Some(s("approver")),
            state: s("APPROVED"),
            submitted_at: Some(s("2024-01-14T00:00:00Z")),
        }],
    };

    let val = pr.to_val();
    let parsed = PullRequest::from_val(&val).unwrap();

    assert_eq!(parsed.number, 123);
    assert_eq!(parsed.reviews.len(), 1);
    assert_eq!(parsed.reviews[0].state, "APPROVED");
}

#[test]
fn test_notification_serialization() {
    let notification = Notification {
        id: s("12345"),
        unread: true,
        reason: s("mention"),
        subject_title: s("You were mentioned"),
        subject_type: s("Issue"),
        subject_url: Some(s("https://api.github.com/repos/octocat/repo/issues/42")),
        repo_full_name: s("octocat/repo"),
        updated_at: s("2024-01-14T00:00:00Z"),
    };

    let val = notification.to_val();
    let parsed = Notification::from_val(&val).unwrap();

    assert_eq!(parsed.id, "12345");
    assert!(parsed.unread);
}

#[test]
fn round_trip_keeps_absent_optionals() {
    let user = User {
        login: s("ghost"),
        name: None,
        email: None,
        avatar_url: s("https://example.invalid/a.png"),
        bio: None,
        company: None,
        location: None,
        website_url: None,
        twitter_username: None,
        public_repos: 0,
        followers: 0,
        following: 0,
        created_at: s("2020-01-01T00:00:00Z"),
    };
    let parsed = User::from_val(&user.to_val()).unwrap();
    assert_eq!(parsed.login, "ghost");
    assert!(parsed.name.is_none());
    assert!(parsed.email.is_none());

    let review = Review { author: None, state: s("COMMENTED"), submitted_at: None };
    let back = Review::from_val(&review.to_val()).unwrap();
    assert!(back.author.is_none());
    assert!(back.submitted_at.is_none());
    assert_eq!(back.state, "COMMENTED");
}

#[test]
fn from_val_rejects_missing_required_field() {
    // An object without the required login is no user.
    let val = Val::Obj(vec![(s("name"), Val::Str(s("Nobody")))]);
    assert!(User::from_val(&val).is_none());
    // A non-object is no record at all.
    assert!(Issue::from_val(&Val::Int(3)).is_none());
}

#[test]
fn serialized_user_exposes_fields_as_values() {
    let user = User {
        login: s("octocat"),
        name: None,
        email: None,
        avatar_url: s("a"),
        bio: None,
        company: None,
        location: None,
        website_url: None,
        twitter_username: None,
        public_repos: 7,
        followers: 1,
        following: 2,
        created_at: s("t"),
    };
    let val = user.to_val();
    assert_eq!(val.get_str("login"), Some(s("octocat")));
    assert_eq!(val.get_i32("public_repos"), Some(7));
    // An absent optional serializes as null, not as a missing string.
    assert_eq!(val.get_str("name"), None);
}
