//! The response mapper: translates the endpoint-specific response shapes —
//! viewer objects, node lists, the notification list — into the domain
//! records. Required fields must be present with the right type; optional
//! fields surface as absent whatever stands in their place.
use vstd::prelude::*;

use crate::models::{
    Issue, IssueModel, PullRequest, PullRequestModel, Repository, RepositoryModel, Review,
    ReviewModel, User, UserModel, Notification, NotificationModel, strings_view, reviews_view,
};
use crate::value::{
    Val, ValModel, arr_field, bool_field, count_field, field_of, i32_field, opt_view, seq_model,
    str_field, group_val_model,
};

verus! {

broadcast use vstd::std_specs::vec::group_vec_axioms, vstd::seq::group_seq_axioms;

/// The string at `outer.inner`, if the whole path is there: the shape of
/// optional object-wrapped fields such as an author's login.
pub open spec fn spec_nested_str(m: ValModel, outer: Seq<char>, inner: Seq<char>) -> Option<
    Seq<char>,
> {
    match field_of(m, outer) {
        Some(o) => str_field(o, inner),
        None => None,
    }
}

impl Val {
    /// The string field at `outer.inner`, copied out.
    pub fn get_nested_str(&self, outer: &str, inner: &str) -> (r: Option<String>)
        ensures
            opt_view(r) == spec_nested_str(self@, outer@, inner@),
    {
        match self.get(outer) {
            Some(o) => o.get_str(inner),
            None => None,
        }
    }
}

/// The viewer's login out of the connectivity-probe response data.
pub open spec fn spec_viewer_login(m: ValModel) -> Option<Seq<char>> {
    spec_nested_str(m, "viewer"@, "login"@)
}

/// Extracts the viewer's login from the probe response data.
pub fn viewer_login(data: &Val) -> (r: Option<String>)
    ensures
        opt_view(r) == spec_viewer_login(data@),
{
    data.get_nested_str("viewer", "login")
}

/// The current user out of the viewer response data. The email field is
/// absent whenever the query did not carry it.
pub open spec fn spec_user_from_data(m: ValModel) -> Option<UserModel> {
    match field_of(m, "viewer"@) {
        Some(v) => match (
            str_field(v, "login"@),
            str_field(v, "avatarUrl"@),
            str_field(v, "createdAt"@),
            count_field(v, "repositories"@),
            count_field(v, "followers"@),
            count_field(v, "following"@),
        ) {
            (Some(login), Some(avatar_url), Some(created_at), Some(pr), Some(fo), Some(fg)) => Some(
                UserModel {
                    login,
                    name: str_field(v, "name"@),
                    email: str_field(v, "email"@),
                    avatar_url,
                    bio: str_field(v, "bio"@),
                    company: str_field(v, "company"@),
                    location: str_field(v, "location"@),
                    website_url: str_field(v, "websiteUrl"@),
                    twitter_username: str_field(v, "twitterUsername"@),
                    public_repos: pr,
                    followers: fo,
                    following: fg,
                    created_at,
                },
            ),
            _ => None,
        },
        None => None,
    }
}

/// Maps the viewer response data to the current user.
pub fn user_from_data(data: &Val) -> (r: Option<User>)
    ensures
        opt_view(r) == spec_user_from_data(data@),
{
    let viewer = match data.get("viewer") {
        Some(v) => v,
        None => {
            return None;
        },
    };
    let login = match viewer.get_str("login") {
        Some(s) => s,
        None => {
            return None;
        },
    };
    let avatar_url = match viewer.get_str("avatarUrl") {
        Some(s) => s,
        None => {
            return None;
        },
    };
    let created_at = match viewer.get_str("createdAt") {
        Some(s) => s,
        None => {
            return None;
        },
    };
    let public_repos = match viewer.get_count("repositories") {
        Some(n) => n,
        None => {
            return None;
        },
    };
    let followers = match viewer.get_count("followers") {
        Some(n) => n,
        None => {
            return None;
        },
    };
    let following = match viewer.get_count("following") {
        Some(n) => n,
        None => {
            return None;
        },
    };
    Some(
        User {
            login,
            name: viewer.get_str("name"),
            email: viewer.get_str("email"),
            avatar_url,
            bio: viewer.get_str("bio"),
            company: viewer.get_str("company"),
            location: viewer.get_str("location"),
            website_url: viewer.get_str("websiteUrl"),
            twitter_username: viewer.get_str("twitterUsername"),
            public_repos,
            followers,
            following,
            created_at,
        },
    )
}

/// One repository out of its list node.
pub open spec fn spec_repo_from_node(m: ValModel) -> Option<RepositoryModel> {
    match (
        str_field(m, "name"@),
        str_field(m, "nameWithOwner"@),
        str_field(m, "url"@),
        str_field(m, "updatedAt"@),
        bool_field(m, "isPrivate"@),
        bool_field(m, "isFork"@),
        i32_field(m, "stargazerCount"@),
        i32_field(m, "forkCount"@),
    ) {
        (
            Some(name),
            Some(full_name),
            Some(url),
            Some(updated_at),
            Some(is_private),
            Some(is_fork),
            Some(stars),
            Some(forks),
        ) => Some(
            RepositoryModel {
                name,
                full_name,
                description: str_field(m, "description"@),
                url,
                is_private,
                is_fork,
                stars,
                forks,
                language: spec_nested_str(m, "primaryLanguage"@, "name"@),
                updated_at,
                pushed_at: str_field(m, "pushedAt"@),
            },
        ),
        _ => None,
    }
}

/// Maps one repository list node.
pub fn repo_from_node(v: &Val) -> (r: Option<Repository>)
    ensures
        opt_view(r) == spec_repo_from_node(v@),
{
    let name = match v.get_str("name") {
        Some(s) => s,
        None => {
            return None;
        },
    };
    let full_name = match v.get_str("nameWithOwner") {
        Some(s) => s,
        None => {
            return None;
        },
    };
    let url = match v.get_str("url") {
        Some(s) => s,
        None => {
            return None;
        },
    };
    let updated_at = match v.get_str("updatedAt") {
        Some(s) => s,
        None => {
            return None;
        },
    };
    let is_private = match v.get_bool("isPrivate") {
        Some(b) => b,
        None => {
            return None;
        },
    };
    let is_fork = match v.get_bool("isFork") {
        Some(b) => b,
        None => {
            return None;
        },
    };
    let stars = match v.get_i32("stargazerCount") {
        Some(n) => n,
        None => {
            return None;
        },
    };
    let forks = match v.get_i32("forkCount") {
        Some(n) => n,
        None => {
            return None;
        },
    };
    Some(
        Repository {
            name,
            full_name,
            description: v.get_str("description"),
            url,
            is_private,
            is_fork,
            stars,
            forks,
            language: v.get_nested_str("primaryLanguage", "name"),
            updated_at,
            pushed_at: v.get_str("pushedAt"),
        },
    )
}

/// The repositories out of a node list: every node must map.
pub open spec fn spec_repos_from_nodes(s: Seq<ValModel>) -> Option<Seq<RepositoryModel>> {
    if forall|i: int| 0 <= i < s.len() ==> spec_repo_from_node(s[i]) is Some {
        Some(Seq::new(s.len(), |i: int| spec_repo_from_node(s[i])->Some_0))
    } else {
        None
    }
}

/// The models of a repository list.
pub open spec fn repos_view(s: Seq<Repository>) -> Seq<RepositoryModel> {
    Seq::new(s.len(), |i: int| s[i]@)
}

/// Maps a repository node list.
pub fn repos_from_nodes(xs: &Vec<Val>) -> (r: Option<Vec<Repository>>)
    ensures
        match r {
            Some(out) => spec_repos_from_nodes(seq_model(xs@)) == Some(repos_view(out@)),
            None => spec_repos_from_nodes(seq_model(xs@)) is None,
        },
{
    broadcast use group_val_model;

    let n = xs.len();
    let mut out: Vec<Repository> = Vec::new();
    let mut i: usize = 0;
    while i < n
        invariant
            i <= n == xs@.len(),
            out@.len() == i,
            forall|j: int|
                0 <= j < i ==> spec_repo_from_node((#[trigger] xs@[j])@) == Some(out@[j]@),
        decreases n - i,
    {
        match repo_from_node(&xs[i]) {
            Some(p) => {
                out.push(p);
            },
            None => {
                proof {
                    assert(seq_model(xs@)[i as int] == xs@[i as int]@);
                    assert(spec_repo_from_node(seq_model(xs@)[i as int]) is None);
                }
                return None;
            },
        }
        i = i + 1;
    }
    proof {
        assert(forall|i: int| 0 <= i < seq_model(xs@).len() ==> spec_repo_from_node(
            seq_model(xs@)[i],
        ) is Some);
        assert(spec_repos_from_nodes(seq_model(xs@))->Some_0 =~= repos_view(out@));
    }
    Some(out)
}

/// The repository list out of the viewer response data:
/// `viewer.repositories.nodes` must be an array whose nodes all map.
pub open spec fn spec_repos_from_data(m: ValModel) -> Option<Seq<RepositoryModel>> {
    match field_of(m, "viewer"@) {
        Some(v) => match field_of(v, "repositories"@) {
            Some(rp) => match arr_field(rp, "nodes"@) {
                Some(nodes) => spec_repos_from_nodes(nodes),
                None => None,
            },
            None => None,
        },
        None => None,
    }
}

/// Maps the repository-list response data.
pub fn repos_from_data(data: &Val) -> (r: Option<Vec<Repository>>)
    ensures
        match r {
            Some(out) => spec_repos_from_data(data@) == Some(repos_view(out@)),
            None => spec_repos_from_data(data@) is None,
        },
{
    let viewer = match data.get("viewer") {
        Some(v) => v,
        None => {
            return None;
        },
    };
    let repositories = match viewer.get("repositories") {
        Some(v) => v,
        None => {
            return None;
        },
    };
    let nodes = match repositories.get_arr("nodes") {
        Some(xs) => xs,
        None => {
            return None;
        },
    };
    repos_from_nodes(nodes)
}

/// The label names out of an array of label nodes: each needs a name.
pub open spec fn spec_names_from(s: Seq<ValModel>) -> Option<Seq<Seq<char>>> {
    if forall|i: int| 0 <= i < s.len() ==> str_field(#[trigger] s[i], "name"@) is Some {
        Some(Seq::new(s.len(), |i: int| str_field(s[i], "name"@)->Some_0))
    } else {
        None
    }
}

/// Maps label nodes to their names.
pub fn names_from_vals(xs: &Vec<Val>) -> (r: Option<Vec<String>>)
    ensures
        match r {
            Some(out) => spec_names_from(seq_model(xs@)) == Some(strings_view(out@)),
            None => spec_names_from(seq_model(xs@)) is None,
        },
{
    broadcast use group_val_model;

    let n = xs.len();
    let mut out: Vec<String> = Vec::new();
    let mut i: usize = 0;
    while i < n
        invariant
            i <= n == xs@.len(),
            out@.len() == i,
            forall|j: int|
                0 <= j < i ==> str_field((#[trigger] xs@[j])@, "name"@) == Some(out@[j]@),
        decreases n - i,
    {
        match xs[i].get_str("name") {
            Some(s) => {
                out.push(s);
            },
            None => {
                proof {
                    assert(seq_model(xs@)[i as int] == xs@[i as int]@);
                    assert(str_field(seq_model(xs@)[i as int], "name"@) is None);
                }
                return None;
            },
        }
        i = i + 1;
    }
    proof {
        assert(forall|i: int| 0 <= i < seq_model(xs@).len() ==> str_field(
            #[trigger] seq_model(xs@)[i],
            "name"@,
        ) is Some);
        assert(spec_names_from(seq_model(xs@))->Some_0 =~= strings_view(out@));
    }
    Some(out)
}

/// The labels of an issue node: `labels.nodes`, each node named.
pub open spec fn spec_labels_from_node(m: ValModel) -> Option<Seq<Seq<char>>> {
    match field_of(m, "labels"@) {
        Some(lb) => match arr_field(lb, "nodes"@) {
            Some(nodes) => spec_names_from(nodes),
            None => None,
        },
        None => None,
    }
}

/// One issue out of its list node.
pub open spec fn spec_issue_from_node(m: ValModel) -> Option<IssueModel> {
    match (
        str_field(m, "title"@),
        str_field(m, "state"@),
        str_field(m, "url"@),
        str_field(m, "createdAt"@),
        str_field(m, "updatedAt"@),
        i32_field(m, "number"@),
        count_field(m, "comments"@),
        spec_labels_from_node(m),
    ) {
        (
            Some(title),
            Some(state),
            Some(url),
            Some(created_at),
            Some(updated_at),
            Some(number),
            Some(comment_count),
            Some(labels),
        ) => Some(
            IssueModel {
                number,
                title,
                state,
                url,
                created_at,
                updated_at,
                author: spec_nested_str(m, "author"@, "login"@),
                labels,
                comment_count,
            },
        ),
        _ => None,
    }
}

/// Maps one issue list node.
pub fn issue_from_node(v: &Val) -> (r: Option<Issue>)
    ensures
        opt_view(r) == spec_issue_from_node(v@),
{
    let title = match v.get_str("title") {
        Some(s) => s,
        None => {
            return None;
        },
    };
    let state = match v.get_str("state") {
        Some(s) => s,
        None => {
            return None;
        },
    };
    let url = match v.get_str("url") {
        Some(s) => s,
        None => {
            return None;
        },
    };
    let created_at = match v.get_str("createdAt") {
        Some(s) => s,
        None => {
            return None;
        },
    };
    let updated_at = match v.get_str("updatedAt") {
        Some(s) => s,
        None => {
            return None;
        },
    };
    let number = match v.get_i32("number") {
        Some(n) => n,
        None => {
            return None;
        },
    };
    let comment_count = match v.get_count("comments") {
        Some(n) => n,
        None => {
            return None;
        },
    };
    let labels_obj = match v.get("labels") {
        Some(o) => o,
        None => {
            return None;
        },
    };
    let label_nodes = match labels_obj.get_arr("nodes") {
        Some(xs) => xs,
        None => {
            return None;
        },
    };
    let labels = match names_from_vals(label_nodes) {
        Some(ls) => ls,
        None => {
            return None;
        },
    };
    Some(
        Issue {
            number,
            title,
            state,
            url,
            created_at,
            updated_at,
            author: v.get_nested_str("author", "login"),
            labels,
            comment_count,
        },
    )
}

/// The models of an issue list.
pub open spec fn issues_view(s: Seq<Issue>) -> Seq<IssueModel> {
    Seq::new(s.len(), |i: int| s[i]@)
}

/// The issues out of a node list: every node must map.
pub open spec fn spec_issues_from_nodes(s: Seq<ValModel>) -> Option<Seq<IssueModel>> {
    if forall|i: int| 0 <= i < s.len() ==> spec_issue_from_node(s[i]) is Some {
        Some(Seq::new(s.len(), |i: int| spec_issue_from_node(s[i])->Some_0))
    } else {
        None
    }
}

/// Maps an issue node list.
pub fn issues_from_nodes(xs: &Vec<Val>) -> (r: Option<Vec<Issue>>)
    ensures
        match r {
            Some(out) => spec_issues_from_nodes(seq_model(xs@)) == Some(issues_view(out@)),
            None => spec_issues_from_nodes(seq_model(xs@)) is None,
        },
{
    broadcast use group_val_model;

    let n = xs.len();
    let mut out: Vec<Issue> = Vec::new();
    let mut i: usize = 0;
    while i < n
        invariant
            i <= n == xs@.len(),
            out@.len() == i,
            forall|j: int|
                0 <= j < i ==> spec_issue_from_node((#[trigger] xs@[j])@) == Some(out@[j]@),
        decreases n - i,
    {
        match issue_from_node(&xs[i]) {
            Some(s) => {
                out.push(s);
            },
            None => {
                proof {
                    assert(seq_model(xs@)[i as int] == xs@[i as int]@);
                    assert(spec_issue_from_node(seq_model(xs@)[i as int]) is None);
                }
                return None;
            },
        }
        i = i + 1;
    }
    proof {
        assert(forall|i: int| 0 <= i < seq_model(xs@).len() ==> spec_issue_from_node(
            seq_model(xs@)[i],
        ) is Some);
        assert(spec_issues_from_nodes(seq_model(xs@))->Some_0 =~= issues_view(out@));
    }
    Some(out)
}

/// The issue list out of the repository response data:
/// `repository.issues.nodes`.
pub open spec fn spec_issues_from_data(m: ValModel) -> Option<Seq<IssueModel>> {
    match field_of(m, "repository"@) {
        Some(rp) => match field_of(rp, "issues"@) {
            Some(is_obj) => match arr_field(is_obj, "nodes"@) {
                Some(nodes) => spec_issues_from_nodes(nodes),
                None => None,
            },
            None => None,
        },
        None => None,
    }
}

/// Maps the issue-list response data.
pub fn issues_from_data(data: &Val) -> (r: Option<Vec<Issue>>)
    ensures
        match r {
            Some(out) => spec_issues_from_data(data@) == Some(issues_view(out@)),
            None => spec_issues_from_data(data@) is None,
        },
{
    let repository = match data.get("repository") {
        Some(v) => v,
        None => {
            return None;
        },
    };
    let issues_obj = match repository.get("issues") {
        Some(v) => v,
        None => {
            return None;
        },
    };
    let nodes = match issues_obj.get_arr("nodes") {
        Some(xs) => xs,
        None => {
            return None;
        },
    };
    issues_from_nodes(nodes)
}

/// One review out of its query node: the state is required, the author and
/// the submission timestamp are optional.
pub open spec fn spec_review_from_node(m: ValModel) -> Option<ReviewModel> {
    match str_field(m, "state"@) {
        Some(state) => Some(
            ReviewModel {
                author: spec_nested_str(m, "author"@, "login"@),
                state,
                submitted_at: str_field(m, "submittedAt"@),
            },
        ),
        None => None,
    }
}

/// Maps one review query node.
pub fn review_from_node(v: &Val) -> (r: Option<Review>)
    ensures
        opt_view(r) == spec_review_from_node(v@),
{
    let state = match v.get_str("state") {
        Some(s) => s,
        None => {
            return None;
        },
    };
    Some(
        Review {
            author: v.get_nested_str("author", "login"),
            state,
            submitted_at: v.get_str("submittedAt"),
        },
    )
}

/// The reviews out of a node list: every node must map.
pub open spec fn spec_reviews_from_nodes(s: Seq<ValModel>) -> Option<Seq<ReviewModel>> {
    if forall|i: int| 0 <= i < s.len() ==> spec_review_from_node(s[i]) is Some {
        Some(Seq::new(s.len(), |i: int| spec_review_from_node(s[i])->Some_0))
    } else {
        None
    }
}

/// Maps a review node list.
pub fn reviews_from_nodes(xs: &Vec<Val>) -> (r: Option<Vec<Review>>)
    ensures
        match r {
            Some(out) => spec_reviews_from_nodes(seq_model(xs@)) == Some(reviews_view(out@)),
            None => spec_reviews_from_nodes(seq_model(xs@)) is None,
        },
{
    broadcast use group_val_model;

    let n = xs.len();
    let mut out: Vec<Review> = Vec::new();
    let mut i: usize = 0;
    while i < n
        invariant
            i <= n == xs@.len(),
            out@.len() == i,
            forall|j: int|
                0 <= j < i ==> spec_review_from_node((#[trigger] xs@[j])@) == Some(out@[j]@),
        decreases n - i,
    {
        match review_from_node(&xs[i]) {
            Some(rv) => {
                out.push(rv);
            },
            None => {
                proof {
                    assert(seq_model(xs@)[i as int] == xs@[i as int]@);
                    assert(spec_review_from_node(seq_model(xs@)[i as int]) is None);
                }
                return None;
            },
        }
        i = i + 1;
    }
    proof {
        assert(forall|i: int| 0 <= i < seq_model(xs@).len() ==> spec_review_from_node(
            seq_model(xs@)[i],
        ) is Some);
        assert(spec_reviews_from_nodes(seq_model(xs@))->Some_0 =~= reviews_view(out@));
    }
    Some(out)
}

/// One pull request out of its query node.
pub open spec fn spec_pr_from_node(m: ValModel) -> Option<PullRequestModel> {
    match (
        str_field(m, "title"@),
        str_field(m, "state"@),
        str_field(m, "url"@),
        str_field(m, "mergeable"@),
        str_field(m, "createdAt"@),
        str_field(m, "updatedAt"@),
        str_field(m, "headRefName"@),
        str_field(m, "baseRefName"@),
        bool_field(m, "isDraft"@),
    ) {
        (
            Some(title),
            Some(state),
            Some(url),
            Some(mergeable),
            Some(created_at),
            Some(updated_at),
            Some(head_branch),
            Some(base_branch),
            Some(is_draft),
        ) => match (
            i32_field(m, "number"@),
            i32_field(m, "additions"@),
            i32_field(m, "deletions"@),
            i32_field(m, "changedFiles"@),
            count_field(m, "commits"@),
            count_field(m, "comments"@),
        ) {
            (
                Some(number),
                Some(additions),
                Some(deletions),
                Some(changed_files),
                Some(commit_count),
                Some(comment_count),
            ) => match field_of(m, "reviews"@) {
                Some(rv) => match arr_field(rv, "nodes"@) {
                    Some(nodes) => match spec_reviews_from_nodes(nodes) {
                        Some(reviews) => Some(
                            PullRequestModel {
                                number,
                                title,
                                state,
                                url,
                                is_draft,
                                mergeable,
                                created_at,
                                updated_at,
                                author: spec_nested_str(m, "author"@, "login"@),
                                head_branch,
                                base_branch,
                                additions,
                                deletions,
                                changed_files,
                                commit_count,
                                comment_count,
                                reviews,
                            },
                        ),
                        None => None,
                    },
                    None => None,
                },
                None => None,
            },
            _ => None,
        },
        _ => None,
    }
}

/// Maps one pull-request query node.
pub fn pr_from_node(v: &Val) -> (r: Option<PullRequest>)
    ensures
        opt_view(r) == spec_pr_from_node(v@),
{
    let title = match v.get_str("title") {
        Some(s) => s,
        None => {
            return None;
        },
    };
    let state = match v.get_str("state") {
        Some(s) => s,
        None => {
            return None;
        },
    };
    let url = match v.get_str("url") {
        Some(s) => s,
        None => {
            return None;
        },
    };
    let mergeable = match v.get_str("mergeable") {
        Some(s) => s,
        None => {
            return None;
        },
    };
    let created_at = match v.get_str("createdAt") {
        Some(s) => s,
        None => {
            return None;
        },
    };
    let updated_at = match v.get_str("updatedAt") {
        Some(s) => s,
        None => {
            return None;
        },
    };
    let head_branch = match v.get_str("headRefName") {
        Some(s) => s,
        None => {
            return None;
        },
    };
    let base_branch = match v.get_str("baseRefName") {
        Some(s) => s,
        None => {
            return None;
        },
    };
    let is_draft = match v.get_bool("isDraft") {
        Some(b) => b,
        None => {
            return None;
        },
    };
    let number = match v.get_i32("number") {
        Some(n) => n,
        None => {
            return None;
        },
    };
    let additions = match v.get_i32("additions") {
        Some(n) => n,
        None => {
            return None;
        },
    };
    let deletions = match v.get_i32("deletions") {
        Some(n) => n,
        None => {
            return None;
        },
    };
    let changed_files = match v.get_i32("changedFiles") {
        Some(n) => n,
        None => {
            return None;
        },
    };
    let commit_count = match v.get_count("commits") {
        Some(n) => n,
        None => {
            return None;
        },
    };
    let comment_count = match v.get_count("comments") {
        Some(n) => n,
        None => {
            return None;
        },
    };
    let reviews_obj = match v.get("reviews") {
        Some(o) => o,
        None => {
            return None;
        },
    };
    let review_nodes = match reviews_obj.get_arr("nodes") {
        Some(xs) => xs,
        None => {
            return None;
        },
    };
    let reviews = match reviews_from_nodes(review_nodes) {
        Some(rs) => rs,
        None => {
            return None;
        },
    };
    Some(
        PullRequest {
            number,
            title,
            state,
            url,
            is_draft,
            mergeable,
            created_at,
            updated_at,
            author: v.get_nested_str("author", "login"),
            head_branch,
            base_branch,
            additions,
            deletions,
            changed_files,
            commit_count,
            comment_count,
            reviews,
        },
    )
}

/// The models of a pull-request list.
pub open spec fn prs_view(s: Seq<PullRequest>) -> Seq<PullRequestModel> {
    Seq::new(s.len(), |i: int| s[i]@)
}

/// The pull requests out of a node list: every node must map.
pub open spec fn spec_prs_from_nodes(s: Seq<ValModel>) -> Option<Seq<PullRequestModel>> {
    if forall|i: int| 0 <= i < s.len() ==> spec_pr_from_node(s[i]) is Some {
        Some(Seq::new(s.len(), |i: int| spec_pr_from_node(s[i])->Some_0))
    } else {
        None
    }
}

/// Maps a pull-request node list.
pub fn prs_from_nodes(xs: &Vec<Val>) -> (r: Option<Vec<PullRequest>>)
    ensures
        match r {
            Some(out) => spec_prs_from_nodes(seq_model(xs@)) == Some(prs_view(out@)),
            None => spec_prs_from_nodes(seq_model(xs@)) is None,
        },
{
    broadcast use group_val_model;

    let n = xs.len();
    let mut out: Vec<PullRequest> = Vec::new();
    let mut i: usize = 0;
    while i < n
        invariant
            i <= n == xs@.len(),
            out@.len() == i,
            forall|j: int|
                0 <= j < i ==> spec_pr_from_node((#[trigger] xs@[j])@) == Some(out@[j]@),
        decreases n - i,
    {
        match pr_from_node(&xs[i]) {
            Some(p) => {
                out.push(p);
            },
            None => {
                proof {
                    assert(seq_model(xs@)[i as int] == xs@[i as int]@);
                    assert(spec_pr_from_node(seq_model(xs@)[i as int]) is None);
                }
                return None;
            },
        }
        i = i + 1;
    }
    proof {
        assert(forall|i: int| 0 <= i < seq_model(xs@).len() ==> spec_pr_from_node(
            seq_model(xs@)[i],
        ) is Some);
        assert(spec_prs_from_nodes(seq_model(xs@))->Some_0 =~= prs_view(out@));
    }
    Some(out)
}

/// The pull-request list out of the repository response data:
/// `repository.pullRequests.nodes`.
pub open spec fn spec_prs_from_data(m: ValModel) -> Option<Seq<PullRequestModel>> {
    match field_of(m, "repository"@) {
        Some(rp) => match field_of(rp, "pullRequests"@) {
            Some(prs_obj) => match arr_field(prs_obj, "nodes"@) {
                Some(nodes) => spec_prs_from_nodes(nodes),
                None => None,
            },
            None => None,
        },
        None => None,
    }
}

/// Maps the pull-request-list response data.
pub fn prs_from_data(data: &Val) -> (r: Option<Vec<PullRequest>>)
    ensures
        match r {
            Some(out) => spec_prs_from_data(data@) == Some(prs_view(out@)),
            None => spec_prs_from_data(data@) is None,
        },
{
    let repository = match data.get("repository") {
        Some(v) => v,
        None => {
            return None;
        },
    };
    let prs_obj = match repository.get("pullRequests") {
        Some(v) => v,
        None => {
            return None;
        },
    };
    let nodes = match prs_obj.get_arr("nodes") {
        Some(xs) => xs,
        None => {
            return None;
        },
    };
    prs_from_nodes(nodes)
}

/// The single pull request out of the repository response data:
/// `repository.pullRequest`.
pub open spec fn spec_pr_from_data(m: ValModel) -> Option<PullRequestModel> {
    match field_of(m, "repository"@) {
        Some(rp) => match field_of(rp, "pullRequest"@) {
            Some(node) => spec_pr_from_node(node),
            None => None,
        },
        None => None,
    }
}

/// Maps the single-pull-request response data.
pub fn pr_from_data(data: &Val) -> (r: Option<PullRequest>)
    ensures
        opt_view(r) == spec_pr_from_data(data@),
{
    let repository = match data.get("repository") {
        Some(v) => v,
        None => {
            return None;
        },
    };
    let node = match repository.get("pullRequest") {
        Some(v) => v,
        None => {
            return None;
        },
    };
    pr_from_node(node)
}

/// One notification out of its resource-path element: identifier, unread
/// flag, reason, subject title and type, owning repository and timestamp
/// are required; the subject URL is optional.
pub open spec fn spec_notification_from_elem(m: ValModel) -> Option<NotificationModel> {
    match (
        str_field(m, "id"@),
        str_field(m, "reason"@),
        str_field(m, "updated_at"@),
        bool_field(m, "unread"@),
        spec_nested_str(m, "subject"@, "title"@),
        spec_nested_str(m, "subject"@, "type"@),
        spec_nested_str(m, "repository"@, "full_name"@),
    ) {
        (
            Some(id),
            Some(reason),
            Some(updated_at),
            Some(unread),
            Some(subject_title),
            Some(subject_type),
            Some(repo_full_name),
        ) => Some(
            NotificationModel {
                id,
                unread,
                reason,
                subject_title,
                subject_type,
                subject_url: spec_nested_str(m, "subject"@, "url"@),
                repo_full_name,
                updated_at,
            },
        ),
        _ => None,
    }
}

/// Maps one notification element.
pub fn notification_from_elem(v: &Val) -> (r: Option<Notification>)
    ensures
        opt_view(r) == spec_notification_from_elem(v@),
{
    let id = match v.get_str("id") {
        Some(s) => s,
        None => {
            return None;
        },
    };
    let reason = match v.get_str("reason") {
        Some(s) => s,
        None => {
            return None;
        },
    };
    let updated_at = match v.get_str("updated_at") {
        Some(s) => s,
        None => {
            return None;
        },
    };
    let unread = match v.get_bool("unread") {
        Some(b) => b,
        None => {
            return None;
        },
    };
    let subject_title = match v.get_nested_str("subject", "title") {
        Some(s) => s,
        None => {
            return None;
        },
    };
    let subject_type = match v.get_nested_str("subject", "type") {
        Some(s) => s,
        None => {
            return None;
        },
    };
    let repo_full_name = match v.get_nested_str("repository", "full_name") {
        Some(s) => s,
        None => {
            return None;
        },
    };
    Some(
        Notification {
            id,
            unread,
            reason,
            subject_title,
            subject_type,
            subject_url: v.get_nested_str("subject", "url"),
            repo_full_name,
            updated_at,
        },
    )
}

/// The models of a notification list.
pub open spec fn notifications_view(s: Seq<Notification>) -> Seq<NotificationModel> {
    Seq::new(s.len(), |i: int| s[i]@)
}

/// The notifications out of the resource-path body: the body must be an
/// array whose elements all map.
pub open spec fn spec_notifications_from_body(m: ValModel) -> Option<Seq<NotificationModel>> {
    match m {
        ValModel::Arr(s) => if forall|i: int|
            0 <= i < s.len() ==> spec_notification_from_elem(#[trigger] s[i]) is Some {
            Some(Seq::new(s.len(), |i: int| spec_notification_from_elem(s[i])->Some_0))
        } else {
            None
        },
        _ => None,
    }
}

/// Maps the notification-list body.
pub fn notifications_from_body(body: &Val) -> (r: Option<Vec<Notification>>)
    ensures
        match r {
            Some(out) => spec_notifications_from_body(body@) == Some(notifications_view(out@)),
            None => spec_notifications_from_body(body@) is None,
        },
{
    broadcast use group_val_model;

    let xs = match body {
        Val::Arr(xs) => xs,
        _ => {
            proof {
                crate::value::lemma_model_variant(*body);
            }
            return None;
        },
    };
    let n = xs.len();
    let mut out: Vec<Notification> = Vec::new();
    let mut i: usize = 0;
    while i < n
        invariant
            i <= n == xs@.len(),
            out@.len() == i,
            forall|j: int|
                0 <= j < i ==> spec_notification_from_elem((#[trigger] xs@[j])@) == Some(
                    out@[j]@,
                ),
        decreases n - i,
    {
        match notification_from_elem(&xs[i]) {
            Some(nt) => {
                out.push(nt);
            },
            None => {
                proof {
                    assert(seq_model(xs@)[i as int] == xs@[i as int]@);
                    assert(spec_notification_from_elem(seq_model(xs@)[i as int]) is None);
                }
                return None;
            },
        }
        i = i + 1;
    }
    proof {
        assert(forall|i: int| 0 <= i < seq_model(xs@).len() ==> spec_notification_from_elem(
            #[trigger] seq_model(xs@)[i],
        ) is Some);
        assert(spec_notifications_from_body(body@)->Some_0 =~= notifications_view(out@));
    }
    Some(out)
}

/// The repository node id out of the response data: `repository.id`.
pub open spec fn spec_repo_id_from_data(m: ValModel) -> Option<Seq<char>> {
    spec_nested_str(m, "repository"@, "id"@)
}

/// Extracts the repository node id from the response data.
pub fn repo_id_from_data(data: &Val) -> (r: Option<String>)
    ensures
        opt_view(r) == spec_repo_id_from_data(data@),
{
    data.get_nested_str("repository", "id")
}

/// The created issue out of the mutation response data:
/// `createIssue.issue`, with no labels and no comments yet.
pub open spec fn spec_created_issue_from_data(m: ValModel) -> Option<IssueModel> {
    match field_of(m, "createIssue"@) {
        Some(ci) => match field_of(ci, "issue"@) {
            Some(node) => match (
                str_field(node, "title"@),
                str_field(node, "state"@),
                str_field(node, "url"@),
                str_field(node, "createdAt"@),
                str_field(node, "updatedAt"@),
                i32_field(node, "number"@),
            ) {
                (
                    Some(title),
                    Some(state),
                    Some(url),
                    Some(created_at),
                    Some(updated_at),
                    Some(number),
                ) => Some(
                    IssueModel {
                        number,
                        title,
                        state,
                        url,
                        created_at,
                        updated_at,
                        author: spec_nested_str(node, "author"@, "login"@),
                        labels: Seq::empty(),
                        comment_count: 0,
                    },
                ),
                _ => None,
            },
            None => None,
        },
        None => None,
    }
}

/// Maps the issue-creation response data.
pub fn created_issue_from_data(data: &Val) -> (r: Option<Issue>)
    ensures
        opt_view(r) == spec_created_issue_from_data(data@),
{
    let ci = match data.get("createIssue") {
        Some(v) => v,
        None => {
            return None;
        },
    };
    let node = match ci.get("issue") {
        Some(v) => v,
        None => {
            return None;
        },
    };
    let title = match node.get_str("title") {
        Some(s) => s,
        None => {
            return None;
        },
    };
    let state = match node.get_str("state") {
        Some(s) => s,
        None => {
            return None;
        },
    };
    let url = match node.get_str("url") {
        Some(s) => s,
        None => {
            return None;
        },
    };
    let created_at = match node.get_str("createdAt") {
        Some(s) => s,
        None => {
            return None;
        },
    };
    let updated_at = match node.get_str("updatedAt") {
        Some(s) => s,
        None => {
            return None;
        },
    };
    let number = match node.get_i32("number") {
        Some(n) => n,
        None => {
            return None;
        },
    };
    let out = Issue {
        number,
        title,
        state,
        url,
        created_at,
        updated_at,
        author: node.get_nested_str("author", "login"),
        labels: Vec::new(),
        comment_count: 0,
    };
    proof {
        assert(strings_view(Seq::<String>::empty()) =~= Seq::<Seq<char>>::empty());
    }
    Some(out)
}

} // verus!
