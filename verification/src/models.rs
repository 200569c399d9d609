//! The domain data model: immutable value records produced per call. Each
//! record has a spec-level model, a serialization into the untyped value
//! representation, a parse back out of it, and a proof that the two
//! directions compose to the identity.
use vstd::prelude::*;

use crate::value::{
    Val, ValModel, arr_field, bool_field, fields_model, i32_field, lemma_model_variant,
    lemma_obj_lookup_at, lemma_seq_neq_at, opt_view, seq_model, spec_opt_str, str_field,
    group_val_model,
};

verus! {

broadcast use vstd::std_specs::vec::group_vec_axioms, vstd::seq::group_seq_axioms;

/// A platform user.
#[derive(Debug, Clone)]
pub struct User {
    pub login: String,
    pub name: Option<String>,
    pub email: Option<String>,
    pub avatar_url: String,
    pub bio: Option<String>,
    pub company: Option<String>,
    pub location: Option<String>,
    pub website_url: Option<String>,
    pub twitter_username: Option<String>,
    pub public_repos: i32,
    pub followers: i32,
    pub following: i32,
    pub created_at: String,
}

/// The model of a `User`.
pub struct UserModel {
    pub login: Seq<char>,
    pub name: Option<Seq<char>>,
    pub email: Option<Seq<char>>,
    pub avatar_url: Seq<char>,
    pub bio: Option<Seq<char>>,
    pub company: Option<Seq<char>>,
    pub location: Option<Seq<char>>,
    pub website_url: Option<Seq<char>>,
    pub twitter_username: Option<Seq<char>>,
    pub public_repos: int,
    pub followers: int,
    pub following: int,
    pub created_at: Seq<char>,
}

impl View for User {
    type V = UserModel;

    open spec fn view(&self) -> UserModel {
        UserModel {
            login: self.login@,
            name: opt_view(self.name),
            email: opt_view(self.email),
            avatar_url: self.avatar_url@,
            bio: opt_view(self.bio),
            company: opt_view(self.company),
            location: opt_view(self.location),
            website_url: opt_view(self.website_url),
            twitter_username: opt_view(self.twitter_username),
            public_repos: self.public_repos as int,
            followers: self.followers as int,
            following: self.following as int,
            created_at: self.created_at@,
        }
    }
}

/// A repository.
#[derive(Debug, Clone)]
pub struct Repository {
    pub name: String,
    pub full_name: String,
    pub description: Option<String>,
    pub url: String,
    pub is_private: bool,
    pub is_fork: bool,
    pub stars: i32,
    pub forks: i32,
    pub language: Option<String>,
    pub updated_at: String,
    pub pushed_at: Option<String>,
}

/// The model of a `Repository`.
pub struct RepositoryModel {
    pub name: Seq<char>,
    pub full_name: Seq<char>,
    pub description: Option<Seq<char>>,
    pub url: Seq<char>,
    pub is_private: bool,
    pub is_fork: bool,
    pub stars: int,
    pub forks: int,
    pub language: Option<Seq<char>>,
    pub updated_at: Seq<char>,
    pub pushed_at: Option<Seq<char>>,
}

impl View for Repository {
    type V = RepositoryModel;

    open spec fn view(&self) -> RepositoryModel {
        RepositoryModel {
            name: self.name@,
            full_name: self.full_name@,
            description: opt_view(self.description),
            url: self.url@,
            is_private: self.is_private,
            is_fork: self.is_fork,
            stars: self.stars as int,
            forks: self.forks as int,
            language: opt_view(self.language),
            updated_at: self.updated_at@,
            pushed_at: opt_view(self.pushed_at),
        }
    }
}

/// An issue of a repository.
#[derive(Debug, Clone)]
pub struct Issue {
    pub number: i32,
    pub title: String,
    pub state: String,
    pub url: String,
    pub created_at: String,
    pub updated_at: String,
    pub author: Option<String>,
    pub labels: Vec<String>,
    pub comment_count: i32,
}

/// The model of an `Issue`.
pub struct IssueModel {
    pub number: int,
    pub title: Seq<char>,
    pub state: Seq<char>,
    pub url: Seq<char>,
    pub created_at: Seq<char>,
    pub updated_at: Seq<char>,
    pub author: Option<Seq<char>>,
    pub labels: Seq<Seq<char>>,
    pub comment_count: int,
}

/// The views of a sequence of strings.
pub open spec fn strings_view(s: Seq<String>) -> Seq<Seq<char>> {
    Seq::new(s.len(), |i: int| s[i]@)
}

impl View for Issue {
    type V = IssueModel;

    open spec fn view(&self) -> IssueModel {
        IssueModel {
            number: self.number as int,
            title: self.title@,
            state: self.state@,
            url: self.url@,
            created_at: self.created_at@,
            updated_at: self.updated_at@,
            author: opt_view(self.author),
            labels: strings_view(self.labels@),
            comment_count: self.comment_count as int,
        }
    }
}

/// A review of a pull request.
#[derive(Debug, Clone)]
pub struct Review {
    pub author: Option<String>,
    pub state: String,
    pub submitted_at: Option<String>,
}

/// The model of a `Review`.
pub struct ReviewModel {
    pub author: Option<Seq<char>>,
    pub state: Seq<char>,
    pub submitted_at: Option<Seq<char>>,
}

impl View for Review {
    type V = ReviewModel;

    open spec fn view(&self) -> ReviewModel {
        ReviewModel {
            author: opt_view(self.author),
            state: self.state@,
            submitted_at: opt_view(self.submitted_at),
        }
    }
}

/// A pull request, with its reviews.
#[derive(Debug, Clone)]
pub struct PullRequest {
    pub number: i32,
    pub title: String,
    pub state: String,
    pub url: String,
    pub is_draft: bool,
    pub mergeable: String,
    pub created_at: String,
    pub updated_at: String,
    pub author: Option<String>,
    pub head_branch: String,
    pub base_branch: String,
    pub additions: i32,
    pub deletions: i32,
    pub changed_files: i32,
    pub commit_count: i32,
    pub comment_count: i32,
    pub reviews: Vec<Review>,
}

/// The model of a `PullRequest`.
pub struct PullRequestModel {
    pub number: int,
    pub title: Seq<char>,
    pub state: Seq<char>,
    pub url: Seq<char>,
    pub is_draft: bool,
    pub mergeable: Seq<char>,
    pub created_at: Seq<char>,
    pub updated_at: Seq<char>,
    pub author: Option<Seq<char>>,
    pub head_branch: Seq<char>,
    pub base_branch: Seq<char>,
    pub additions: int,
    pub deletions: int,
    pub changed_files: int,
    pub commit_count: int,
    pub comment_count: int,
    pub reviews: Seq<ReviewModel>,
}

/// The models of a sequence of reviews.
pub open spec fn reviews_view(s: Seq<Review>) -> Seq<ReviewModel> {
    Seq::new(s.len(), |i: int| s[i]@)
}

impl View for PullRequest {
    type V = PullRequestModel;

    open spec fn view(&self) -> PullRequestModel {
        PullRequestModel {
            number: self.number as int,
            title: self.title@,
            state: self.state@,
            url: self.url@,
            is_draft: self.is_draft,
            mergeable: self.mergeable@,
            created_at: self.created_at@,
            updated_at: self.updated_at@,
            author: opt_view(self.author),
            head_branch: self.head_branch@,
            base_branch: self.base_branch@,
            additions: self.additions as int,
            deletions: self.deletions as int,
            changed_files: self.changed_files as int,
            commit_count: self.commit_count as int,
            comment_count: self.comment_count as int,
            reviews: reviews_view(self.reviews@),
        }
    }
}

/// A notification.
#[derive(Debug, Clone)]
pub struct Notification {
    pub id: String,
    pub unread: bool,
    pub reason: String,
    pub subject_title: String,
    pub subject_type: String,
    pub subject_url: Option<String>,
    pub repo_full_name: String,
    pub updated_at: String,
}

/// The model of a `Notification`.
pub struct NotificationModel {
    pub id: Seq<char>,
    pub unread: bool,
    pub reason: Seq<char>,
    pub subject_title: Seq<char>,
    pub subject_type: Seq<char>,
    pub subject_url: Option<Seq<char>>,
    pub repo_full_name: Seq<char>,
    pub updated_at: Seq<char>,
}

impl View for Notification {
    type V = NotificationModel;

    open spec fn view(&self) -> NotificationModel {
        NotificationModel {
            id: self.id@,
            unread: self.unread,
            reason: self.reason@,
            subject_title: self.subject_title@,
            subject_type: self.subject_type@,
            subject_url: opt_view(self.subject_url),
            repo_full_name: self.repo_full_name@,
            updated_at: self.updated_at@,
        }
    }
}

/// The value representation of a user.
pub open spec fn spec_user_val(u: UserModel) -> ValModel {
    ValModel::Obj(
        seq![
            ("login"@, ValModel::Str(u.login)),
            ("name"@, spec_opt_str(u.name)),
            ("email"@, spec_opt_str(u.email)),
            ("avatar_url"@, ValModel::Str(u.avatar_url)),
            ("bio"@, spec_opt_str(u.bio)),
            ("company"@, spec_opt_str(u.company)),
            ("location"@, spec_opt_str(u.location)),
            ("website_url"@, spec_opt_str(u.website_url)),
            ("twitter_username"@, spec_opt_str(u.twitter_username)),
            ("public_repos"@, ValModel::Int(u.public_repos)),
            ("followers"@, ValModel::Int(u.followers)),
            ("following"@, ValModel::Int(u.following)),
            ("created_at"@, ValModel::Str(u.created_at)),
        ],
    )
}

/// The user parsed back out of a value: required fields must be present
/// with the right type, optional fields surface as absent otherwise.
pub open spec fn spec_user_from_val(m: ValModel) -> Option<UserModel> {
    match (
        str_field(m, "login"@),
        str_field(m, "avatar_url"@),
        str_field(m, "created_at"@),
        i32_field(m, "public_repos"@),
        i32_field(m, "followers"@),
        i32_field(m, "following"@),
    ) {
        (Some(login), Some(avatar_url), Some(created_at), Some(pr), Some(fo), Some(fg)) => Some(
            UserModel {
                login,
                name: str_field(m, "name"@),
                email: str_field(m, "email"@),
                avatar_url,
                bio: str_field(m, "bio"@),
                company: str_field(m, "company"@),
                location: str_field(m, "location"@),
                website_url: str_field(m, "website_url"@),
                twitter_username: str_field(m, "twitter_username"@),
                public_repos: pr,
                followers: fo,
                following: fg,
                created_at,
            },
        ),
        _ => None,
    }
}

impl User {
    /// Serializes the record into its value representation.
    pub fn to_val(&self) -> (r: Val)
        ensures
            r@ == spec_user_val(self@),
    {
        broadcast use group_val_model;

        let mut fs: Vec<(String, Val)> = Vec::new();
        fs.push(("login".to_owned(), Val::Str(self.login.clone())));
        fs.push(("name".to_owned(), Val::opt_str_of(&self.name)));
        fs.push(("email".to_owned(), Val::opt_str_of(&self.email)));
        fs.push(("avatar_url".to_owned(), Val::Str(self.avatar_url.clone())));
        fs.push(("bio".to_owned(), Val::opt_str_of(&self.bio)));
        fs.push(("company".to_owned(), Val::opt_str_of(&self.company)));
        fs.push(("location".to_owned(), Val::opt_str_of(&self.location)));
        fs.push(("website_url".to_owned(), Val::opt_str_of(&self.website_url)));
        fs.push(("twitter_username".to_owned(), Val::opt_str_of(&self.twitter_username)));
        fs.push(("public_repos".to_owned(), Val::Int(self.public_repos as i64)));
        fs.push(("followers".to_owned(), Val::Int(self.followers as i64)));
        fs.push(("following".to_owned(), Val::Int(self.following as i64)));
        fs.push(("created_at".to_owned(), Val::Str(self.created_at.clone())));
        let r = Val::Obj(fs);
        proof {
            assert(fs@.len() == 13);
            assert(r@ == ValModel::Obj(fields_model(fs@)));
            assert(r@->Obj_0 =~= spec_user_val(self@)->Obj_0);
        }
        r
    }

    /// Parses a record out of its value representation.
    pub fn from_val(v: &Val) -> (r: Option<User>)
        ensures
            opt_view(r) == spec_user_from_val(v@),
    {
        let login = match v.get_str("login") {
            Some(s) => s,
            None => {
                return None;
            },
        };
        let avatar_url = match v.get_str("avatar_url") {
            Some(s) => s,
            None => {
                return None;
            },
        };
        let created_at = match v.get_str("created_at") {
            Some(s) => s,
            None => {
                return None;
            },
        };
        let public_repos = match v.get_i32("public_repos") {
            Some(n) => n,
            None => {
                return None;
            },
        };
        let followers = match v.get_i32("followers") {
            Some(n) => n,
            None => {
                return None;
            },
        };
        let following = match v.get_i32("following") {
            Some(n) => n,
            None => {
                return None;
            },
        };
        Some(
            User {
                login,
                name: v.get_str("name"),
                email: v.get_str("email"),
                avatar_url,
                bio: v.get_str("bio"),
                company: v.get_str("company"),
                location: v.get_str("location"),
                website_url: v.get_str("website_url"),
                twitter_username: v.get_str("twitter_username"),
                public_repos,
                followers,
                following,
                created_at,
            },
        )
    }
}

/// A user model whose counters fit the machine integers of the record.
pub open spec fn user_model_wf(u: UserModel) -> bool {
    &&& i32::MIN <= u.public_repos <= i32::MAX
    &&& i32::MIN <= u.followers <= i32::MAX
    &&& i32::MIN <= u.following <= i32::MAX
}

/// Serializing a user and parsing the result back yields the same record:
/// no field is lost and no type drifts.
pub proof fn lemma_user_round_trip(u: UserModel)
    requires
        user_model_wf(u),
    ensures
        spec_user_from_val(spec_user_val(u)) == Some(u),
{
    reveal_strlit("login");
    reveal_strlit("name");
    reveal_strlit("email");
    reveal_strlit("avatar_url");
    reveal_strlit("bio");
    reveal_strlit("company");
    reveal_strlit("location");
    reveal_strlit("website_url");
    reveal_strlit("twitter_username");
    reveal_strlit("public_repos");
    reveal_strlit("followers");
    reveal_strlit("following");
    reveal_strlit("created_at");
    let m = spec_user_val(u);
    let fs = m->Obj_0;
    assert("login"@.len() == 5);
    assert("name"@.len() == 4);
    assert("email"@.len() == 5);
    assert("avatar_url"@.len() == 10);
    assert("bio"@.len() == 3);
    assert("company"@.len() == 7);
    assert("location"@.len() == 8);
    assert("website_url"@.len() == 11);
    assert("twitter_username"@.len() == 16);
    assert("public_repos"@.len() == 12);
    assert("followers"@.len() == 9);
    assert("following"@.len() == 9);
    assert("created_at"@.len() == 10);
    lemma_seq_neq_at("login"@, "email"@, 0);
    lemma_seq_neq_at("avatar_url"@, "created_at"@, 0);
    lemma_seq_neq_at("followers"@, "following"@, 6);
    lemma_obj_lookup_at(fs, "login"@, 0);
    lemma_obj_lookup_at(fs, "name"@, 1);
    lemma_obj_lookup_at(fs, "email"@, 2);
    lemma_obj_lookup_at(fs, "avatar_url"@, 3);
    lemma_obj_lookup_at(fs, "bio"@, 4);
    lemma_obj_lookup_at(fs, "company"@, 5);
    lemma_obj_lookup_at(fs, "location"@, 6);
    lemma_obj_lookup_at(fs, "website_url"@, 7);
    lemma_obj_lookup_at(fs, "twitter_username"@, 8);
    lemma_obj_lookup_at(fs, "public_repos"@, 9);
    lemma_obj_lookup_at(fs, "followers"@, 10);
    lemma_obj_lookup_at(fs, "following"@, 11);
    lemma_obj_lookup_at(fs, "created_at"@, 12);
}

/// The value representation of a review.
pub open spec fn spec_review_val(r: ReviewModel) -> ValModel {
    ValModel::Obj(
        seq![
            ("author"@, spec_opt_str(r.author)),
            ("state"@, ValModel::Str(r.state)),
            ("submitted_at"@, spec_opt_str(r.submitted_at)),
        ],
    )
}

/// The review parsed back out of a value.
pub open spec fn spec_review_from_val(m: ValModel) -> Option<ReviewModel> {
    match str_field(m, "state"@) {
        Some(state) => Some(
            ReviewModel {
                author: str_field(m, "author"@),
                state,
                submitted_at: str_field(m, "submitted_at"@),
            },
        ),
        None => None,
    }
}

impl Review {
    /// Serializes the record into its value representation.
    pub fn to_val(&self) -> (r: Val)
        ensures
            r@ == spec_review_val(self@),
    {
        broadcast use group_val_model;

        let mut fs: Vec<(String, Val)> = Vec::new();
        fs.push(("author".to_owned(), Val::opt_str_of(&self.author)));
        fs.push(("state".to_owned(), Val::Str(self.state.clone())));
        fs.push(("submitted_at".to_owned(), Val::opt_str_of(&self.submitted_at)));
        let r = Val::Obj(fs);
        proof {
            assert(fs@.len() == 3);
            assert(r@ == ValModel::Obj(fields_model(fs@)));
            assert(r@->Obj_0 =~= spec_review_val(self@)->Obj_0);
        }
        r
    }

    /// Parses a record out of its value representation.
    pub fn from_val(v: &Val) -> (r: Option<Review>)
        ensures
            opt_view(r) == spec_review_from_val(v@),
    {
        let state = match v.get_str("state") {
            Some(s) => s,
            None => {
                return None;
            },
        };
        Some(
            Review { author: v.get_str("author"), state, submitted_at: v.get_str("submitted_at") },
        )
    }
}

/// Serializing a review and parsing the result back yields the same record.
pub proof fn lemma_review_round_trip(r: ReviewModel)
    ensures
        spec_review_from_val(spec_review_val(r)) == Some(r),
{
    reveal_strlit("author");
    reveal_strlit("state");
    reveal_strlit("submitted_at");
    let m = spec_review_val(r);
    let fs = m->Obj_0;
    assert("author"@.len() == 6);
    assert("state"@.len() == 5);
    assert("submitted_at"@.len() == 12);
    lemma_obj_lookup_at(fs, "author"@, 0);
    lemma_obj_lookup_at(fs, "state"@, 1);
    lemma_obj_lookup_at(fs, "submitted_at"@, 2);
}

/// The value representation of a repository.
pub open spec fn spec_repository_val(p: RepositoryModel) -> ValModel {
    ValModel::Obj(
        seq![
            ("name"@, ValModel::Str(p.name)),
            ("full_name"@, ValModel::Str(p.full_name)),
            ("description"@, spec_opt_str(p.description)),
            ("url"@, ValModel::Str(p.url)),
            ("is_private"@, ValModel::Bool(p.is_private)),
            ("is_fork"@, ValModel::Bool(p.is_fork)),
            ("stars"@, ValModel::Int(p.stars)),
            ("forks"@, ValModel::Int(p.forks)),
            ("language"@, spec_opt_str(p.language)),
            ("updated_at"@, ValModel::Str(p.updated_at)),
            ("pushed_at"@, spec_opt_str(p.pushed_at)),
        ],
    )
}

/// The repository parsed back out of a value.
pub open spec fn spec_repository_from_val(m: ValModel) -> Option<RepositoryModel> {
    match (
        str_field(m, "name"@),
        str_field(m, "full_name"@),
        str_field(m, "url"@),
        str_field(m, "updated_at"@),
        bool_field(m, "is_private"@),
        bool_field(m, "is_fork"@),
        i32_field(m, "stars"@),
        i32_field(m, "forks"@),
    ) {
        (
            Some(name),
            Some(full_name),
            Some(url),
            Some(updated_at),
            Some(is_private),
            Some(is_fork),
            Some(stars),
            Some(forks),
        ) => Some(
            RepositoryModel {
                name,
                full_name,
                description: str_field(m, "description"@),
                url,
                is_private,
                is_fork,
                stars,
                forks,
                language: str_field(m, "language"@),
                updated_at,
                pushed_at: str_field(m, "pushed_at"@),
            },
        ),
        _ => None,
    }
}

impl Repository {
    /// Serializes the record into its value representation.
    pub fn to_val(&self) -> (r: Val)
        ensures
            r@ == spec_repository_val(self@),
    {
        broadcast use group_val_model;

        let mut fs: Vec<(String, Val)> = Vec::new();
        fs.push(("name".to_owned(), Val::Str(self.name.clone())));
        fs.push(("full_name".to_owned(), Val::Str(self.full_name.clone())));
        fs.push(("description".to_owned(), Val::opt_str_of(&self.description)));
        fs.push(("url".to_owned(), Val::Str(self.url.clone())));
        fs.push(("is_private".to_owned(), Val::Bool(self.is_private)));
        fs.push(("is_fork".to_owned(), Val::Bool(self.is_fork)));
        fs.push(("stars".to_owned(), Val::Int(self.stars as i64)));
        fs.push(("forks".to_owned(), Val::Int(self.forks as i64)));
        fs.push(("language".to_owned(), Val::opt_str_of(&self.language)));
        fs.push(("updated_at".to_owned(), Val::Str(self.updated_at.clone())));
        fs.push(("pushed_at".to_owned(), Val::opt_str_of(&self.pushed_at)));
        let r = Val::Obj(fs);
        proof {
            assert(fs@.len() == 11);
            assert(r@ == ValModel::Obj(fields_model(fs@)));
            assert(r@->Obj_0 =~= spec_repository_val(self@)->Obj_0);
        }
        r
    }

    /// Parses a record out of its value representation.
    pub fn from_val(v: &Val) -> (r: Option<Repository>)
        ensures
            opt_view(r) == spec_repository_from_val(v@),
    {
        let name = match v.get_str("name") {
            Some(s) => s,
            None => {
                return None;
            },
        };
        let full_name = match v.get_str("full_name") {
            Some(s) => s,
            None => {
                return None;
            },
        };
        let url = match v.get_str("url") {
            Some(s) => s,
            None => {
                return None;
            },
        };
        let updated_at = match v.get_str("updated_at") {
            Some(s) => s,
            None => {
                return None;
            },
        };
        let is_private = match v.get_bool("is_private") {
            Some(b) => b,
            None => {
                return None;
            },
        };
        let is_fork = match v.get_bool("is_fork") {
            Some(b) => b,
            None => {
                return None;
            },
        };
        let stars = match v.get_i32("stars") {
            Some(n) => n,
            None => {
                return None;
            },
        };
        let forks = match v.get_i32("forks") {
            Some(n) => n,
            None => {
                return None;
            },
        };
        Some(
            Repository {
                name,
                full_name,
                description: v.get_str("description"),
                url,
                is_private,
                is_fork,
                stars,
                forks,
                language: v.get_str("language"),
                updated_at,
                pushed_at: v.get_str("pushed_at"),
            },
        )
    }
}

/// A repository model whose counters fit the machine integers of the record.
pub open spec fn repository_model_wf(p: RepositoryModel) -> bool {
    &&& i32::MIN <= p.stars <= i32::MAX
    &&& i32::MIN <= p.forks <= i32::MAX
}

/// Serializing a repository and parsing the result back yields the same
/// record.
pub proof fn lemma_repository_round_trip(p: RepositoryModel)
    requires
        repository_model_wf(p),
    ensures
        spec_repository_from_val(spec_repository_val(p)) == Some(p),
{
    reveal_strlit("name");
    reveal_strlit("full_name");
    reveal_strlit("description");
    reveal_strlit("url");
    reveal_strlit("is_private");
    reveal_strlit("is_fork");
    reveal_strlit("stars");
    reveal_strlit("forks");
    reveal_strlit("language");
    reveal_strlit("updated_at");
    reveal_strlit("pushed_at");
    let m = spec_repository_val(p);
    let fs = m->Obj_0;
    assert("name"@.len() == 4);
    assert("full_name"@.len() == 9);
    assert("description"@.len() == 11);
    assert("url"@.len() == 3);
    assert("is_private"@.len() == 10);
    assert("is_fork"@.len() == 7);
    assert("stars"@.len() == 5);
    assert("forks"@.len() == 5);
    assert("language"@.len() == 8);
    assert("updated_at"@.len() == 10);
    assert("pushed_at"@.len() == 9);
    lemma_seq_neq_at("stars"@, "forks"@, 0);
    lemma_seq_neq_at("full_name"@, "pushed_at"@, 0);
    lemma_seq_neq_at("is_private"@, "updated_at"@, 0);
    lemma_obj_lookup_at(fs, "name"@, 0);
    lemma_obj_lookup_at(fs, "full_name"@, 1);
    lemma_obj_lookup_at(fs, "description"@, 2);
    lemma_obj_lookup_at(fs, "url"@, 3);
    lemma_obj_lookup_at(fs, "is_private"@, 4);
    lemma_obj_lookup_at(fs, "is_fork"@, 5);
    lemma_obj_lookup_at(fs, "stars"@, 6);
    lemma_obj_lookup_at(fs, "forks"@, 7);
    lemma_obj_lookup_at(fs, "language"@, 8);
    lemma_obj_lookup_at(fs, "updated_at"@, 9);
    lemma_obj_lookup_at(fs, "pushed_at"@, 10);
}

/// The value representation of a notification.
pub open spec fn spec_notification_val(n: NotificationModel) -> ValModel {
    ValModel::Obj(
        seq![
            ("id"@, ValModel::Str(n.id)),
            ("unread"@, ValModel::Bool(n.unread)),
            ("reason"@, ValModel::Str(n.reason)),
            ("subject_title"@, ValModel::Str(n.subject_title)),
            ("subject_type"@, ValModel::Str(n.subject_type)),
            ("subject_url"@, spec_opt_str(n.subject_url)),
            ("repo_full_name"@, ValModel::Str(n.repo_full_name)),
            ("updated_at"@, ValModel::Str(n.updated_at)),
        ],
    )
}

/// The notification parsed back out of a value.
pub open spec fn spec_notification_from_val(m: ValModel) -> Option<NotificationModel> {
    match (
        str_field(m, "id"@),
        str_field(m, "reason"@),
        str_field(m, "subject_title"@),
        str_field(m, "subject_type"@),
        str_field(m, "repo_full_name"@),
        str_field(m, "updated_at"@),
        bool_field(m, "unread"@),
    ) {
        (
            Some(id),
            Some(reason),
            Some(subject_title),
            Some(subject_type),
            Some(repo_full_name),
            Some(updated_at),
            Some(unread),
        ) => Some(
            NotificationModel {
                id,
                unread,
                reason,
                subject_title,
                subject_type,
                subject_url: str_field(m, "subject_url"@),
                repo_full_name,
                updated_at,
            },
        ),
        _ => None,
    }
}

impl Notification {
    /// Serializes the record into its value representation.
    pub fn to_val(&self) -> (r: Val)
        ensures
            r@ == spec_notification_val(self@),
    {
        broadcast use group_val_model;

        let mut fs: Vec<(String, Val)> = Vec::new();
        fs.push(("id".to_owned(), Val::Str(self.id.clone())));
        fs.push(("unread".to_owned(), Val::Bool(self.unread)));
        fs.push(("reason".to_owned(), Val::Str(self.reason.clone())));
        fs.push(("subject_title".to_owned(), Val::Str(self.subject_title.clone())));
        fs.push(("subject_type".to_owned(), Val::Str(self.subject_type.clone())));
        fs.push(("subject_url".to_owned(), Val::opt_str_of(&self.subject_url)));
        fs.push(("repo_full_name".to_owned(), Val::Str(self.repo_full_name.clone())));
        fs.push(("updated_at".to_owned(), Val::Str(self.updated_at.clone())));
        let r = Val::Obj(fs);
        proof {
            assert(fs@.len() == 8);
            assert(r@ == ValModel::Obj(fields_model(fs@)));
            assert(r@->Obj_0 =~= spec_notification_val(self@)->Obj_0);
        }
        r
    }

    /// Parses a record out of its value representation.
    pub fn from_val(v: &Val) -> (r: Option<Notification>)
        ensures
            opt_view(r) == spec_notification_from_val(v@),
    {
        let id = match v.get_str("id") {
            Some(s) => s,
            None => {
                return None;
            },
        };
        let reason = match v.get_str("reason") {
            Some(s) => s,
            None => {
                return None;
            },
        };
        let subject_title = match v.get_str("subject_title") {
            Some(s) => s,
            None => {
                return None;
            },
        };
        let subject_type = match v.get_str("subject_type") {
            Some(s) => s,
            None => {
                return None;
            },
        };
        let repo_full_name = match v.get_str("repo_full_name") {
            Some(s) => s,
            None => {
                return None;
            },
        };
        let updated_at = match v.get_str("updated_at") {
            Some(s) => s,
            None => {
                return None;
            },
        };
        let unread = match v.get_bool("unread") {
            Some(b) => b,
            None => {
                return None;
            },
        };
        Some(
            Notification {
                id,
                unread,
                reason,
                subject_title,
                subject_type,
                subject_url: v.get_str("subject_url"),
                repo_full_name,
                updated_at,
            },
        )
    }
}

/// Serializing a notification and parsing the result back yields the same
/// record.
pub proof fn lemma_notification_round_trip(n: NotificationModel)
    ensures
        spec_notification_from_val(spec_notification_val(n)) == Some(n),
{
    reveal_strlit("id");
    reveal_strlit("unread");
    reveal_strlit("reason");
    reveal_strlit("subject_title");
    reveal_strlit("subject_type");
    reveal_strlit("subject_url");
    reveal_strlit("repo_full_name");
    reveal_strlit("updated_at");
    let m = spec_notification_val(n);
    let fs = m->Obj_0;
    assert("id"@.len() == 2);
    assert("unread"@.len() == 6);
    assert("reason"@.len() == 6);
    assert("subject_title"@.len() == 13);
    assert("subject_type"@.len() == 12);
    assert("subject_url"@.len() == 11);
    assert("repo_full_name"@.len() == 14);
    assert("updated_at"@.len() == 10);
    lemma_seq_neq_at("unread"@, "reason"@, 0);
    lemma_obj_lookup_at(fs, "id"@, 0);
    lemma_obj_lookup_at(fs, "unread"@, 1);
    lemma_obj_lookup_at(fs, "reason"@, 2);
    lemma_obj_lookup_at(fs, "subject_title"@, 3);
    lemma_obj_lookup_at(fs, "subject_type"@, 4);
    lemma_obj_lookup_at(fs, "subject_url"@, 5);
    lemma_obj_lookup_at(fs, "repo_full_name"@, 6);
    lemma_obj_lookup_at(fs, "updated_at"@, 7);
}

/// The value representation of a list of strings.
pub open spec fn spec_strs_val(ls: Seq<Seq<char>>) -> ValModel {
    ValModel::Arr(Seq::new(ls.len(), |i: int| ValModel::Str(ls[i])))
}

/// The strings parsed back out of an array of values: defined only when
/// every element is a string.
pub open spec fn spec_strs_from(s: Seq<ValModel>) -> Option<Seq<Seq<char>>> {
    if forall|i: int| 0 <= i < s.len() ==> s[i] is Str {
        Some(Seq::new(s.len(), |i: int| s[i]->Str_0))
    } else {
        None
    }
}

/// Serializes a list of strings into an array value.
pub fn strings_to_val(ls: &Vec<String>) -> (r: Val)
    ensures
        r@ == spec_strs_val(strings_view(ls@)),
{
    broadcast use group_val_model;

    let n = ls.len();
    let mut out: Vec<Val> = Vec::new();
    let mut i: usize = 0;
    while i < n
        invariant
            i <= n == ls@.len(),
            out@.len() == i,
            forall|j: int| 0 <= j < i ==> out@[j] == Val::Str(#[trigger] ls@[j]),
        decreases n - i,
    {
        out.push(Val::Str(ls[i].clone()));
        proof {
            assert(out@[i as int]@ == ValModel::Str(ls@[i as int]@));
        }
        i = i + 1;
    }
    let r = Val::Arr(out);
    proof {
        assert(r@ == ValModel::Arr(seq_model(out@)));
        assert(seq_model(out@) =~= spec_strs_val(strings_view(ls@))->Arr_0);
    }
    r
}

/// Parses a list of strings out of an array of values; any non-string
/// element fails the whole list.
pub fn strings_from_vals(xs: &Vec<Val>) -> (r: Option<Vec<String>>)
    ensures
        match r {
            Some(out) => spec_strs_from(seq_model(xs@)) == Some(strings_view(out@)),
            None => spec_strs_from(seq_model(xs@)) is None,
        },
{
    broadcast use group_val_model;

    let n = xs.len();
    let mut out: Vec<String> = Vec::new();
    let mut i: usize = 0;
    while i < n
        invariant
            i <= n == xs@.len(),
            out@.len() == i,
            forall|j: int|
                0 <= j < i ==> (#[trigger] xs@[j])@ is Str && out@[j]@ == xs@[j]@->Str_0,
        decreases n - i,
    {
        let el = &xs[i];
        match el {
            Val::Str(s) => {
                out.push(s.clone());
            },
            _ => {
                proof {
                    lemma_model_variant(xs@[i as int]);
                    assert(seq_model(xs@)[i as int] == xs@[i as int]@);
                    assert(!(seq_model(xs@)[i as int] is Str));
                }
                return None;
            },
        }
        i = i + 1;
    }
    proof {
        assert forall|j: int| 0 <= j < seq_model(xs@).len() implies seq_model(
            xs@,
        )[j] is Str by {
            lemma_model_variant(xs@[j]);
        }
        assert(spec_strs_from(seq_model(xs@))->Some_0 =~= strings_view(out@)) by {
            assert forall|j: int| 0 <= j < n implies seq_model(xs@)[j]->Str_0 == out@[j]@ by {
                lemma_model_variant(xs@[j]);
            }
        }
    }
    Some(out)
}

/// Serializing a list of strings and parsing it back yields the same list.
pub proof fn lemma_strs_round_trip(ls: Seq<Seq<char>>)
    ensures
        spec_strs_from(spec_strs_val(ls)->Arr_0) == Some(ls),
{
    let arr = spec_strs_val(ls)->Arr_0;
    assert(forall|i: int| 0 <= i < arr.len() ==> arr[i] is Str);
    assert(spec_strs_from(arr)->Some_0 =~= ls);
}

/// The value representation of a list of reviews.
pub open spec fn spec_reviews_val(rs: Seq<ReviewModel>) -> ValModel {
    ValModel::Arr(Seq::new(rs.len(), |i: int| spec_review_val(rs[i])))
}

/// The reviews parsed back out of an array of values: defined only when
/// every element parses as a review.
pub open spec fn spec_reviews_from(s: Seq<ValModel>) -> Option<Seq<ReviewModel>> {
    if forall|i: int| 0 <= i < s.len() ==> spec_review_from_val(s[i]) is Some {
        Some(Seq::new(s.len(), |i: int| spec_review_from_val(s[i])->Some_0))
    } else {
        None
    }
}

/// Serializes a list of reviews into an array value.
pub fn reviews_to_val(rs: &Vec<Review>) -> (r: Val)
    ensures
        r@ == spec_reviews_val(reviews_view(rs@)),
{
    broadcast use group_val_model;

    let n = rs.len();
    let mut out: Vec<Val> = Vec::new();
    let mut i: usize = 0;
    while i < n
        invariant
            i <= n == rs@.len(),
            out@.len() == i,
            forall|j: int| 0 <= j < i ==> out@[j]@ == spec_review_val((#[trigger] rs@[j])@),
        decreases n - i,
    {
        out.push(rs[i].to_val());
        i = i + 1;
    }
    let r = Val::Arr(out);
    proof {
        assert(r@ == ValModel::Arr(seq_model(out@)));
        assert(seq_model(out@) =~= spec_reviews_val(reviews_view(rs@))->Arr_0);
    }
    r
}

/// Parses a list of reviews out of an array of values; any element that is
/// not a review fails the whole list.
pub fn reviews_from_vals(xs: &Vec<Val>) -> (r: Option<Vec<Review>>)
    ensures
        match r {
            Some(out) => spec_reviews_from(seq_model(xs@)) == Some(reviews_view(out@)),
            None => spec_reviews_from(seq_model(xs@)) is None,
        },
{
    broadcast use group_val_model;

    let n = xs.len();
    let mut out: Vec<Review> = Vec::new();
    let mut i: usize = 0;
    while i < n
        invariant
            i <= n == xs@.len(),
            out@.len() == i,
            forall|j: int|
                0 <= j < i ==> spec_review_from_val((#[trigger] xs@[j])@) == Some(out@[j]@),
        decreases n - i,
    {
        match Review::from_val(&xs[i]) {
            Some(rv) => {
                out.push(rv);
            },
            None => {
                proof {
                    assert(seq_model(xs@)[i as int] == xs@[i as int]@);
                    assert(spec_review_from_val(seq_model(xs@)[i as int]) is None);
                }
                return None;
            },
        }
        i = i + 1;
    }
    proof {
        assert(forall|j: int| 0 <= j < seq_model(xs@).len() ==> spec_review_from_val(
            seq_model(xs@)[j],
        ) is Some);
        assert(spec_reviews_from(seq_model(xs@))->Some_0 =~= reviews_view(out@));
    }
    Some(out)
}

/// Serializing a list of reviews and parsing it back yields the same list.
pub proof fn lemma_reviews_round_trip(rs: Seq<ReviewModel>)
    ensures
        spec_reviews_from(spec_reviews_val(rs)->Arr_0) == Some(rs),
{
    let arr = spec_reviews_val(rs)->Arr_0;
    assert forall|i: int| 0 <= i < arr.len() implies spec_review_from_val(arr[i]) is Some by {
        lemma_review_round_trip(rs[i]);
    }
    assert(spec_reviews_from(arr)->Some_0 =~= rs) by {
        assert forall|i: int| 0 <= i < arr.len() implies spec_review_from_val(arr[i])->Some_0
            == rs[i] by {
            lemma_review_round_trip(rs[i]);
        }
    }
}

/// The value representation of an issue.
pub open spec fn spec_issue_val(s: IssueModel) -> ValModel {
    ValModel::Obj(
        seq![
            ("number"@, ValModel::Int(s.number)),
            ("title"@, ValModel::Str(s.title)),
            ("state"@, ValModel::Str(s.state)),
            ("url"@, ValModel::Str(s.url)),
            ("created_at"@, ValModel::Str(s.created_at)),
            ("updated_at"@, ValModel::Str(s.updated_at)),
            ("author"@, spec_opt_str(s.author)),
            ("labels"@, spec_strs_val(s.labels)),
            ("comment_count"@, ValModel::Int(s.comment_count)),
        ],
    )
}

/// The issue parsed back out of a value.
pub open spec fn spec_issue_from_val(m: ValModel) -> Option<IssueModel> {
    match (
        str_field(m, "title"@),
        str_field(m, "state"@),
        str_field(m, "url"@),
        str_field(m, "created_at"@),
        str_field(m, "updated_at"@),
        i32_field(m, "number"@),
        i32_field(m, "comment_count"@),
        arr_field(m, "labels"@),
    ) {
        (
            Some(title),
            Some(state),
            Some(url),
            Some(created_at),
            Some(updated_at),
            Some(number),
            Some(comment_count),
            Some(labels_arr),
        ) => match spec_strs_from(labels_arr) {
            Some(labels) => Some(
                IssueModel {
                    number,
                    title,
                    state,
                    url,
                    created_at,
                    updated_at,
                    author: str_field(m, "author"@),
                    labels,
                    comment_count,
                },
            ),
            None => None,
        },
        _ => None,
    }
}

impl Issue {
    /// Serializes the record into its value representation.
    pub fn to_val(&self) -> (r: Val)
        ensures
            r@ == spec_issue_val(self@),
    {
        broadcast use group_val_model;

        let mut fs: Vec<(String, Val)> = Vec::new();
        fs.push(("number".to_owned(), Val::Int(self.number as i64)));
        fs.push(("title".to_owned(), Val::Str(self.title.clone())));
        fs.push(("state".to_owned(), Val::Str(self.state.clone())));
        fs.push(("url".to_owned(), Val::Str(self.url.clone())));
        fs.push(("created_at".to_owned(), Val::Str(self.created_at.clone())));
        fs.push(("updated_at".to_owned(), Val::Str(self.updated_at.clone())));
        fs.push(("author".to_owned(), Val::opt_str_of(&self.author)));
        fs.push(("labels".to_owned(), strings_to_val(&self.labels)));
        fs.push(("comment_count".to_owned(), Val::Int(self.comment_count as i64)));
        let r = Val::Obj(fs);
        proof {
            assert(fs@.len() == 9);
            assert(r@ == ValModel::Obj(fields_model(fs@)));
            assert(r@->Obj_0 =~= spec_issue_val(self@)->Obj_0);
        }
        r
    }

    /// Parses a record out of its value representation.
    pub fn from_val(v: &Val) -> (r: Option<Issue>)
        ensures
            opt_view(r) == spec_issue_from_val(v@),
    {
        let title = match v.get_str("title") {
            Some(s) => s,
            None => {
                return None;
            },
        };
        let state = match v.get_str("state") {
            Some(s) => s,
            None => {
                return None;
            },
        };
        let url = match v.get_str("url") {
            Some(s) => s,
            None => {
                return None;
            },
        };
        let created_at = match v.get_str("created_at") {
            Some(s) => s,
            None => {
                return None;
            },
        };
        let updated_at = match v.get_str("updated_at") {
            Some(s) => s,
            None => {
                return None;
            },
        };
        let number = match v.get_i32("number") {
            Some(n) => n,
            None => {
                return None;
            },
        };
        let comment_count = match v.get_i32("comment_count") {
            Some(n) => n,
            None => {
                return None;
            },
        };
        let labels_arr = match v.get_arr("labels") {
            Some(xs) => xs,
            None => {
                return None;
            },
        };
        let labels = match strings_from_vals(labels_arr) {
            Some(ls) => ls,
            None => {
                return None;
            },
        };
        Some(
            Issue {
                number,
                title,
                state,
                url,
                created_at,
                updated_at,
                author: v.get_str("author"),
                labels,
                comment_count,
            },
        )
    }
}

/// An issue model whose counters fit the machine integers of the record.
pub open spec fn issue_model_wf(s: IssueModel) -> bool {
    &&& i32::MIN <= s.number <= i32::MAX
    &&& i32::MIN <= s.comment_count <= i32::MAX
}

/// Serializing an issue and parsing the result back yields the same record.
pub proof fn lemma_issue_round_trip(s: IssueModel)
    requires
        issue_model_wf(s),
    ensures
        spec_issue_from_val(spec_issue_val(s)) == Some(s),
{
    reveal_strlit("number");
    reveal_strlit("title");
    reveal_strlit("state");
    reveal_strlit("url");
    reveal_strlit("created_at");
    reveal_strlit("updated_at");
    reveal_strlit("author");
    reveal_strlit("labels");
    reveal_strlit("comment_count");
    let m = spec_issue_val(s);
    let fs = m->Obj_0;
    assert("number"@.len() == 6);
    assert("title"@.len() == 5);
    assert("state"@.len() == 5);
    assert("url"@.len() == 3);
    assert("created_at"@.len() == 10);
    assert("updated_at"@.len() == 10);
    assert("author"@.len() == 6);
    assert("labels"@.len() == 6);
    assert("comment_count"@.len() == 13);
    lemma_seq_neq_at("title"@, "state"@, 0);
    lemma_seq_neq_at("created_at"@, "updated_at"@, 0);
    lemma_seq_neq_at("number"@, "author"@, 0);
    lemma_seq_neq_at("number"@, "labels"@, 0);
    lemma_seq_neq_at("author"@, "labels"@, 0);
    lemma_obj_lookup_at(fs, "number"@, 0);
    lemma_obj_lookup_at(fs, "title"@, 1);
    lemma_obj_lookup_at(fs, "state"@, 2);
    lemma_obj_lookup_at(fs, "url"@, 3);
    lemma_obj_lookup_at(fs, "created_at"@, 4);
    lemma_obj_lookup_at(fs, "updated_at"@, 5);
    lemma_obj_lookup_at(fs, "author"@, 6);
    lemma_obj_lookup_at(fs, "labels"@, 7);
    lemma_obj_lookup_at(fs, "comment_count"@, 8);
    lemma_strs_round_trip(s.labels);
}

/// The value representation of a pull request.
pub open spec fn spec_pull_request_val(p: PullRequestModel) -> ValModel {
    ValModel::Obj(
        seq![
            ("number"@, ValModel::Int(p.number)),
            ("title"@, ValModel::Str(p.title)),
            ("state"@, ValModel::Str(p.state)),
            ("url"@, ValModel::Str(p.url)),
            ("is_draft"@, ValModel::Bool(p.is_draft)),
            ("mergeable"@, ValModel::Str(p.mergeable)),
            ("created_at"@, ValModel::Str(p.created_at)),
            ("updated_at"@, ValModel::Str(p.updated_at)),
            ("author"@, spec_opt_str(p.author)),
            ("head_branch"@, ValModel::Str(p.head_branch)),
            ("base_branch"@, ValModel::Str(p.base_branch)),
            ("additions"@, ValModel::Int(p.additions)),
            ("deletions"@, ValModel::Int(p.deletions)),
            ("changed_files"@, ValModel::Int(p.changed_files)),
            ("commit_count"@, ValModel::Int(p.commit_count)),
            ("comment_count"@, ValModel::Int(p.comment_count)),
            ("reviews"@, spec_reviews_val(p.reviews)),
        ],
    )
}

/// The pull request parsed back out of a value.
pub open spec fn spec_pull_request_from_val(m: ValModel) -> Option<PullRequestModel> {
    match (
        str_field(m, "title"@),
        str_field(m, "state"@),
        str_field(m, "url"@),
        str_field(m, "mergeable"@),
        str_field(m, "created_at"@),
        str_field(m, "updated_at"@),
        str_field(m, "head_branch"@),
        str_field(m, "base_branch"@),
        bool_field(m, "is_draft"@),
    ) {
        (
            Some(title),
            Some(state),
            Some(url),
            Some(mergeable),
            Some(created_at),
            Some(updated_at),
            Some(head_branch),
            Some(base_branch),
            Some(is_draft),
        ) => match (
            i32_field(m, "number"@),
            i32_field(m, "additions"@),
            i32_field(m, "deletions"@),
            i32_field(m, "changed_files"@),
            i32_field(m, "commit_count"@),
            i32_field(m, "comment_count"@),
            arr_field(m, "reviews"@),
        ) {
            (
                Some(number),
                Some(additions),
                Some(deletions),
                Some(changed_files),
                Some(commit_count),
                Some(comment_count),
                Some(reviews_arr),
            ) => match spec_reviews_from(reviews_arr) {
                Some(reviews) => Some(
                    PullRequestModel {
                        number,
                        title,
                        state,
                        url,
                        is_draft,
                        mergeable,
                        created_at,
                        updated_at,
                        author: str_field(m, "author"@),
                        head_branch,
                        base_branch,
                        additions,
                        deletions,
                        changed_files,
                        commit_count,
                        comment_count,
                        reviews,
                    },
                ),
                None => None,
            },
            _ => None,
        },
        _ => None,
    }
}

impl PullRequest {
    /// Serializes the record into its value representation.
    pub fn to_val(&self) -> (r: Val)
        ensures
            r@ == spec_pull_request_val(self@),
    {
        broadcast use group_val_model;

        let mut fs: Vec<(String, Val)> = Vec::new();
        fs.push(("number".to_owned(), Val::Int(self.number as i64)));
        fs.push(("title".to_owned(), Val::Str(self.title.clone())));
        fs.push(("state".to_owned(), Val::Str(self.state.clone())));
        fs.push(("url".to_owned(), Val::Str(self.url.clone())));
        fs.push(("is_draft".to_owned(), Val::Bool(self.is_draft)));
        fs.push(("mergeable".to_owned(), Val::Str(self.mergeable.clone())));
        fs.push(("created_at".to_owned(), Val::Str(self.created_at.clone())));
        fs.push(("updated_at".to_owned(), Val::Str(self.updated_at.clone())));
        fs.push(("author".to_owned(), Val::opt_str_of(&self.author)));
        fs.push(("head_branch".to_owned(), Val::Str(self.head_branch.clone())));
        fs.push(("base_branch".to_owned(), Val::Str(self.base_branch.clone())));
        fs.push(("additions".to_owned(), Val::Int(self.additions as i64)));
        fs.push(("deletions".to_owned(), Val::Int(self.deletions as i64)));
        fs.push(("changed_files".to_owned(), Val::Int(self.changed_files as i64)));
        fs.push(("commit_count".to_owned(), Val::Int(self.commit_count as i64)));
        fs.push(("comment_count".to_owned(), Val::Int(self.comment_count as i64)));
        fs.push(("reviews".to_owned(), reviews_to_val(&self.reviews)));
        let r = Val::Obj(fs);
        proof {
            assert(fs@.len() == 17);
            assert(r@ == ValModel::Obj(fields_model(fs@)));
            assert(r@->Obj_0 =~= spec_pull_request_val(self@)->Obj_0);
        }
        r
    }

    /// Parses a record out of its value representation.
    pub fn from_val(v: &Val) -> (r: Option<PullRequest>)
        ensures
            opt_view(r) == spec_pull_request_from_val(v@),
    {
        let title = match v.get_str("title") {
            Some(s) => s,
            None => {
                return None;
            },
        };
        let state = match v.get_str("state") {
            Some(s) => s,
            None => {
                return None;
            },
        };
        let url = match v.get_str("url") {
            Some(s) => s,
            None => {
                return None;
            },
        };
        let mergeable = match v.get_str("mergeable") {
            Some(s) => s,
            None => {
                return None;
            },
        };
        let created_at = match v.get_str("created_at") {
            Some(s) => s,
            None => {
                return None;
            },
        };
        let updated_at = match v.get_str("updated_at") {
            Some(s) => s,
            None => {
                return None;
            },
        };
        let head_branch = match v.get_str("head_branch") {
            Some(s) => s,
            None => {
                return None;
            },
        };
        let base_branch = match v.get_str("base_branch") {
            Some(s) => s,
            None => {
                return None;
            },
        };
        let is_draft = match v.get_bool("is_draft") {
            Some(b) => b,
            None => {
                return None;
            },
        };
        let number = match v.get_i32("number") {
            Some(n) => n,
            None => {
                return None;
            },
        };
        let additions = match v.get_i32("additions") {
            Some(n) => n,
            None => {
                return None;
            },
        };
        let deletions = match v.get_i32("deletions") {
            Some(n) => n,
            None => {
                return None;
            },
        };
        let changed_files = match v.get_i32("changed_files") {
            Some(n) => n,
            None => {
                return None;
            },
        };
        let commit_count = match v.get_i32("commit_count") {
            Some(n) => n,
            None => {
                return None;
            },
        };
        let comment_count = match v.get_i32("comment_count") {
            Some(n) => n,
            None => {
                return None;
            },
        };
        let reviews_arr = match v.get_arr("reviews") {
            Some(xs) => xs,
            None => {
                return None;
            },
        };
        let reviews = match reviews_from_vals(reviews_arr) {
            Some(rs) => rs,
            None => {
                return None;
            },
        };
        Some(
            PullRequest {
                number,
                title,
                state,
                url,
                is_draft,
                mergeable,
                created_at,
                updated_at,
                author: v.get_str("author"),
                head_branch,
                base_branch,
                additions,
                deletions,
                changed_files,
                commit_count,
                comment_count,
                reviews,
            },
        )
    }
}

/// A pull-request model whose counters fit the machine integers of the
/// record.
pub open spec fn pull_request_model_wf(p: PullRequestModel) -> bool {
    &&& i32::MIN <= p.number <= i32::MAX
    &&& i32::MIN <= p.additions <= i32::MAX
    &&& i32::MIN <= p.deletions <= i32::MAX
    &&& i32::MIN <= p.changed_files <= i32::MAX
    &&& i32::MIN <= p.commit_count <= i32::MAX
    &&& i32::MIN <= p.comment_count <= i32::MAX
}

/// Serializing a pull request and parsing the result back yields the same
/// record, its reviews included.
pub proof fn lemma_pull_request_round_trip(p: PullRequestModel)
    requires
        pull_request_model_wf(p),
    ensures
        spec_pull_request_from_val(spec_pull_request_val(p)) == Some(p),
{
    reveal_strlit("number");
    reveal_strlit("title");
    reveal_strlit("state");
    reveal_strlit("url");
    reveal_strlit("is_draft");
    reveal_strlit("mergeable");
    reveal_strlit("created_at");
    reveal_strlit("updated_at");
    reveal_strlit("author");
    reveal_strlit("head_branch");
    reveal_strlit("base_branch");
    reveal_strlit("additions");
    reveal_strlit("deletions");
    reveal_strlit("changed_files");
    reveal_strlit("commit_count");
    reveal_strlit("comment_count");
    reveal_strlit("reviews");
    let m = spec_pull_request_val(p);
    let fs = m->Obj_0;
    assert("number"@.len() == 6);
    assert("title"@.len() == 5);
    assert("state"@.len() == 5);
    assert("url"@.len() == 3);
    assert("is_draft"@.len() == 8);
    assert("mergeable"@.len() == 9);
    assert("created_at"@.len() == 10);
    assert("updated_at"@.len() == 10);
    assert("author"@.len() == 6);
    assert("head_branch"@.len() == 11);
    assert("base_branch"@.len() == 11);
    assert("additions"@.len() == 9);
    assert("deletions"@.len() == 9);
    assert("changed_files"@.len() == 13);
    assert("commit_count"@.len() == 12);
    assert("comment_count"@.len() == 13);
    assert("reviews"@.len() == 7);
    lemma_seq_neq_at("title"@, "state"@, 0);
    lemma_seq_neq_at("number"@, "author"@, 0);
    lemma_seq_neq_at("created_at"@, "updated_at"@, 0);
    lemma_seq_neq_at("mergeable"@, "additions"@, 0);
    lemma_seq_neq_at("mergeable"@, "deletions"@, 0);
    lemma_seq_neq_at("additions"@, "deletions"@, 0);
    lemma_seq_neq_at("head_branch"@, "base_branch"@, 0);
    lemma_seq_neq_at("changed_files"@, "comment_count"@, 1);
    lemma_obj_lookup_at(fs, "number"@, 0);
    lemma_obj_lookup_at(fs, "title"@, 1);
    lemma_obj_lookup_at(fs, "state"@, 2);
    lemma_obj_lookup_at(fs, "url"@, 3);
    lemma_obj_lookup_at(fs, "is_draft"@, 4);
    lemma_obj_lookup_at(fs, "mergeable"@, 5);
    lemma_obj_lookup_at(fs, "created_at"@, 6);
    lemma_obj_lookup_at(fs, "updated_at"@, 7);
    lemma_obj_lookup_at(fs, "author"@, 8);
    lemma_obj_lookup_at(fs, "head_branch"@, 9);
    lemma_obj_lookup_at(fs, "base_branch"@, 10);
    lemma_obj_lookup_at(fs, "additions"@, 11);
    lemma_obj_lookup_at(fs, "deletions"@, 12);
    lemma_obj_lookup_at(fs, "changed_files"@, 13);
    lemma_obj_lookup_at(fs, "commit_count"@, 14);
    lemma_obj_lookup_at(fs, "comment_count"@, 15);
    lemma_obj_lookup_at(fs, "reviews"@, 16);
    lemma_reviews_round_trip(p.reviews);
}

} // verus!
