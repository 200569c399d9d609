//! The error taxonomy of the service. Every failure a caller can see is one
//! of these variants; each carries what its human-readable message needs.
use vstd::prelude::*;
use vstd::string::StringExecFns;

use crate::text::{contains_seq, dec_digits, u16_to_dec, contains_sub};

verus! {

/// A typed failure, surfaced unchanged to the RPC caller.
#[derive(Debug)]
pub enum ApiError {
    /// No credential could be resolved; carries a description of what was
    /// checked.
    NoCredentialFound { detail: String },
    /// The per-host credential file exists but could not be parsed.
    CredentialFileCorrupt,
    /// A non-success HTTP status, or a connection-level failure; carries the
    /// status (0 when the request never got a response) and the raw body.
    TransportError { status: u16, body: String },
    /// The response envelope carried upstream error messages and no data.
    UpstreamQueryError { messages: Vec<String> },
    /// The response carried neither usable data nor errors.
    MalformedResponse,
    /// A `repo` parameter that does not split into exactly two segments.
    InvalidRepoFormat { got: String },
    /// A required parameter that is missing (or of an unusable type).
    MissingParameter { name: String },
    /// A method name outside the dispatch table.
    UnknownMethod { name: String },
}

/// The model of an `ApiError`.
pub enum ApiErrorModel {
    NoCredentialFound { detail: Seq<char> },
    CredentialFileCorrupt,
    TransportError { status: int, body: Seq<char> },
    UpstreamQueryError { messages: Seq<Seq<char>> },
    MalformedResponse,
    InvalidRepoFormat { got: Seq<char> },
    MissingParameter { name: Seq<char> },
    UnknownMethod { name: Seq<char> },
}

/// The views of a sequence of strings.
pub open spec fn messages_view(s: Seq<String>) -> Seq<Seq<char>> {
    Seq::new(s.len(), |i: int| s[i]@)
}

impl View for ApiError {
    type V = ApiErrorModel;

    open spec fn view(&self) -> ApiErrorModel {
        match self {
            ApiError::NoCredentialFound { detail } => ApiErrorModel::NoCredentialFound {
                detail: detail@,
            },
            ApiError::CredentialFileCorrupt => ApiErrorModel::CredentialFileCorrupt,
            ApiError::TransportError { status, body } => ApiErrorModel::TransportError {
                status: *status as int,
                body: body@,
            },
            ApiError::UpstreamQueryError { messages } => ApiErrorModel::UpstreamQueryError {
                messages: messages_view(messages@),
            },
            ApiError::MalformedResponse => ApiErrorModel::MalformedResponse,
            ApiError::InvalidRepoFormat { got } => ApiErrorModel::InvalidRepoFormat { got: got@ },
            ApiError::MissingParameter { name } => ApiErrorModel::MissingParameter { name: name@ },
            ApiError::UnknownMethod { name } => ApiErrorModel::UnknownMethod { name: name@ },
        }
    }
}

/// The view of a `Result` whose sides both have views.
pub open spec fn result_view<T: View, E: View>(r: Result<T, E>) -> Result<T::V, E::V> {
    match r {
        Ok(t) => Ok(t@),
        Err(e) => Err(e@),
    }
}

/// Upstream messages joined with `", "`.
pub open spec fn spec_join_messages(msgs: Seq<Seq<char>>, i: int) -> Seq<char>
    decreases msgs.len() - i,
{
    if i < 0 || i >= msgs.len() {
        Seq::empty()
    } else if i == msgs.len() - 1 {
        msgs[i]
    } else {
        msgs[i] + ", "@ + spec_join_messages(msgs, i + 1)
    }
}

/// The message text of each error variant.
pub open spec fn spec_message_of(e: ApiErrorModel) -> Seq<char> {
    match e {
        ApiErrorModel::NoCredentialFound { detail } => detail,
        ApiErrorModel::CredentialFileCorrupt => "Failed to parse gh config"@,
        ApiErrorModel::TransportError { status, body } => "request failed: "@ + dec_digits(status)
            + " - "@ + body,
        ApiErrorModel::UpstreamQueryError { messages } => "GraphQL errors: "@ + spec_join_messages(
            messages,
            0,
        ),
        ApiErrorModel::MalformedResponse => "GraphQL response missing data field"@,
        ApiErrorModel::InvalidRepoFormat { got } =>
            "Invalid repo format. Expected 'owner/repo', got: "@ + got,
        ApiErrorModel::MissingParameter { name } => "Missing required parameter: "@ + name,
        ApiErrorModel::UnknownMethod { name } => "Unknown method: "@ + name,
    }
}

/// A message text that indicates the credential lacked the scope needed for
/// the email field.
pub open spec fn indicates_missing_scope(m: Seq<char>) -> bool {
    contains_seq(m, "user:email"@) || contains_seq(m, "read:user"@)
}

/// An error on which the reduced current-user query is retried: a failure
/// whose message text names the missing email scope. The matching rule is
/// textual on purpose and isolated here, so it can be hardened without
/// touching its call sites.
pub open spec fn spec_scope_error(e: ApiErrorModel) -> bool {
    indicates_missing_scope(spec_message_of(e))
}

/// Decides whether a failure is the email-scope signature; the fallback in
/// the current-user retrieval fires exactly on this predicate.
pub fn is_scope_error(e: &ApiError) -> (r: bool)
    ensures
        r == spec_scope_error((*e)@),
{
    let m = e.message();
    contains_sub(m.as_str(), "user:email") || contains_sub(m.as_str(), "read:user")
}

fn join_messages(msgs: &Vec<String>) -> (r: String)
    ensures
        r@ == spec_join_messages(messages_view(msgs@), 0),
{
    let n = msgs.len();
    if n == 0 {
        return String::new();
    }
    let mut out: String = msgs[n - 1].clone();
    let mut i: usize = n - 1;
    while i > 0
        invariant
            0 <= i < n == msgs@.len(),
            out@ == spec_join_messages(messages_view(msgs@), i as int),
        decreases i,
    {
        i = i - 1;
        let mut piece: String = msgs[i].clone();
        piece.append(", ");
        piece.append(out.as_str());
        proof {
            reveal_strlit(", ");
        }
        out = piece;
    }
    out
}

impl ApiError {
    /// The human-readable message of the error, pinned to `spec_message`.
    pub fn message(&self) -> (r: String)
        ensures
            r@ == spec_message_of((*self)@),
    {
        match self {
            ApiError::NoCredentialFound { detail } => detail.clone(),
            ApiError::CredentialFileCorrupt => "Failed to parse gh config".to_owned(),
            ApiError::TransportError { status, body } => {
                let mut s: String = "request failed: ".to_owned();
                s.append(u16_to_dec(*status).as_str());
                s.append(" - ");
                s.append(body.as_str());
                s
            },
            ApiError::UpstreamQueryError { messages } => {
                let mut s: String = "GraphQL errors: ".to_owned();
                s.append(join_messages(messages).as_str());
                s
            },
            ApiError::MalformedResponse => "GraphQL response missing data field".to_owned(),
            ApiError::InvalidRepoFormat { got } => {
                let mut s: String = "Invalid repo format. Expected 'owner/repo', got: ".to_owned();
                s.append(got.as_str());
                s
            },
            ApiError::MissingParameter { name } => {
                let mut s: String = "Missing required parameter: ".to_owned();
                s.append(name.as_str());
                s
            },
            ApiError::UnknownMethod { name } => {
                let mut s: String = "Unknown method: ".to_owned();
                s.append(name.as_str());
                s
            },
        }
    }
}

} // verus!
