//! The response side of the transport client: the data/errors envelope of
//! the structured-query endpoint, and the uniform handling of HTTP status
//! and parse failures for both request styles. The surrounding application
//! performs the network call and hands in the status, the raw body and the
//! parsed body; everything from there on is verified.
use vstd::prelude::*;

use crate::errors::{ApiError, ApiErrorModel, result_view};
use crate::text::{spec_truncate, truncate_chars};
use crate::value::{
    Val, ValModel, field_of, fields_model, lemma_model_variant, obj_lookup, opt_view, seq_model,
    str_field, group_val_model,
};

verus! {

broadcast use vstd::std_specs::vec::group_vec_axioms, vstd::seq::group_seq_axioms;

/// One upstream error of the envelope; only its message is carried.
#[derive(Debug)]
pub struct GraphQLError {
    pub message: String,
}

/// The model of a `GraphQLError`.
pub struct ErrModel {
    pub message: Seq<char>,
}

impl View for GraphQLError {
    type V = ErrModel;

    open spec fn view(&self) -> ErrModel {
        ErrModel { message: self.message@ }
    }
}

/// The models of a sequence of upstream errors.
pub open spec fn errs_view(s: Seq<GraphQLError>) -> Seq<ErrModel> {
    Seq::new(s.len(), |i: int| s[i]@)
}

/// The response envelope: a data payload, upstream errors, either or both.
#[derive(Debug)]
pub struct GraphQLResponse {
    pub data: Option<Val>,
    pub errors: Option<Vec<GraphQLError>>,
}

/// The model of a `GraphQLResponse`.
pub struct EnvelopeModel {
    pub data: Option<ValModel>,
    pub errors: Option<Seq<ErrModel>>,
}

/// The model of an optional error list.
pub open spec fn errs_opt_view(o: Option<Vec<GraphQLError>>) -> Option<Seq<ErrModel>> {
    match o {
        Some(es) => Some(errs_view(es@)),
        None => None,
    }
}

impl View for GraphQLResponse {
    type V = EnvelopeModel;

    open spec fn view(&self) -> EnvelopeModel {
        EnvelopeModel { data: opt_view(self.data), errors: errs_opt_view(self.errors) }
    }
}

/// The upstream error parsed out of a value: its message is required.
pub open spec fn spec_err_from_val(m: ValModel) -> Option<ErrModel> {
    match str_field(m, "message"@) {
        Some(message) => Some(ErrModel { message }),
        None => None,
    }
}

/// The upstream errors parsed out of an array of values: defined only when
/// every element carries a message.
pub open spec fn spec_errs_from(s: Seq<ValModel>) -> Option<Seq<ErrModel>> {
    if forall|i: int| 0 <= i < s.len() ==> spec_err_from_val(s[i]) is Some {
        Some(Seq::new(s.len(), |i: int| spec_err_from_val(s[i])->Some_0))
    } else {
        None
    }
}

impl GraphQLError {
    /// Parses one upstream error out of a value.
    pub fn from_val(v: &Val) -> (r: Option<GraphQLError>)
        ensures
            opt_view(r) == spec_err_from_val(v@),
    {
        match v.get_str("message") {
            Some(message) => Some(GraphQLError { message }),
            None => None,
        }
    }
}

/// Parses the upstream error list out of an array of values.
fn errs_from_vals(xs: &Vec<Val>) -> (r: Option<Vec<GraphQLError>>)
    ensures
        match r {
            Some(out) => spec_errs_from(seq_model(xs@)) == Some(errs_view(out@)),
            None => spec_errs_from(seq_model(xs@)) is None,
        },
{
    broadcast use group_val_model;

    let n = xs.len();
    let mut out: Vec<GraphQLError> = Vec::new();
    let mut i: usize = 0;
    while i < n
        invariant
            i <= n == xs@.len(),
            out@.len() == i,
            forall|j: int|
                0 <= j < i ==> spec_err_from_val((#[trigger] xs@[j])@) == Some(out@[j]@),
        decreases n - i,
    {
        match GraphQLError::from_val(&xs[i]) {
            Some(e) => {
                out.push(e);
            },
            None => {
                proof {
                    assert(seq_model(xs@)[i as int] == xs@[i as int]@);
                    assert(spec_err_from_val(seq_model(xs@)[i as int]) is None);
                }
                return None;
            },
        }
        i = i + 1;
    }
    proof {
        assert(forall|i: int| 0 <= i < seq_model(xs@).len() ==> spec_err_from_val(
            seq_model(xs@)[i],
        ) is Some);
        assert(spec_errs_from(seq_model(xs@))->Some_0 =~= errs_view(out@));
    }
    Some(out)
}

/// Finds the first binding of `key` in a field list, tying the position to
/// the lookup result.
fn find_key(fs: &Vec<(String, Val)>, key: &str) -> (r: Option<usize>)
    ensures
        match r {
            Some(i) => i < fs@.len() && fs@[i as int].0@ == key@ && obj_lookup(
                fields_model(fs@),
                key@,
            ) == Some(fs@[i as int].1@),
            None => obj_lookup(fields_model(fs@), key@) is None,
        },
{
    broadcast use group_val_model;

    let ghost vm = fields_model(fs@);
    let n = fs.len();
    let mut i: usize = 0;
    while i < n
        invariant
            i <= n == fs@.len(),
            forall|j: int| 0 <= j < i ==> vm[j].0 != key@,
        decreases n - i,
    {
        let pair = &fs[i];
        if crate::text::str_eq(pair.0.as_str(), key) {
            proof {
                crate::value::lemma_obj_lookup_at(vm, key@, i as int);
            }
            return Some(i);
        }
        i = i + 1;
    }
    proof {
        crate::value::lemma_obj_lookup_skip(vm, key@, n as int);
        assert(vm.skip(n as int) =~= Seq::empty());
    }
    None
}

/// The envelope parsed out of a value: a null or absent payload counts as
/// no data; an error list that is not well formed fails the parse.
pub open spec fn spec_envelope_from_val(m: ValModel) -> Option<EnvelopeModel> {
    match m {
        ValModel::Obj(_) => {
            let data = match field_of(m, "data"@) {
                Some(ValModel::Null) => None,
                Some(d) => Some(d),
                None => None,
            };
            match field_of(m, "errors"@) {
                Some(ValModel::Arr(es)) => match spec_errs_from(es) {
                    Some(errs) => Some(EnvelopeModel { data, errors: Some(errs) }),
                    None => None,
                },
                Some(ValModel::Null) => Some(EnvelopeModel { data, errors: None }),
                None => Some(EnvelopeModel { data, errors: None }),
                Some(_) => None,
            }
        },
        _ => None,
    }
}

/// Parses the response envelope out of a body value.
pub fn envelope_from_val(v: Val) -> (r: Option<GraphQLResponse>)
    ensures
        opt_view(r) == spec_envelope_from_val(v@),
{
    broadcast use group_val_model;

    let mut fields = match v {
        Val::Obj(fs) => fs,
        _ => {
            return None;
        },
    };
    let errors: Option<Vec<GraphQLError>> = match find_key(&fields, "errors") {
        Some(ei) => {
            let ev = &fields[ei].1;
            match ev {
                Val::Null => None,
                Val::Arr(xs) => match errs_from_vals(xs) {
                    Some(es) => Some(es),
                    None => {
                        return None;
                    },
                },
                _ => {
                    proof {
                        lemma_model_variant(fields@[ei as int].1);
                    }
                    return None;
                },
            }
        },
        None => None,
    };
    let data: Option<Val> = match find_key(&fields, "data") {
        Some(di) => {
            let pair = fields.remove(di);
            match pair.1 {
                Val::Null => None,
                dv => Some(dv),
            }
        },
        None => None,
    };
    Some(GraphQLResponse { data, errors })
}

/// The outcome of a structured-query HTTP exchange: a non-success status is
/// a transport failure carrying the truncated body; a body that does not
/// parse, or parses to no envelope, is a malformed response.
pub open spec fn spec_graphql_envelope(
    status: int,
    body: Seq<char>,
    parsed: Option<ValModel>,
) -> Result<EnvelopeModel, ApiErrorModel> {
    if !(200 <= status < 300) {
        Err(ApiErrorModel::TransportError { status, body: spec_truncate(body, 500) })
    } else {
        match parsed {
            Some(m) => match spec_envelope_from_val(m) {
                Some(env) => Ok(env),
                None => Err(ApiErrorModel::MalformedResponse),
            },
            None => Err(ApiErrorModel::MalformedResponse),
        }
    }
}

/// Interprets a structured-query HTTP exchange into an envelope or a typed
/// failure.
pub fn graphql_envelope(status: u16, body: &str, parsed: Option<Val>) -> (r: Result<
    GraphQLResponse,
    ApiError,
>)
    ensures
        result_view(r) == spec_graphql_envelope(status as int, body@, opt_view(parsed)),
{
    if status < 200 || status >= 300 {
        return Err(ApiError::TransportError { status, body: truncate_chars(body, 500) });
    }
    match parsed {
        Some(v) => match envelope_from_val(v) {
            Some(env) => Ok(env),
            None => Err(ApiError::MalformedResponse),
        },
        None => Err(ApiError::MalformedResponse),
    }
}

/// The outcome of a resource-path HTTP exchange: the parsed body itself on
/// success, with the same status and parse failure handling as the query
/// path.
pub open spec fn spec_rest_envelope(
    status: int,
    body: Seq<char>,
    parsed: Option<ValModel>,
) -> Result<ValModel, ApiErrorModel> {
    if !(200 <= status < 300) {
        Err(ApiErrorModel::TransportError { status, body: spec_truncate(body, 500) })
    } else {
        match parsed {
            Some(m) => Ok(m),
            None => Err(ApiErrorModel::MalformedResponse),
        }
    }
}

/// Interprets a resource-path HTTP exchange into its parsed body or a typed
/// failure.
pub fn rest_envelope(status: u16, body: &str, parsed: Option<Val>) -> (r: Result<Val, ApiError>)
    ensures
        result_view(r) == spec_rest_envelope(status as int, body@, opt_view(parsed)),
{
    if status < 200 || status >= 300 {
        return Err(ApiError::TransportError { status, body: truncate_chars(body, 500) });
    }
    match parsed {
        Some(v) => Ok(v),
        None => Err(ApiError::MalformedResponse),
    }
}

/// The failure reported when a response carries no usable data: the joined
/// upstream messages when there are any, a malformed-response failure
/// otherwise.
pub open spec fn spec_upstream_or_malformed(errors: Option<Seq<ErrModel>>) -> ApiErrorModel {
    match errors {
        Some(es) => if es.len() > 0 {
            ApiErrorModel::UpstreamQueryError {
                messages: Seq::new(es.len(), |i: int| es[i].message),
            }
        } else {
            ApiErrorModel::MalformedResponse
        },
        None => ApiErrorModel::MalformedResponse,
    }
}

/// Builds the failure for a response without usable data.
pub fn upstream_or_malformed(errors: Option<Vec<GraphQLError>>) -> (r: ApiError)
    ensures
        r@ == spec_upstream_or_malformed(errs_opt_view(errors)),
{
    match errors {
        Some(es) => {
            if es.len() == 0 {
                return ApiError::MalformedResponse;
            }
            let n = es.len();
            let mut messages: Vec<String> = Vec::new();
            let mut i: usize = 0;
            while i < n
                invariant
                    i <= n == es@.len(),
                    messages@.len() == i,
                    forall|j: int| 0 <= j < i ==> messages@[j]@ == (#[trigger] es@[j])@.message,
                decreases n - i,
            {
                messages.push(es[i].message.clone());
                i = i + 1;
            }
            let r = ApiError::UpstreamQueryError { messages };
            proof {
                assert(r@->UpstreamQueryError_messages =~= spec_upstream_or_malformed(
                    errs_opt_view(Some(es)),
                )->UpstreamQueryError_messages);
            }
            r
        },
        None => ApiError::MalformedResponse,
    }
}

} // verus!
