//! Credential resolution: exactly one bearer token comes out of four
//! sources, in a fixed order — an explicit value, a primary environment
//! variable, a secondary one, and a per-host credential file. The
//! surrounding application reads the environment and the file; the order,
//! the path computation and the file parsing stand here.
use vstd::prelude::*;
use vstd::string::StringExecFns;

use crate::errors::{ApiError, ApiErrorModel, result_view};
use crate::value::opt_view;

verus! {

/// The config-file path for the per-host credential file: rooted at the
/// config-home override when that is set, else at the conventional
/// dot-directory under the home directory.
pub open spec fn spec_config_path(xdg: Option<Seq<char>>, home: Option<Seq<char>>) -> Result<
    Seq<char>,
    ApiErrorModel,
> {
    match xdg {
        Some(x) => Ok(x + "/gh/hosts.yml"@),
        None => match home {
            Some(h) => Ok(h + "/.config/gh/hosts.yml"@),
            None => Err(
                ApiErrorModel::NoCredentialFound {
                    detail: "Could not determine home directory"@,
                },
            ),
        },
    }
}

/// Computes the credential-file path from the config-home override and the
/// home directory, as the application read them.
pub fn gh_config_path(xdg: Option<String>, home: Option<String>) -> (r: Result<String, ApiError>)
    ensures
        result_view(r) == spec_config_path(opt_view(xdg), opt_view(home)),
{
    match xdg {
        Some(x) => {
            let mut p = x;
            p.append("/gh/hosts.yml");
            Ok(p)
        },
        None => match home {
            Some(h) => {
                let mut p = h;
                p.append("/.config/gh/hosts.yml");
                Ok(p)
            },
            None => Err(
                ApiError::NoCredentialFound {
                    detail: "Could not determine home directory".to_owned(),
                },
            ),
        },
    }
}

/// Whether a text parses as a structured credential-file document; decided
/// by the parser alone, so it is a function of the text.
pub uninterp spec fn yaml_doc_ok(s: Seq<char>) -> bool;

/// The string at `outer.inner` of a parsed credential-file document, if the
/// document parses, carries `outer` as a mapping, and `inner` holds a
/// string there. The parser consults nothing but the text, so the whole
/// lookup is a function of its three arguments.
pub uninterp spec fn yaml_nested_str_of(
    s: Seq<char>,
    outer: Seq<char>,
    inner: Seq<char>,
) -> Option<Seq<char>>;

/// Relies on serde_yaml::from_str, serde_yaml::Value::get and
/// serde_yaml::Value::as_str: parses the nested key-value document and
/// reads the string at a two-key path. `get` and `as_str` yield `None` on
/// every non-matching shape; the error case is the parse failure.
#[verifier::external_body]
fn yaml_nested_str(content: &str, outer: &str, inner: &str) -> (r: Result<Option<String>, ()>)
    ensures
        r is Err <==> !yaml_doc_ok(content@),
        r matches Ok(t) ==> opt_view(t) == yaml_nested_str_of(content@, outer@, inner@),
{
    match serde_yaml::from_str::<serde_yaml::Value>(content) {
        Ok(doc) => Ok(
            doc.get(outer).and_then(|h| h.get(inner)).and_then(|t| t.as_str()).map(
                |s| s.to_string(),
            ),
        ),
        Err(_) => Err(()),
    }
}

/// Reads the token out of the credential file's text: an unparsable file
/// is a corrupt-file failure; a parsed file whose expected nested field is
/// absent — or holds an empty token, which no credential may be — names
/// the host key it looked for. Success is owed exactly when the document
/// holds a non-empty token at `github.com.oauth_token`.
pub fn token_from_file_content(content: &str, path: &str) -> (r: Result<String, ApiError>)
    ensures
        !yaml_doc_ok(content@) ==> result_view(r) == Err::<Seq<char>, ApiErrorModel>(
            ApiErrorModel::CredentialFileCorrupt,
        ),
        yaml_doc_ok(content@) ==> match yaml_nested_str_of(
            content@,
            "github.com"@,
            "oauth_token"@,
        ) {
            Some(t) => if t.len() > 0 {
                result_view(r) == Ok::<Seq<char>, ApiErrorModel>(t)
            } else {
                result_view(r) == Err::<Seq<char>, ApiErrorModel>(
                    ApiErrorModel::NoCredentialFound {
                        detail: "No oauth_token found for github.com in "@ + path@,
                    },
                )
            },
            None => result_view(r) == Err::<Seq<char>, ApiErrorModel>(
                ApiErrorModel::NoCredentialFound {
                    detail: "No oauth_token found for github.com in "@ + path@,
                },
            ),
        },
        r matches Ok(t) ==> t@.len() > 0,
{
    let token = match yaml_nested_str(content, "github.com", "oauth_token") {
        Ok(t) => t,
        Err(_) => {
            return Err(ApiError::CredentialFileCorrupt);
        },
    };
    match token {
        Some(t) => {
            if t.as_str().unicode_len() > 0 {
                return Ok(t);
            }
            let mut detail: String = "No oauth_token found for github.com in ".to_owned();
            detail.append(path);
            Err(ApiError::NoCredentialFound { detail })
        },
        None => {
            let mut detail: String = "No oauth_token found for github.com in ".to_owned();
            detail.append(path);
            Err(ApiError::NoCredentialFound { detail })
        },
    }
}

/// The failure reported when the credential file does not exist at the
/// checked path.
pub open spec fn spec_missing_file_error(path: Seq<char>) -> ApiErrorModel {
    ApiErrorModel::NoCredentialFound {
        detail:
            "No GitHub token found. Set GITHUB_TOKEN env var or run 'gh auth login'. Config path checked: "@
            + path,
    }
}

/// Builds the failure for an absent credential file, naming the checked
/// path.
pub fn missing_file_error(path: &str) -> (r: ApiError)
    ensures
        r@ == spec_missing_file_error(path@),
{
    let mut detail: String =
        "No GitHub token found. Set GITHUB_TOKEN env var or run 'gh auth login'. Config path checked: ".to_owned();
    detail.append(path);
    ApiError::NoCredentialFound { detail }
}

/// The resolution order: the explicit value wins when non-empty, then the
/// primary environment variable when set and non-empty, then the secondary
/// one, and last whatever the file probe yielded.
pub open spec fn spec_resolve(
    explicit: Option<Seq<char>>,
    env_primary: Option<Seq<char>>,
    env_secondary: Option<Seq<char>>,
    file: Result<Seq<char>, ApiErrorModel>,
) -> Result<Seq<char>, ApiErrorModel> {
    if explicit matches Some(t) && t.len() > 0 {
        Ok(explicit->Some_0)
    } else if env_primary matches Some(t) && t.len() > 0 {
        Ok(env_primary->Some_0)
    } else if env_secondary matches Some(t) && t.len() > 0 {
        Ok(env_secondary->Some_0)
    } else {
        file
    }
}

/// Resolves the credential from the four sources; runs once per client
/// construction, first success wins, no merging.
pub fn resolve_credential(
    explicit: Option<String>,
    env_primary: Option<String>,
    env_secondary: Option<String>,
    file: Result<String, ApiError>,
) -> (r: Result<String, ApiError>)
    ensures
        result_view(r) == spec_resolve(
            opt_view(explicit),
            opt_view(env_primary),
            opt_view(env_secondary),
            result_view(file),
        ),
{
    if let Some(t) = explicit {
        if t.as_str().unicode_len() > 0 {
            return Ok(t);
        }
    }
    if let Some(t) = env_primary {
        if t.as_str().unicode_len() > 0 {
            return Ok(t);
        }
    }
    if let Some(t) = env_secondary {
        if t.as_str().unicode_len() > 0 {
            return Ok(t);
        }
    }
    file
}

/// Resolution order is deterministic: an explicit non-empty value always
/// wins; with none, a non-empty primary environment value wins; with
/// neither, a non-empty secondary environment value wins; and only with
/// none of the three does the file probe decide.
pub proof fn lemma_resolution_order(
    explicit: Option<Seq<char>>,
    env_primary: Option<Seq<char>>,
    env_secondary: Option<Seq<char>>,
    file: Result<Seq<char>, ApiErrorModel>,
)
    ensures
        (explicit matches Some(t) && t.len() > 0) ==> spec_resolve(
            explicit,
            env_primary,
            env_secondary,
            file,
        ) == Ok::<Seq<char>, ApiErrorModel>(explicit->Some_0),
        (!(explicit matches Some(t) && t.len() > 0) && (env_primary matches Some(t) && t.len()
            > 0)) ==> spec_resolve(explicit, env_primary, env_secondary, file) == Ok::<
            Seq<char>,
            ApiErrorModel,
        >(env_primary->Some_0),
        (!(explicit matches Some(t) && t.len() > 0) && !(env_primary matches Some(t) && t.len()
            > 0) && (env_secondary matches Some(t) && t.len() > 0)) ==> spec_resolve(
            explicit,
            env_primary,
            env_secondary,
            file,
        ) == Ok::<Seq<char>, ApiErrorModel>(env_secondary->Some_0),
        (!(explicit matches Some(t) && t.len() > 0) && !(env_primary matches Some(t) && t.len()
            > 0) && !(env_secondary matches Some(t) && t.len() > 0)) ==> spec_resolve(
            explicit,
            env_primary,
            env_secondary,
            file,
        ) == file,
{
}

/// A resolved credential is never empty: the explicit and environment
/// branches admit only non-empty values, and the file reader yields only
/// non-empty tokens, so whatever resolution returns on success satisfies
/// the credential invariant.
pub proof fn lemma_credential_non_empty(
    explicit: Option<Seq<char>>,
    env_primary: Option<Seq<char>>,
    env_secondary: Option<Seq<char>>,
    file: Result<Seq<char>, ApiErrorModel>,
)
    requires
        file matches Ok(t) ==> t.len() > 0,
    ensures
        spec_resolve(explicit, env_primary, env_secondary, file) matches Ok(t) ==> t.len() > 0,
{
}

} // verus!
