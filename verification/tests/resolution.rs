use fgp_github::credentials::{
    gh_config_path, missing_file_error, resolve_credential, token_from_file_content,
};
use fgp_github::errors::ApiError;

fn s(x: &str) -> String {
    x.to_string()
}

fn file_ok() -> Result<String, ApiError> {
    Ok(s("file-token"))
}

#[test]
fn test_gh_config_path() {
    let path = gh_config_path(None, Some(s("/home/user"))).unwrap();
    assert!(path.contains("gh/hosts.yml"));
}

#[test]
fn config_path_prefers_config_home_override() {
    let path = gh_config_path(Some(s("/xdg")), Some(s("/home/user"))).unwrap();
    assert_eq!(path, "/xdg/gh/hosts.yml");
    let fallback = gh_config_path(None, Some(s("/home/user"))).unwrap();
    assert_eq!(fallback, "/home/user/.config/gh/hosts.yml");
    let neither = gh_config_path(None, None);
    assert!(matches!(neither, Err(ApiError::NoCredentialFound { .. })));
}

#[test]
fn explicit_value_always_wins() {
    let r = resolve_credential(
        Some(s("explicit")),
        Some(s("primary")),
        Some(s("secondary")),
        file_ok(),
    );
    assert_eq!(r.unwrap(), "explicit");
}

#[test]
fn environment_wins_over_file() {
    let r = resolve_credential(None, Some(s("primary")), Some(s("secondary")), file_ok());
    assert_eq!(r.unwrap(), "primary");
    let r2 = resolve_credential(None, None, Some(s("secondary")), file_ok());
    assert_eq!(r2.unwrap(), "secondary");
}

#[test]
fn empty_values_fall_through() {
    // An empty explicit value and an empty or unset variable do not win.
    let r = resolve_credential(Some(s("")), Some(s("")), None, file_ok());
    assert_eq!(r.unwrap(), "file-token");
}

#[test]
fn file_failure_surfaces_when_nothing_else_matches() {
    let r = resolve_credential(None, None, None, Err(missing_file_error("/home/u/.config/gh/hosts.yml")));
    match r {
        Err(ApiError::NoCredentialFound { detail }) => {
            assert!(detail.contains("/home/u/.config/gh/hosts.yml"));
            assert!(detail.contains("No GitHub token found"));
        },
        _ => panic!("expected a no-credential failure"),
    }
}

#[test]
fn file_token_is_read_from_the_nested_field() {
    let content = "github.com:\n    oauth_token: tok123\n    user: octocat\n";
    let r = token_from_file_content(content, "/p/hosts.yml");
    assert_eq!(r.unwrap(), "tok123");
}

#[test]
fn unparsable_file_is_corrupt() {
    let content = "github.com: [unclosed\n";
    let r = token_from_file_content(content, "/p/hosts.yml");
    assert!(matches!(r, Err(ApiError::CredentialFileCorrupt)));
}

#[test]
fn empty_file_token_is_no_credential() {
    // A credential is never empty: an empty token in the file counts as
    // absent, it does not win over nothing.
    let content = "github.com:\n    oauth_token: \"\"\n";
    let r = token_from_file_content(content, "/p/hosts.yml");
    assert!(matches!(r, Err(ApiError::NoCredentialFound { .. })));
}

#[test]
fn parsed_file_without_token_names_the_host_key() {
    let content = "github.com:\n    user: octocat\n";
    let r = token_from_file_content(content, "/p/hosts.yml");
    match r {
        Err(ApiError::NoCredentialFound { detail }) => {
            assert_eq!(detail, "No oauth_token found for github.com in /p/hosts.yml");
        },
        _ => panic!("expected a no-credential failure"),
    }
}
