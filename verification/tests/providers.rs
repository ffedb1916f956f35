use base64::Engine;

use rem::errors::CoreError;
use rem::github::{
    github_read_download_url, github_register_finish, github_register_request, GithubAuth,
    GithubPassword, GithubRepo,
};
use rem::gitlab::{
    decode_content, gitlab_read_content, gitlab_register_finish, gitlab_register_request,
    GitlabRepo, GitlabToken,
};
use rem::repo::{
    provider_for_host, registration_target, Password, ProviderKind, Repo,
};
use rem::text::u64_to_string;

fn b64(s: &str) -> String {
    base64::engine::general_purpose::STANDARD.encode(s)
}

// ----- credential construction -------------------------------------------
#[test]
fn both_literal_and_env_credential_is_a_configuration_error() {
    let r = Password::from_options(
        Some("secret".to_string()),
        Some(("TOKEN_VAR".to_string(), "value".to_string())),
        None,
    );
    assert_eq!(r, Err(CoreError::ConfigurationError));
}

#[test]
fn single_credential_sources_resolve() {
    assert_eq!(
        Password::from_options(Some("s".to_string()), None, None),
        Ok(Password::Saved("s".to_string()))
    );
    assert_eq!(
        Password::from_options(None, Some(("V".to_string(), "x".to_string())), None),
        Ok(Password::FromEnv("V".to_string(), "x".to_string()))
    );
    assert_eq!(
        Password::from_options(None, None, Some("piped".to_string())),
        Ok(Password::Saved("piped".to_string()))
    );
    assert_eq!(Password::from_options(None, None, None), Ok(Password::Absent));
}

// ----- GitHub --------------------------------------------------------------
fn github_repo(auth: Option<GithubAuth>) -> GithubRepo {
    GithubRepo { project_id: "user/repo".to_string(), auth }
}

#[test]
fn github_fetch_request_without_auth() {
    let repo = github_repo(None);
    assert_eq!(repo.required_env(), None);
    let req = repo.fetch_request("dir/file.sh", "main", None).unwrap();
    assert_eq!(
        req.url,
        "https://api.github.com/repos/user/repo/contents/dir/file.sh?ref=main"
    );
    assert_eq!(req.accept, Some("application/vnd.github.v3+json".to_string()));
    assert_eq!(req.user_agent, Some("rem-bash".to_string()));
    assert_eq!(req.private_token, None);
    assert_eq!(req.basic_auth, None);
}

#[test]
fn github_fetch_request_with_saved_password() {
    let repo = github_repo(Some(GithubAuth {
        username: "alice".to_string(),
        password: GithubPassword::Saved("tok".to_string()),
    }));
    let req = repo.fetch_request("f.sh", "HEAD", None).unwrap();
    assert_eq!(req.basic_auth, Some(("alice".to_string(), "tok".to_string())));
}

#[test]
fn github_fetch_request_resolves_env_at_use_time() {
    let repo = github_repo(Some(GithubAuth {
        username: "alice".to_string(),
        password: GithubPassword::FromEnv("GH_TOKEN".to_string()),
    }));
    assert_eq!(repo.required_env(), Some("GH_TOKEN".to_string()));
    let req = repo.fetch_request("f.sh", "HEAD", Some("fresh".to_string())).unwrap();
    assert_eq!(req.basic_auth, Some(("alice".to_string(), "fresh".to_string())));
    let missing = repo.fetch_request("f.sh", "HEAD", None);
    assert_eq!(
        missing.err(),
        Some(CoreError::MissingCredentialEnv { var: "GH_TOKEN".to_string() })
    );
}

#[test]
fn github_download_url_is_extracted() {
    let body = "{\"download_url\": \"https://raw.example/file\", \"name\": \"file\"}";
    assert_eq!(
        github_read_download_url(200, body),
        Ok("https://raw.example/file".to_string())
    );
}

#[test]
fn github_malformed_body_is_a_decode_error() {
    assert_eq!(
        github_read_download_url(200, "not json"),
        Err(CoreError::ContentDecodeError)
    );
    assert_eq!(
        github_read_download_url(200, "{\"other\": 1}"),
        Err(CoreError::ContentDecodeError)
    );
    assert_eq!(
        github_read_download_url(200, "{\"download_url\": 7}"),
        Err(CoreError::ContentDecodeError)
    );
}

#[test]
fn github_non_2xx_preserves_status_and_body() {
    match github_read_download_url(404, "missing") {
        Err(CoreError::RemoteApiError { status, body }) => {
            assert_eq!(status, 404);
            assert_eq!(body, "missing");
        }
        other => panic!("expected RemoteApiError, got {:?}", other),
    }
}

#[test]
fn github_register_request_shapes() {
    let req = github_register_request(
        "/user/repo",
        &Some("alice".to_string()),
        &Password::Saved("tok".to_string()),
    )
    .unwrap();
    assert_eq!(req.url, "https://api.github.com/repos/user/repo");
    assert_eq!(req.basic_auth, Some(("alice".to_string(), "tok".to_string())));

    let anonymous = github_register_request("/user/repo", &None, &Password::Absent).unwrap();
    assert_eq!(anonymous.basic_auth, None);
}

#[test]
fn github_username_without_credential_is_refused() {
    let r = github_register_request("/user/repo", &Some("alice".to_string()), &Password::Absent);
    assert_eq!(r.err(), Some(CoreError::UsernameRequiresCredential));
}

#[test]
fn github_credential_without_username_is_refused() {
    let r = github_register_request("/user/repo", &None, &Password::Saved("tok".to_string()));
    assert_eq!(r.err(), Some(CoreError::CredentialRequiresUsername));
    let r = github_register_finish(
        200,
        "{}".to_string(),
        "/user/repo",
        &None,
        &Password::FromEnv("V".to_string(), "x".to_string()),
    );
    assert_eq!(r.err(), Some(CoreError::CredentialRequiresUsername));
}

#[test]
fn github_register_finish_keeps_env_name_only() {
    let repo = github_register_finish(
        200,
        "{}".to_string(),
        "/user/repo",
        &Some("alice".to_string()),
        &Password::FromEnv("GH_TOKEN".to_string(), "captured".to_string()),
    )
    .unwrap();
    assert_eq!(repo.project_id, "user/repo");
    assert_eq!(
        repo.auth,
        Some(GithubAuth {
            username: "alice".to_string(),
            password: GithubPassword::FromEnv("GH_TOKEN".to_string()),
        })
    );
}

#[test]
fn github_register_finish_rejects_non_2xx() {
    let r = github_register_finish(403, "forbidden".to_string(), "/u/r", &None, &Password::Absent);
    assert_eq!(
        r.err(),
        Some(CoreError::RemoteApiError { status: 403, body: "forbidden".to_string() })
    );
}

// ----- GitLab --------------------------------------------------------------
#[test]
fn gitlab_fetch_request_encodes_the_path() {
    let repo = GitlabRepo {
        project_id: "42".to_string(),
        path: "group/proj".to_string(),
        token: None,
    };
    let req = repo.fetch_request("dir/file.sh", "main", None).unwrap();
    assert_eq!(
        req.url,
        "https://gitlab.com/api/v4/projects/42/repository/files/dir%2Ffile.sh?ref=main"
    );
    assert_eq!(req.private_token, None);
    assert_eq!(req.basic_auth, None);
}

#[test]
fn gitlab_fetch_request_token_handling() {
    let saved = GitlabRepo {
        project_id: "42".to_string(),
        path: "g/p".to_string(),
        token: Some(GitlabToken::Saved("tok".to_string())),
    };
    assert_eq!(saved.required_env(), None);
    let req = saved.fetch_request("f", "HEAD", None).unwrap();
    assert_eq!(req.private_token, Some("tok".to_string()));

    let env = GitlabRepo {
        project_id: "42".to_string(),
        path: "g/p".to_string(),
        token: Some(GitlabToken::FromEnv("GL_TOKEN".to_string())),
    };
    assert_eq!(env.required_env(), Some("GL_TOKEN".to_string()));
    let req = env.fetch_request("f", "HEAD", Some("v".to_string())).unwrap();
    assert_eq!(req.private_token, Some("v".to_string()));
    assert_eq!(
        env.fetch_request("f", "HEAD", None).err(),
        Some(CoreError::MissingCredentialEnv { var: "GL_TOKEN".to_string() })
    );
}

#[test]
fn gitlab_content_round_trip() {
    // a response whose content is the base64 of "echo hi" decodes to it
    assert_eq!(decode_content(&b64("echo hi")), Ok("echo hi".to_string()));
    let body = format!("{{\"content\": \"{}\"}}", b64("echo hi"));
    assert_eq!(gitlab_read_content(200, &body), Ok("echo hi".to_string()));
}

#[test]
fn gitlab_bad_base64_or_utf8_is_a_decode_error() {
    assert_eq!(decode_content("!!!"), Err(CoreError::ContentDecodeError));
    // valid base64 of bytes that are not UTF-8
    let bad = base64::engine::general_purpose::STANDARD.encode([0xffu8, 0xfe]);
    assert_eq!(decode_content(&bad), Err(CoreError::ContentDecodeError));
}

#[test]
fn gitlab_non_2xx_preserves_status_and_body() {
    match gitlab_read_content(500, "boom") {
        Err(CoreError::RemoteApiError { status, body }) => {
            assert_eq!(status, 500);
            assert_eq!(body, "boom");
        }
        other => panic!("expected RemoteApiError, got {:?}", other),
    }
}

#[test]
fn gitlab_register_request_encodes_project_path() {
    let req = gitlab_register_request("/group/proj", &Password::Saved("tok".to_string()));
    assert_eq!(req.url, "https://gitlab.com/api/v4/projects/group%2Fproj");
    assert_eq!(req.private_token, Some("tok".to_string()));
}

#[test]
fn gitlab_register_finish_reads_numeric_id() {
    let repo = gitlab_register_finish(
        200,
        "{\"id\": 1234567, \"name\": \"proj\"}",
        "/group/proj",
        &Password::FromEnv("GL_TOKEN".to_string(), "captured".to_string()),
    )
    .unwrap();
    assert_eq!(repo.project_id, "1234567");
    assert_eq!(repo.path, "group/proj");
    assert_eq!(repo.token, Some(GitlabToken::FromEnv("GL_TOKEN".to_string())));
}

#[test]
fn gitlab_register_finish_rejects_bad_bodies() {
    assert_eq!(
        gitlab_register_finish(200, "{}", "/g/p", &Password::Absent).err(),
        Some(CoreError::ContentDecodeError)
    );
    assert_eq!(
        gitlab_register_finish(200, "{\"id\": \"x\"}", "/g/p", &Password::Absent).err(),
        Some(CoreError::ContentDecodeError)
    );
    match gitlab_register_finish(401, "denied", "/g/p", &Password::Absent) {
        Err(CoreError::RemoteApiError { status, body }) => {
            assert_eq!(status, 401);
            assert_eq!(body, "denied");
        }
        other => panic!("expected RemoteApiError, got {:?}", other),
    }
}

// ----- registration targets ------------------------------------------------
#[test]
fn provider_for_host_recognizes_the_two_platforms() {
    assert_eq!(
        provider_for_host(&Some("gitlab.com".to_string())),
        Ok(ProviderKind::Gitlab)
    );
    assert_eq!(
        provider_for_host(&Some("github.com".to_string())),
        Ok(ProviderKind::Github)
    );
    assert_eq!(
        provider_for_host(&Some("bitbucket.org".to_string())),
        Err(CoreError::UnrecognizedProvider)
    );
    assert_eq!(provider_for_host(&None), Err(CoreError::NoHostInUri));
}

#[test]
fn registration_target_accepts_bare_platform_urls() {
    let t = registration_target("github.com/user/repo").unwrap();
    assert_eq!(t.kind, ProviderKind::Github);
    assert_eq!(t.path, "/user/repo");

    let t = registration_target("https://gitlab.com/group/proj").unwrap();
    assert_eq!(t.kind, ProviderKind::Gitlab);
    assert_eq!(t.path, "/group/proj");
}

#[test]
fn registration_target_rejects_other_uris() {
    assert_eq!(
        registration_target("notaurl").err(),
        Some(CoreError::UriNotRecognized)
    );
    assert_eq!(
        registration_target("mailto:a@example.com").err(),
        Some(CoreError::UriNotRecognized)
    );
    assert_eq!(
        registration_target("https://bitbucket.org/x/y").err(),
        Some(CoreError::UnrecognizedProvider)
    );
}

// ----- display helpers ------------------------------------------------------
#[test]
fn provider_tags_and_readables() {
    let git = Repo::Git(rem::git::GitRepo { url: "https://example.com/r".to_string() });
    assert_eq!(git.provider(), "git");
    assert_eq!(git.readable(), "https://example.com/r");

    let gh = Repo::Github(GithubRepo { project_id: "u/r".to_string(), auth: None });
    assert_eq!(gh.provider(), "github");
    assert_eq!(gh.readable(), "github.com/u/r");

    let gl = Repo::Gitlab(GitlabRepo {
        project_id: "9".to_string(),
        path: "g/p".to_string(),
        token: None,
    });
    assert_eq!(gl.provider(), "gitlab");
    assert_eq!(gl.readable(), "gitlab.com/g/p");
    assert_eq!(gl.duplicate(), gl);
}

#[test]
fn decimal_rendering() {
    assert_eq!(u64_to_string(0), "0");
    assert_eq!(u64_to_string(7), "7");
    assert_eq!(u64_to_string(1234567), "1234567");
    assert_eq!(u64_to_string(u64::MAX), "18446744073709551615");
}
