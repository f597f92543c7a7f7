use version_updater::errors::AppError;
use version_updater::registry::DockerAuthEntry;
use version_updater::registry::RegistryAuth;
use version_updater::registry::RegistryClient;
use version_updater::registry::TokenAuth;
use version_updater::registry::accept_header;
use version_updater::registry::build_token_request;
use version_updater::registry::check_manifest;
use version_updater::registry::extract_registry;
use version_updater::registry::parse_token_response;
use version_updater::registry::registry_token_request;
use version_updater::registry::resolve_credentials;

#[test]
fn extract_registry_with_host() {
    let p = extract_registry("ghcr.io/acme/web");
    assert_eq!(p.registry, "ghcr.io");
    assert_eq!(p.image_path, "acme/web");
}

#[test]
fn extract_registry_official_image() {
    let p = extract_registry("nginx");
    assert_eq!(p.registry, "registry.hub.docker.com");
    assert_eq!(p.image_path, "library/nginx");
}

#[test]
fn extract_registry_hub_path() {
    let p = extract_registry("acme/web");
    assert_eq!(p.registry, "registry.hub.docker.com");
    assert_eq!(p.image_path, "acme/web");
}

#[test]
fn extract_registry_drops_port() {
    let p = extract_registry("foo.example.com:5000/img");
    assert_eq!(p.registry, "foo.example.com");
    assert_eq!(p.image_path, "library/img");
}

#[test]
fn extract_registry_deep_path() {
    let p = extract_registry("registry.gitlab.com/group/project/image");
    assert_eq!(p.registry, "registry.gitlab.com");
    assert_eq!(p.image_path, "group/project/image");
}

#[test]
fn extract_registry_non_fqdn_prefix() {
    let p = extract_registry("foo/bar/baz");
    assert_eq!(p.registry, "registry.hub.docker.com");
    assert_eq!(p.image_path, "foo/bar/baz");
}

#[test]
fn extract_registry_localhost_is_not_fqdn() {
    let p = extract_registry("localhost/img");
    assert_eq!(p.registry, "registry.hub.docker.com");
    assert_eq!(p.image_path, "localhost/img");
}

fn scheme_parts(a: RegistryAuth) -> (String, String, Option<String>) {
    let RegistryAuth::Standard { auth_url, service, client_id } = a;
    (auth_url, service, client_id)
}

#[test]
fn scheme_docker_hub() {
    let (url, service, cid) = scheme_parts(RegistryAuth::from_registry("registry.hub.docker.com"));
    assert_eq!(url, "https://auth.docker.io/token");
    assert_eq!(service, "registry.docker.io");
    assert!(cid.is_none());
}

#[test]
fn scheme_gitlab() {
    let (url, service, cid) = scheme_parts(RegistryAuth::from_registry("registry.gitlab.com"));
    assert_eq!(url, "https://gitlab.com/jwt/auth");
    assert_eq!(service, "container_registry");
    assert_eq!(cid.unwrap(), "docker");
}

#[test]
fn scheme_ghcr() {
    let (url, service, cid) = scheme_parts(RegistryAuth::from_registry("ghcr.io"));
    assert_eq!(url, "https://ghcr.io/token");
    assert_eq!(service, "ghcr.io");
    assert!(cid.is_none());
}

#[test]
fn scheme_generic() {
    let (url, service, cid) = scheme_parts(RegistryAuth::from_registry("reg.example.org"));
    assert_eq!(url, "https://reg.example.org/v2/token");
    assert_eq!(service, "reg.example.org");
    assert!(cid.is_none());
}

#[test]
fn token_request_url_and_basic_auth() {
    let auth = RegistryAuth::from_registry("registry.hub.docker.com");
    let req = build_token_request(
        &auth,
        "library/nginx",
        Some(("user".to_string(), "pass".to_string())),
        None,
    );
    assert_eq!(
        req.url,
        "https://auth.docker.io/token?service=registry.docker.io&scope=repository:library/nginx:pull"
    );
    match req.auth {
        TokenAuth::Basic(u, p) => {
            assert_eq!(u, "user");
            assert_eq!(p, "pass");
        },
        _ => panic!("expected basic auth"),
    }
}

#[test]
fn token_request_gitlab_client_id() {
    let auth = RegistryAuth::from_registry("registry.gitlab.com");
    let req = build_token_request(&auth, "group/img", None, None);
    assert_eq!(
        req.url,
        "https://gitlab.com/jwt/auth?service=container_registry&scope=repository:group/img:pull&client_id=docker"
    );
    assert!(matches!(req.auth, TokenAuth::Anonymous));
}

#[test]
fn token_request_ghcr_prefers_bearer() {
    let auth = RegistryAuth::from_registry("ghcr.io");
    let req = build_token_request(
        &auth,
        "acme/web",
        Some(("user".to_string(), "pass".to_string())),
        Some("ghtok".to_string()),
    );
    match req.auth {
        TokenAuth::Bearer(t) => assert_eq!(t, "ghtok"),
        _ => panic!("expected bearer auth"),
    }
}

#[test]
fn token_request_ghcr_falls_back_to_basic() {
    let auth = RegistryAuth::from_registry("ghcr.io");
    let req = build_token_request(
        &auth,
        "acme/web",
        Some(("user".to_string(), "pass".to_string())),
        None,
    );
    assert!(matches!(req.auth, TokenAuth::Basic(_, _)));
}

#[test]
fn quay_gets_no_token_request() {
    assert!(registry_token_request("quay.io", "acme/web", None, None).is_none());
    assert!(registry_token_request("ghcr.io", "acme/web", None, None).is_some());
}

#[test]
fn token_response_parsing() {
    assert_eq!(parse_token_response("{\"token\": \"abc\"}").unwrap(), "abc");
    assert!(matches!(parse_token_response("{}"), Err(AppError::InvalidResponse(_))));
    assert!(matches!(parse_token_response("not json"), Err(AppError::InvalidResponse(_))));
}

#[test]
fn credentials_from_base64_blob() {
    // "user:pass" in standard base64.
    let entry = DockerAuthEntry {
        auth: Some("dXNlcjpwYXNz".to_string()),
        username: None,
        password: None,
    };
    let r = resolve_credentials(Some(&entry)).unwrap().unwrap();
    assert_eq!(r.0, "user");
    assert_eq!(r.1, "pass");
}

#[test]
fn credentials_invalid_blob_is_error() {
    let entry = DockerAuthEntry {
        auth: Some("%%%not-base64%%%".to_string()),
        username: None,
        password: None,
    };
    assert!(matches!(resolve_credentials(Some(&entry)), Err(AppError::CredentialsError(_))));
}

#[test]
fn credentials_explicit_fields() {
    let entry = DockerAuthEntry {
        auth: None,
        username: Some("u".to_string()),
        password: Some("p".to_string()),
    };
    let r = resolve_credentials(Some(&entry)).unwrap().unwrap();
    assert_eq!(r.0, "u");
    assert_eq!(r.1, "p");
}

#[test]
fn credentials_blob_without_colon_falls_back() {
    // "nocolon" in standard base64 decodes but holds no colon.
    let entry = DockerAuthEntry {
        auth: Some("bm9jb2xvbg==".to_string()),
        username: Some("u".to_string()),
        password: Some("p".to_string()),
    };
    let r = resolve_credentials(Some(&entry)).unwrap().unwrap();
    assert_eq!(r.0, "u");
    assert_eq!(r.1, "p");
}

#[test]
fn credentials_absent_entry_is_anonymous() {
    assert!(resolve_credentials(None).unwrap().is_none());
    let entry = DockerAuthEntry { auth: None, username: None, password: None };
    assert!(resolve_credentials(Some(&entry)).unwrap().is_none());
}

#[test]
fn manifest_accept_headers_in_order() {
    assert_eq!(accept_header(0), "application/vnd.docker.distribution.manifest.v2+json");
    assert_eq!(accept_header(1), "application/vnd.oci.image.index.v1+json");
    assert_eq!(accept_header(2), "application/vnd.docker.distribution.manifest.list.v2+json");
}

#[test]
fn manifest_first_200_short_circuits() {
    let responses = vec![
        (200u16, String::new()),
        (404u16, "manifest unknown".to_string()),
        (404u16, "manifest unknown".to_string()),
    ];
    let (outcome, used) = check_manifest(&responses);
    assert_eq!(outcome.unwrap(), true);
    assert_eq!(used, 1);
}

#[test]
fn manifest_three_404s_mean_absence() {
    let responses = vec![
        (404u16, "manifest unknown".to_string()),
        (404u16, "manifest unknown".to_string()),
        (404u16, "manifest unknown".to_string()),
    ];
    let (outcome, used) = check_manifest(&responses);
    assert_eq!(outcome.unwrap(), false);
    assert_eq!(used, 3);
}

#[test]
fn manifest_429_stops_with_rate_limit() {
    let responses = vec![
        (404u16, "manifest unknown".to_string()),
        (429u16, "slow down".to_string()),
        (200u16, String::new()),
    ];
    let (outcome, used) = check_manifest(&responses);
    match outcome {
        Err(AppError::RateLimited(m)) => assert_eq!(m, "slow down"),
        _ => panic!("expected RateLimited"),
    }
    assert_eq!(used, 2);
}

#[test]
fn manifest_unexpected_status_is_request_error() {
    let responses = vec![
        (500u16, "boom".to_string()),
        (404u16, String::new()),
        (404u16, String::new()),
    ];
    let (outcome, used) = check_manifest(&responses);
    match outcome {
        Err(AppError::RequestError(st, m)) => {
            assert_eq!(st, 500);
            assert_eq!(m, "boom");
        },
        _ => panic!("expected RequestError"),
    }
    assert_eq!(used, 1);
}

#[test]
fn manifest_second_200_uses_two_requests() {
    let responses = vec![
        (404u16, "OCI index found".to_string()),
        (200u16, String::new()),
        (404u16, String::new()),
    ];
    let (outcome, used) = check_manifest(&responses);
    assert_eq!(outcome.unwrap(), true);
    assert_eq!(used, 2);
}

#[test]
fn manifest_url_layout() {
    let client = RegistryClient::new("ghcr.io/acme/web");
    assert_eq!(
        client.manifest_url("3.4.0"),
        "https://ghcr.io/v2/acme/web/manifests/3.4.0"
    );
}
