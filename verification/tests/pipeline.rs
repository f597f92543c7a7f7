use version_updater::config::ServiceConfig;
use version_updater::config::collect_results;
use version_updater::config::validate_services;
use version_updater::errors::AppError;
use version_updater::git::ApiType;
use version_updater::git::GitClient;
use version_updater::git::GitConfig;
use version_updater::git::Provider;
use version_updater::git::TokenAvailability;
use version_updater::git::default_version_filter;
use version_updater::git::interpret_release_response;
use version_updater::registry::RegistryClient;
use version_updater::registry::check_manifest;
use version_updater::service::ServiceInfo;
use version_updater::service::ServiceProcessor;
use version_updater::service::VersionStep;

fn web_service() -> ServiceConfig {
    ServiceConfig {
        git: GitConfig {
            repo: "acme/web".to_string(),
            git_type: Provider::Github,
            project_id: None,
            filter: "(.*)".to_string(),
            private: false,
            global_github_auth: false,
        },
        image: version_updater::registry::ImageConfig {
            name: "ghcr.io/acme/web".to_string(),
            tag: "${RELEASE_VERSION}".to_string(),
        },
    }
}

/// Drives one service through the pure pipeline with canned responses.
fn run_service(
    config: ServiceConfig,
    release: (u16, &str),
    manifest: Vec<(u16, String)>,
) -> ServiceInfo {
    let processor = ServiceProcessor::new(config);
    let api = GitClient::api_type(&processor.config.git);
    let version_result = match &api {
        Some(api) => interpret_release_response(
            api,
            processor.config.git.filter.as_str(),
            release.0,
            release.1,
        ),
        None => Ok(String::new()),
    };
    let version = match processor.after_version(version_result) {
        VersionStep::Proceed(v) => v,
        VersionStep::Finished(info) => return info,
    };
    let tag = processor.substituted_tag(&version);
    let _client = RegistryClient::new(processor.config.image.name.as_str());
    let (outcome, _used) = check_manifest(&manifest);
    processor.after_validation(tag, outcome)
}

#[test]
fn end_to_end_existing_tag() {
    let info = run_service(
        web_service(),
        (200, "{\"tag_name\": \"3.4.0\"}"),
        vec![(200, String::new()), (404, String::new()), (404, String::new())],
    );
    assert_eq!(info.container_image, "ghcr.io/acme/web");
    assert_eq!(info.image_tag, "3.4.0");
    assert!(info.error.is_none());
}

#[test]
fn end_to_end_absent_tag() {
    let info = run_service(
        web_service(),
        (200, "{\"tag_name\": \"3.4.0\"}"),
        vec![
            (404, "manifest unknown".to_string()),
            (404, "manifest unknown".to_string()),
            (404, "manifest unknown".to_string()),
        ],
    );
    assert_eq!(info.container_image, "ghcr.io/acme/web");
    assert_eq!(info.image_tag, "<NOT_FOUND>");
    assert!(info.error.is_none());
}

#[test]
fn batch_isolation_keeps_all_entries() {
    let ok = |name: &str| {
        (
            name.to_string(),
            run_service(
                web_service(),
                (200, "{\"tag_name\": \"1.0\"}"),
                vec![(200, String::new()), (404, String::new()), (404, String::new())],
            ),
        )
    };
    // The second service fails at registry validation with an
    // unexpected status; its siblings are unaffected.
    let failing = (
        "beta".to_string(),
        run_service(
            web_service(),
            (200, "{\"tag_name\": \"1.0\"}"),
            vec![(500, "boom".to_string()), (404, String::new()), (404, String::new())],
        ),
    );
    let results = vec![ok("gamma"), failing, ok("alpha")];
    let collected = collect_results(results);
    assert_eq!(collected.len(), 3);
    assert_eq!(collected[0].0, "alpha");
    assert_eq!(collected[1].0, "beta");
    assert_eq!(collected[2].0, "gamma");
    assert!(collected[0].1.error.is_none());
    assert!(collected[2].1.error.is_none());
    assert_eq!(collected[0].1.image_tag, "1.0");
    assert_eq!(collected[2].1.image_tag, "1.0");
    let beta = &collected[1].1;
    assert_eq!(beta.image_tag, "<ERROR>");
    assert!(beta.error.as_ref().unwrap().starts_with("Failed to validate image tag:"));
}

#[test]
fn rate_limited_version_resolution_is_sentinel() {
    let info = run_service(
        web_service(),
        (429, ""),
        vec![(200, String::new()), (404, String::new()), (404, String::new())],
    );
    assert_eq!(info.image_tag, "<RATE_LIMITED>");
    assert!(info.error.is_none());
}

#[test]
fn no_upstream_service_substitutes_empty_version() {
    let mut config = web_service();
    config.git.git_type = Provider::NoUpstream;
    config.image.tag = "v${RELEASE_VERSION}".to_string();
    let info = run_service(
        config,
        (200, "ignored"),
        vec![(200, String::new()), (404, String::new()), (404, String::new())],
    );
    assert_eq!(info.image_tag, "v");
}

fn tokens(github: bool) -> TokenAvailability {
    TokenAvailability { github, gitlab: false, codeberg: false }
}

#[test]
fn validate_services_applies_global_auth() {
    let services = vec![("web".to_string(), web_service())];
    let out = validate_services(services, true, &tokens(true)).unwrap();
    assert_eq!(out.len(), 1);
    assert!(out[0].1.git.global_github_auth);
}

#[test]
fn validate_services_rejects_global_auth_without_token() {
    let services = vec![("web".to_string(), web_service())];
    assert!(matches!(
        validate_services(services, true, &tokens(false)),
        Err(AppError::MissingGithubToken)
    ));
}

#[test]
fn validate_services_rejects_gitlab_without_project_id() {
    let mut bad = web_service();
    bad.git.git_type = Provider::Gitlab;
    bad.git.project_id = None;
    bad.git.filter = default_version_filter();
    let services = vec![
        ("ok".to_string(), web_service()),
        ("bad".to_string(), bad),
    ];
    assert!(matches!(
        validate_services(services, false, &tokens(false)),
        Err(AppError::MissingGitlabProjectId)
    ));
}

#[test]
fn collect_results_sorts_by_name() {
    let entry = |name: &str| {
        (
            name.to_string(),
            ServiceInfo {
                container_image: name.to_string(),
                image_tag: "1.0".to_string(),
                error: None,
            },
        )
    };
    let collected = collect_results(vec![entry("zeta"), entry("alpha"), entry("mid")]);
    let names: Vec<&str> = collected.iter().map(|p| p.0.as_str()).collect();
    assert_eq!(names, vec!["alpha", "mid", "zeta"]);
}

#[test]
fn api_type_of_each_provider() {
    let mut c = web_service().git;
    assert!(matches!(GitClient::api_type(&c), Some(ApiType::Github { .. })));
    c.git_type = Provider::Gitlab;
    c.project_id = Some(5);
    match GitClient::api_type(&c) {
        Some(ApiType::Gitlab { project_id }) => assert_eq!(project_id, 5),
        _ => panic!("expected GitLab request"),
    }
    c.git_type = Provider::Codeberg;
    assert!(matches!(GitClient::api_type(&c), Some(ApiType::Codeberg { .. })));
}
