use version_updater::config::ServiceConfig;
use version_updater::config::ServiceVersion;
use version_updater::errors::AppError;
use version_updater::git::GitConfig;
use version_updater::git::Provider;
use version_updater::git::default_version_filter;
use version_updater::registry::ImageConfig;
use version_updater::service::ServiceInfo;
use version_updater::service::ServiceProcessor;
use version_updater::service::VersionStep;
use version_updater::strutil::contains_sub;
use version_updater::strutil::find_first;
use version_updater::strutil::replace_first;
use version_updater::strutil::str_le;
use version_updater::strutil::u64_to_string;

fn processor(image: &str, tag: &str) -> ServiceProcessor {
    ServiceProcessor::new(ServiceConfig {
        git: GitConfig {
            repo: "acme/web".to_string(),
            git_type: Provider::Github,
            project_id: None,
            filter: default_version_filter(),
            private: false,
            global_github_auth: false,
        },
        image: ImageConfig { name: image.to_string(), tag: tag.to_string() },
    })
}

#[test]
fn substitution_replaces_placeholder_once() {
    let p = processor("ghcr.io/acme/web", "app:${RELEASE_VERSION}");
    assert_eq!(p.substituted_tag("2.0.0"), "app:2.0.0");
}

#[test]
fn substitution_is_idempotent() {
    let p = processor("ghcr.io/acme/web", "app:${RELEASE_VERSION}");
    let once = p.substituted_tag("2.0.0");
    let again = ServiceProcessor::new(ServiceConfig {
        git: p.config.git,
        image: ImageConfig { name: "ghcr.io/acme/web".to_string(), tag: once.clone() },
    })
    .substituted_tag("2.0.0");
    assert_eq!(once, again);
}

#[test]
fn substitution_of_empty_version() {
    let p = processor("img", "${RELEASE_VERSION}");
    assert_eq!(p.substituted_tag(""), "");
}

#[test]
fn substitution_without_placeholder_is_noop() {
    let p = processor("img", "stable");
    assert_eq!(p.substituted_tag("2.0.0"), "stable");
}

#[test]
fn after_version_proceeds_on_success() {
    let p = processor("img", "${RELEASE_VERSION}");
    match p.after_version(Ok("1.0".to_string())) {
        VersionStep::Proceed(v) => assert_eq!(v, "1.0"),
        VersionStep::Finished(_) => panic!("expected Proceed"),
    }
}

#[test]
fn after_version_rate_limit_is_sentinel_not_error() {
    let p = processor("img", "${RELEASE_VERSION}");
    match p.after_version(Err(AppError::RateLimited("GitHub(acme/web) API".to_string()))) {
        VersionStep::Finished(info) => {
            assert_eq!(info.container_image, "img");
            assert_eq!(info.image_tag, "<RATE_LIMITED>");
            assert!(info.error.is_none());
        },
        VersionStep::Proceed(_) => panic!("expected Finished"),
    }
}

#[test]
fn after_version_failure_is_recorded() {
    let p = processor("img", "${RELEASE_VERSION}");
    match p.after_version(Err(AppError::NotFound("No matching version for GitHub(acme/web)".to_string()))) {
        VersionStep::Finished(info) => {
            assert_eq!(info.image_tag, "<ERROR>");
            assert_eq!(
                info.error.unwrap(),
                "Failed to get version: Not found: No matching version for GitHub(acme/web)"
            );
        },
        VersionStep::Proceed(_) => panic!("expected Finished"),
    }
}

#[test]
fn after_validation_keeps_existing_tag() {
    let p = processor("img", "${RELEASE_VERSION}");
    let info = p.after_validation("3.4.0".to_string(), Ok(true));
    assert_eq!(info.container_image, "img");
    assert_eq!(info.image_tag, "3.4.0");
    assert!(info.error.is_none());
}

#[test]
fn after_validation_absence_is_not_found() {
    let p = processor("img", "${RELEASE_VERSION}");
    let info = p.after_validation("3.4.0".to_string(), Ok(false));
    assert_eq!(info.image_tag, "<NOT_FOUND>");
    assert!(info.error.is_none());
}

#[test]
fn after_validation_rate_limit_is_sentinel() {
    let p = processor("img", "${RELEASE_VERSION}");
    let info = p.after_validation("3.4.0".to_string(), Err(AppError::RateLimited("b".to_string())));
    assert_eq!(info.image_tag, "<RATE_LIMITED>");
    assert!(info.error.is_none());
}

#[test]
fn after_validation_failure_is_recorded() {
    let p = processor("img", "${RELEASE_VERSION}");
    let info = p.after_validation(
        "3.4.0".to_string(),
        Err(AppError::AuthenticationError("denied".to_string())),
    );
    assert_eq!(info.image_tag, "<ERROR>");
    assert_eq!(
        info.error.unwrap(),
        "Failed to validate image tag: Registry authentication failed: denied"
    );
}

#[test]
fn error_shaped_records() {
    let v = ServiceVersion::error("img".to_string(), "boom");
    assert_eq!(v.image, "img");
    assert_eq!(v.tag, "<ERROR>");
    assert_eq!(v.error.unwrap(), "boom");

    let i = ServiceInfo::error("img".to_string(), "boom");
    assert_eq!(i.container_image, "img");
    assert_eq!(i.image_tag, "<ERROR>");
    assert_eq!(i.error.unwrap(), "boom");
}

#[test]
fn decimal_rendering() {
    assert_eq!(u64_to_string(0), "0");
    assert_eq!(u64_to_string(7), "7");
    assert_eq!(u64_to_string(12345), "12345");
    assert_eq!(u64_to_string(u64::MAX), "18446744073709551615");
}

#[test]
fn substring_search() {
    assert!(contains_sub("registry.gitlab.com", "gitlab"));
    assert!(!contains_sub("ghcr.io", "gitlab"));
    assert_eq!(find_first("abcabc", "bc"), Some(1));
    assert_eq!(find_first("abc", "xyz"), None);
}

#[test]
fn replacement_uses_first_occurrence() {
    assert_eq!(replace_first("a-X-b-X", "X", "y"), "a-y-b-X");
    assert_eq!(replace_first("plain", "X", "y"), "plain");
}

#[test]
fn lexicographic_order() {
    assert!(str_le("alpha", "beta"));
    assert!(!str_le("beta", "alpha"));
    assert!(str_le("same", "same"));
    assert!(str_le("ab", "abc"));
}
