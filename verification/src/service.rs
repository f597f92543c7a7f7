//! Per-service orchestration: version resolution outcome, tag
//! substitution, registry validation outcome, and the conversion of
//! every failure into a result record.
//!
//! One service's processing never raises: each stage's failure becomes
//! either a sentinel tag (rate limiting, absent manifest) or an
//! error-shaped record, so a batch always completes with one record per
//! service.

use vstd::prelude::*;
use crate::config::ServiceConfig;
use crate::errors::AppError;
use crate::strutil::lemma_replace_absent;
use crate::strutil::replace_first;
use crate::strutil::spec_contains;
use crate::strutil::spec_replace_first;

verus! {

/// The result record of one service: the image, the resolved tag (or a
/// sentinel), and an optional error message.  Exactly one of a real tag
/// and an error is meaningful; both share this shape so that output
/// serialization never special-cases failures.
#[derive(Debug)]
pub struct ServiceInfo {
    pub container_image: String,
    pub image_tag: String,
    pub error: Option<String>,
}

impl ServiceInfo {
    /// An error-shaped record: the sentinel tag and a message.
    pub fn error(container_image: String, error: &str) -> (r: Self)
        ensures
            r.container_image == container_image,
            r.image_tag@ == "<ERROR>"@,
            r.error matches Some(e) && e@ == error@,
    {
        ServiceInfo {
            container_image,
            image_tag: "<ERROR>".to_owned(),
            error: Some(error.to_owned()),
        }
    }
}

/// What follows version resolution: go on with the resolved version, or
/// finish at once with a record.
pub enum VersionStep {
    /// The version resolved; substitution and validation follow.
    Proceed(String),
    /// Resolution failed; the record is final and validation is skipped.
    Finished(ServiceInfo),
}

/// Runs one service's pipeline as pure steps; the caller performs the
/// network exchanges between them.
pub struct ServiceProcessor {
    pub config: ServiceConfig,
}

impl ServiceProcessor {
    /// Wraps one service's configuration.
    pub fn new(config: ServiceConfig) -> (r: Self)
        ensures
            r.config == config,
    {
        ServiceProcessor { config }
    }

    /// Substitutes the resolved version into the tag template: the
    /// placeholder's first occurrence is replaced exactly once, and a
    /// template without the placeholder is left unchanged.
    pub fn substituted_tag(&self, version: &str) -> (r: String)
        ensures
            r@ == spec_replace_first(self.config.image.tag@, "${RELEASE_VERSION}"@, version@),
    {
        replace_first(self.config.image.tag.as_str(), "${RELEASE_VERSION}", version)
    }

    /// Decides what follows version resolution: a resolved version goes
    /// on to validation; rate limiting becomes the success-shaped
    /// `<RATE_LIMITED>` sentinel; any other failure becomes an
    /// error-shaped record, never an exception to the batch.
    pub fn after_version(&self, version_result: Result<String, AppError>) -> (r: VersionStep)
        ensures
            version_result matches Ok(v) ==> r == VersionStep::Proceed(v),
            version_result matches Err(e) ==> (if e.spec_is_rate_limited() {
                r matches VersionStep::Finished(info) && info.container_image
                    == self.config.image.name && info.image_tag@ == "<RATE_LIMITED>"@
                    && info.error is None
            } else {
                r matches VersionStep::Finished(info) && info.container_image
                    == self.config.image.name && info.image_tag@ == "<ERROR>"@ && (
                info.error matches Some(m) && m@ == "Failed to get version: "@
                    + e.spec_message())
            }),
    {
        match version_result {
            Ok(v) => VersionStep::Proceed(v),
            Err(e) => {
                if e.is_rate_limited() {
                    VersionStep::Finished(
                        ServiceInfo {
                            container_image: self.config.image.name.clone(),
                            image_tag: "<RATE_LIMITED>".to_owned(),
                            error: None,
                        },
                    )
                } else {
                    let mut m = "Failed to get version: ".to_owned();
                    let detail = e.message();
                    m.append(detail.as_str());
                    VersionStep::Finished(
                        ServiceInfo::error(self.config.image.name.clone(), m.as_str()),
                    )
                }
            },
        }
    }

    /// Decides the final record after registry validation: an existing
    /// manifest keeps the substituted tag; a definitive absence becomes
    /// `<NOT_FOUND>`; rate limiting becomes `<RATE_LIMITED>`; any other
    /// failure becomes an error-shaped record.
    pub fn after_validation(&self, image_tag: String, validate_result: Result<bool, AppError>) -> (r:
        ServiceInfo)
        ensures
            r.container_image == self.config.image.name,
            validate_result == Ok::<bool, AppError>(true) ==> r.image_tag == image_tag && r.error
                is None,
            validate_result == Ok::<bool, AppError>(false) ==> r.image_tag@ == "<NOT_FOUND>"@
                && r.error is None,
            validate_result matches Err(e) ==> (if e.spec_is_rate_limited() {
                r.image_tag@ == "<RATE_LIMITED>"@ && r.error is None
            } else {
                r.image_tag@ == "<ERROR>"@ && (r.error matches Some(m) && m@
                    == "Failed to validate image tag: "@ + e.spec_message())
            }),
    {
        match validate_result {
            Ok(true) => ServiceInfo {
                container_image: self.config.image.name.clone(),
                image_tag,
                error: None,
            },
            Ok(false) => ServiceInfo {
                container_image: self.config.image.name.clone(),
                image_tag: "<NOT_FOUND>".to_owned(),
                error: None,
            },
            Err(e) => {
                if e.is_rate_limited() {
                    ServiceInfo {
                        container_image: self.config.image.name.clone(),
                        image_tag: "<RATE_LIMITED>".to_owned(),
                        error: None,
                    }
                } else {
                    let mut m = "Failed to validate image tag: ".to_owned();
                    let detail = e.message();
                    m.append(detail.as_str());
                    ServiceInfo::error(self.config.image.name.clone(), m.as_str())
                }
            },
        }
    }
}

/// Tag substitution is a no-op on a string without the placeholder; in
/// particular, substituting again into an already substituted tag that
/// holds no further placeholder changes nothing.
pub proof fn lemma_substitution_noop(s: Seq<char>, version: Seq<char>)
    requires
        !spec_contains(s, "${RELEASE_VERSION}"@),
    ensures
        spec_replace_first(s, "${RELEASE_VERSION}"@, version) == s,
{
    lemma_replace_absent(s, "${RELEASE_VERSION}"@, version);
}

} // verus!
