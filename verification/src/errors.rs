//! The failure taxonomy shared by the resolution and validation pipeline.

use vstd::prelude::*;
use crate::strutil::spec_u64_digits;
use crate::strutil::u64_to_string;

verus! {

/// Everything that can go wrong while resolving a version or validating a
/// tag.  Configuration-shape errors (the `Missing*` variants and an invalid
/// version filter) are meant to abort a run before any network call; the
/// rest are recovered per service into a result record.
#[derive(Debug)]
pub enum AppError {
    /// No release tag matched the version filter.
    NotFound(String),
    /// The configuration file could not be read.
    FileRead(String),
    /// The configuration file could not be parsed.
    ParseYaml(String),
    /// A GitLab source without a numeric project id.
    MissingGitlabProjectId,
    /// A private or globally authenticated GitHub source without `GITHUB_TOKEN`.
    MissingGithubToken,
    /// A private GitLab source without `GITLAB_TOKEN`.
    MissingGitlabToken,
    /// A private Codeberg source without `CODEBERG_TOKEN`.
    MissingCodebergToken,
    /// A version filter that is not a valid pattern.
    InvalidVersionFilter(String),
    /// The local credential store could not be used.
    CredentialsError(String),
    /// The registry token exchange failed.
    AuthenticationError(String),
    /// The provider returned a response that is not a release.
    ProviderError(String),
    /// The registry answered a manifest request with an unexpected status.
    RequestError(u16, String),
    /// A provider or registry endpoint signalled rate limiting.
    RateLimited(String),
    /// No manifest exists for the requested tag.
    ImageNotFound(String),
    /// The registry's token response held no token.
    InvalidResponse(String),
}

impl AppError {
    /// The human-readable message of this error.
    pub open spec fn spec_message(&self) -> Seq<char> {
        match self {
            AppError::NotFound(s) => "Not found: "@ + s@,
            AppError::FileRead(s) => "Failed to read config file: "@ + s@,
            AppError::ParseYaml(s) => "Failed to parse config file: "@ + s@,
            AppError::MissingGitlabProjectId => "Missing project ID for GitLab repository"@,
            AppError::MissingGithubToken => "Missing GitHub token for private repository or global auth"@,
            AppError::MissingGitlabToken => "Missing GitLab token for private repository"@,
            AppError::MissingCodebergToken => "Missing Codeberg token for private repository"@,
            AppError::InvalidVersionFilter(s) => "Invalid version filter: "@ + s@,
            AppError::CredentialsError(s) => "Failed to read Docker credentials: "@ + s@,
            AppError::AuthenticationError(s) => "Registry authentication failed: "@ + s@,
            AppError::ProviderError(s) => "Provider request failed: "@ + s@,
            AppError::RequestError(status, body) => "Registry request failed: unexpected status code "@
                + spec_u64_digits(*status as nat) + " with body: "@ + body@,
            AppError::RateLimited(s) => "Rate limited: "@ + s@,
            AppError::ImageNotFound(s) => "Image not found: "@ + s@,
            AppError::InvalidResponse(s) => "Invalid registry response: "@ + s@,
        }
    }

    /// Renders the error as text.
    pub fn message(&self) -> (r: String)
        ensures
            r@ == self.spec_message(),
    {
        match self {
            AppError::NotFound(s) => {
                let mut r = "Not found: ".to_owned();
                r.append(s.as_str());
                r
            },
            AppError::FileRead(s) => {
                let mut r = "Failed to read config file: ".to_owned();
                r.append(s.as_str());
                r
            },
            AppError::ParseYaml(s) => {
                let mut r = "Failed to parse config file: ".to_owned();
                r.append(s.as_str());
                r
            },
            AppError::MissingGitlabProjectId => "Missing project ID for GitLab repository".to_owned(),
            AppError::MissingGithubToken => "Missing GitHub token for private repository or global auth".to_owned(),
            AppError::MissingGitlabToken => "Missing GitLab token for private repository".to_owned(),
            AppError::MissingCodebergToken => "Missing Codeberg token for private repository".to_owned(),
            AppError::InvalidVersionFilter(s) => {
                let mut r = "Invalid version filter: ".to_owned();
                r.append(s.as_str());
                r
            },
            AppError::CredentialsError(s) => {
                let mut r = "Failed to read Docker credentials: ".to_owned();
                r.append(s.as_str());
                r
            },
            AppError::AuthenticationError(s) => {
                let mut r = "Registry authentication failed: ".to_owned();
                r.append(s.as_str());
                r
            },
            AppError::ProviderError(s) => {
                let mut r = "Provider request failed: ".to_owned();
                r.append(s.as_str());
                r
            },
            AppError::RequestError(status, body) => {
                let mut r = "Registry request failed: unexpected status code ".to_owned();
                let digits = u64_to_string(*status as u64);
                r.append(digits.as_str());
                r.append(" with body: ");
                r.append(body.as_str());
                proof {
                    assert(r@ =~= self.spec_message());
                }
                r
            },
            AppError::RateLimited(s) => {
                let mut r = "Rate limited: ".to_owned();
                r.append(s.as_str());
                r
            },
            AppError::ImageNotFound(s) => {
                let mut r = "Image not found: ".to_owned();
                r.append(s.as_str());
                r
            },
            AppError::InvalidResponse(s) => {
                let mut r = "Invalid registry response: ".to_owned();
                r.append(s.as_str());
                r
            },
        }
    }

    /// Whether this error reports rate limiting.
    pub open spec fn spec_is_rate_limited(&self) -> bool {
        matches!(self, AppError::RateLimited(_))
    }

    /// Tells a rate-limiting error apart from the rest.
    pub fn is_rate_limited(&self) -> (r: bool)
        ensures
            r == self.spec_is_rate_limited(),
    {
        matches!(self, AppError::RateLimited(_))
    }
}

} // verus!
