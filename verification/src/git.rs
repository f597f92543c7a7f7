//! Provider dispatch and release-version extraction.
//!
//! A [`GitConfig`] names an upstream source (GitHub, GitLab or Codeberg),
//! a repository identifier, and a version filter.  The functions here
//! validate such a descriptor, build the provider's "latest release"
//! request, and turn the provider's response into a version string or a
//! structured failure.  The caller performs the HTTP exchange and feeds
//! the status and body back in.

use vstd::prelude::*;
use crate::errors::AppError;
use crate::strutil::spec_u64_digits;
use crate::strutil::u64_to_string;

verus! {

/// The user agent sent with every request of this tool.
pub fn user_agent() -> (r: &'static str)
    ensures
        r@ == "version-updater"@,
{
    "version-updater"
}

/// The default version filter: one capture group taking the whole tag.
pub fn default_version_filter() -> (r: String)
    ensures
        r@ == "(.*)"@,
{
    "(.*)".to_owned()
}

/// A source-control hosting service with a "latest release" API, or no
/// upstream tracking at all.
#[derive(Clone, Copy, Debug, PartialEq, Eq, Structural)]
pub enum Provider {
    Github,
    Gitlab,
    Codeberg,
    NoUpstream,
}

/// The source descriptor of one service.
#[derive(Debug)]
pub struct GitConfig {
    /// Repository slug, e.g. `owner/name`.
    pub repo: String,
    /// Which provider hosts the repository.
    pub git_type: Provider,
    /// Numeric project id; required exactly when the provider is GitLab.
    pub project_id: Option<u64>,
    /// Version filter with one capture group, applied to the release tag.
    pub filter: String,
    /// Whether the repository needs an access token.
    pub private: bool,
    /// Whether process-wide GitHub authentication was requested.
    pub global_github_auth: bool,
}

/// Whether the pattern is a valid version-filter expression.
pub uninterp spec fn regex_valid(pattern: Seq<char>) -> bool;

/// The first capture group of the pattern's first match in the text,
/// if the pattern matches and has such a group.
pub uninterp spec fn capture_one(pattern: Seq<char>, text: Seq<char>) -> Option<Seq<char>>;

/// Relies on `regex::Regex::new`: whether a pattern compiles depends on
/// the pattern text alone.
#[verifier::external_body]
pub(crate) fn regex_check(pattern: &str) -> (r: bool)
    ensures
        r == regex_valid(pattern@),
{
    regex::Regex::new(pattern).is_ok()
}

/// Relies on `regex::Regex::captures`: the first match and its first
/// capture group depend on the pattern and the text alone.
#[verifier::external_body]
pub(crate) fn regex_capture_first(pattern: &str, text: &str) -> (r: Option<String>)
    requires
        regex_valid(pattern@),
    ensures
        r.deep_view() == capture_one(pattern@, text@),
{
    let re = regex::Regex::new(pattern).unwrap();
    re.captures(text).and_then(|c| c.get(1)).map(|m| m.as_str().to_string())
}

/// Availability of the provider access tokens in the environment,
/// handed in by the caller so that no function here reads the process
/// environment itself.
pub struct TokenAvailability {
    pub github: bool,
    pub gitlab: bool,
    pub codeberg: bool,
}

impl GitConfig {
    /// A GitLab descriptor must carry a numeric project id.
    pub open spec fn spec_missing_project_id(&self) -> bool {
        self.git_type == Provider::Gitlab && self.project_id is None
    }

    /// The descriptor's shape admits building a provider request.
    pub open spec fn spec_valid_shape(&self) -> bool {
        !self.spec_missing_project_id()
    }

    /// Whether a provider token is attached: for a private repository,
    /// or for GitHub when process-wide authentication was requested.
    pub open spec fn spec_wants_token(&self) -> bool {
        self.private || (self.git_type == Provider::Github && self.global_github_auth)
    }

    /// The wanted token is not available in the environment.
    pub open spec fn spec_token_missing(&self, tokens: &TokenAvailability) -> bool {
        self.spec_wants_token() && match self.git_type {
            Provider::Github => !tokens.github,
            Provider::Gitlab => !tokens.gitlab,
            Provider::Codeberg => !tokens.codeberg,
            Provider::NoUpstream => false,
        }
    }

    /// All configuration-time checks pass.
    pub open spec fn spec_validate_ok(&self, tokens: &TokenAvailability) -> bool {
        &&& !self.spec_missing_project_id()
        &&& regex_valid(self.filter@)
        &&& !self.spec_token_missing(tokens)
    }

    /// Returns the descriptor with process-wide GitHub authentication set.
    pub fn with_global_github_auth(self, auth: bool) -> (r: Self)
        ensures
            r.repo == self.repo,
            r.git_type == self.git_type,
            r.project_id == self.project_id,
            r.filter == self.filter,
            r.private == self.private,
            r.global_github_auth == auth,
    {
        GitConfig { global_github_auth: auth, ..self }
    }

    /// The error that an invalid descriptor is rejected with, in
    /// precedence order: the missing project id, then the filter, then
    /// the missing token.
    pub open spec fn spec_validate_error(&self, tokens: &TokenAvailability) -> AppError {
        if self.spec_missing_project_id() {
            AppError::MissingGitlabProjectId
        } else if !regex_valid(self.filter@) {
            AppError::InvalidVersionFilter(self.filter)
        } else {
            match self.git_type {
                Provider::Github => AppError::MissingGithubToken,
                Provider::Gitlab => AppError::MissingGitlabToken,
                _ => AppError::MissingCodebergToken,
            }
        }
    }

    /// Checks the descriptor before any network call: a GitLab source
    /// must have a project id, the version filter must compile, and a
    /// wanted provider token must be present in the environment.
    pub fn validate(&self, tokens: &TokenAvailability) -> (r: Result<(), AppError>)
        ensures
            r is Ok <==> self.spec_validate_ok(tokens),
            !self.spec_validate_ok(tokens) ==> r == Err::<(), AppError>(
                self.spec_validate_error(tokens),
            ),
    {
        if matches!(self.git_type, Provider::Gitlab) && self.project_id.is_none() {
            return Err(AppError::MissingGitlabProjectId);
        }
        if !regex_check(self.filter.as_str()) {
            return Err(AppError::InvalidVersionFilter(self.filter.clone()));
        }
        if self.private || (matches!(self.git_type, Provider::Github) && self.global_github_auth) {
            match self.git_type {
                Provider::Github => {
                    if !tokens.github {
                        return Err(AppError::MissingGithubToken);
                    }
                },
                Provider::Gitlab => {
                    if !tokens.gitlab {
                        return Err(AppError::MissingGitlabToken);
                    }
                },
                Provider::Codeberg => {
                    if !tokens.codeberg {
                        return Err(AppError::MissingCodebergToken);
                    }
                },
                Provider::NoUpstream => {},
            }
        }
        Ok(())
    }
}

/// A descriptor that passed validation can always reach version
/// resolution: in particular, a GitLab descriptor without a project id
/// is rejected at configuration time and never handed to the resolver.
pub proof fn lemma_validated_reaches_resolver(c: GitConfig, tokens: &TokenAvailability)
    requires
        c.spec_validate_ok(tokens),
    ensures
        c.spec_valid_shape(),
        c.git_type == Provider::Gitlab ==> c.project_id is Some,
{
}

/// The provider request that a descriptor gives rise to.
pub enum ApiType {
    Github { repo: String },
    Codeberg { repo: String },
    Gitlab { project_id: u64 },
}

impl ApiType {
    /// The provider's "latest release" endpoint for this request.
    pub open spec fn spec_url(&self) -> Seq<char> {
        match self {
            ApiType::Github { repo } => "https://api.github.com/repos/"@ + repo@
                + "/releases/latest"@,
            ApiType::Codeberg { repo } => "https://codeberg.org/api/v1/repos/"@ + repo@
                + "/releases/latest"@,
            ApiType::Gitlab { project_id } => "https://gitlab.com/api/v4/projects/"@
                + spec_u64_digits(*project_id as nat) + "/releases/permalink/latest"@,
        }
    }

    /// The header carrying a token: a bearer header, except GitLab's
    /// private-token header.
    pub open spec fn spec_auth_header(&self, token: Seq<char>) -> (Seq<char>, Seq<char>) {
        match self {
            ApiType::Gitlab { .. } => ("PRIVATE-TOKEN"@, token),
            _ => ("Authorization"@, "Bearer "@ + token),
        }
    }

    /// The scope shown in failure messages, e.g. `GitHub(owner/name)`.
    pub open spec fn spec_label(&self) -> Seq<char> {
        match self {
            ApiType::Github { repo } => "GitHub("@ + repo@ + ")"@,
            ApiType::Codeberg { repo } => "Codeberg("@ + repo@ + ")"@,
            ApiType::Gitlab { project_id } => "GitLab("@ + spec_u64_digits(*project_id as nat)
                + ")"@,
        }
    }

    /// Builds the request URL and, where a token is given, the header
    /// that carries it.
    pub fn get_request_details(&self, token: Option<String>) -> (r: (
        String,
        Option<(String, String)>,
    ))
        ensures
            r.0@ == self.spec_url(),
            token is None ==> r.1 is None,
            token is Some ==> match r.1 {
                Some(h) => (h.0@, h.1@) == self.spec_auth_header(token->0@),
                None => false,
            },
    {
        let url = match self {
            ApiType::Github { repo } => {
                let mut u = "https://api.github.com/repos/".to_owned();
                u.append(repo.as_str());
                u.append("/releases/latest");
                u
            },
            ApiType::Codeberg { repo } => {
                let mut u = "https://codeberg.org/api/v1/repos/".to_owned();
                u.append(repo.as_str());
                u.append("/releases/latest");
                u
            },
            ApiType::Gitlab { project_id } => {
                let mut u = "https://gitlab.com/api/v4/projects/".to_owned();
                let digits = u64_to_string(*project_id);
                u.append(digits.as_str());
                u.append("/releases/permalink/latest");
                u
            },
        };
        let header = match token {
            Some(t) => match self {
                ApiType::Gitlab { .. } => Some(("PRIVATE-TOKEN".to_owned(), t)),
                _ => {
                    let mut v = "Bearer ".to_owned();
                    v.append(t.as_str());
                    Some(("Authorization".to_owned(), v))
                },
            },
            None => None,
        };
        (url, header)
    }

    /// Renders the failure-message scope of this request.
    pub fn label(&self) -> (r: String)
        ensures
            r@ == self.spec_label(),
    {
        match self {
            ApiType::Github { repo } => {
                let mut r = "GitHub(".to_owned();
                r.append(repo.as_str());
                r.append(")");
                r
            },
            ApiType::Codeberg { repo } => {
                let mut r = "Codeberg(".to_owned();
                r.append(repo.as_str());
                r.append(")");
                r
            },
            ApiType::Gitlab { project_id } => {
                let mut r = "GitLab(".to_owned();
                let digits = u64_to_string(*project_id);
                r.append(digits.as_str());
                r.append(")");
                r
            },
        }
    }
}

/// Resolves the latest release version for a source descriptor, one pure
/// step at a time; the caller performs the single HTTP exchange.
pub struct GitClient;

impl GitClient {
    /// Which environment variable would supply the provider token, where
    /// one is attached at all: for a private repository, or for GitHub
    /// when process-wide authentication was requested.
    pub fn token_env_var(config: &GitConfig) -> (r: Option<&'static str>)
        ensures
            match config.git_type {
                Provider::Github => if config.spec_wants_token() {
                    r is Some && r->0@ == "GITHUB_TOKEN"@
                } else {
                    r is None
                },
                Provider::Gitlab => if config.private {
                    r is Some && r->0@ == "GITLAB_TOKEN"@
                } else {
                    r is None
                },
                Provider::Codeberg => if config.private {
                    r is Some && r->0@ == "CODEBERG_TOKEN"@
                } else {
                    r is None
                },
                Provider::NoUpstream => r is None,
            },
    {
        match config.git_type {
            Provider::Github => {
                if config.private || config.global_github_auth {
                    Some("GITHUB_TOKEN")
                } else {
                    None
                }
            },
            Provider::Gitlab => {
                if config.private {
                    Some("GITLAB_TOKEN")
                } else {
                    None
                }
            },
            Provider::Codeberg => {
                if config.private {
                    Some("CODEBERG_TOKEN")
                } else {
                    None
                }
            },
            Provider::NoUpstream => None,
        }
    }

    /// The provider request of a descriptor; `None` exactly for a service
    /// without upstream tracking, whose version is the empty string and
    /// which gets no network call.
    pub fn api_type(config: &GitConfig) -> (r: Option<ApiType>)
        requires
            config.spec_valid_shape(),
        ensures
            match config.git_type {
                Provider::Github => r == Some(ApiType::Github { repo: config.repo }),
                Provider::Codeberg => r == Some(ApiType::Codeberg { repo: config.repo }),
                Provider::Gitlab => r == Some(
                    ApiType::Gitlab { project_id: config.project_id->0 },
                ),
                Provider::NoUpstream => r is None,
            },
    {
        match config.git_type {
            Provider::Github => Some(ApiType::Github { repo: config.repo.clone() }),
            Provider::Codeberg => Some(ApiType::Codeberg { repo: config.repo.clone() }),
            Provider::Gitlab => {
                match config.project_id {
                    Some(id) => Some(ApiType::Gitlab { project_id: id }),
                    None => vstd::pervasive::unreached(),
                }
            },
            Provider::NoUpstream => None,
        }
    }
}

/// What a release response body holds: `None` where the body is not a
/// JSON document; otherwise the `tag_name` string field, if present.
pub uninterp spec fn release_tag_of(body: Seq<char>) -> Option<Option<Seq<char>>>;

/// Relies on `serde_json::from_str` and `serde_json::Value::as_str`: the
/// parse of a JSON document and its `tag_name` string field depend on the
/// text alone.
#[verifier::external_body]
pub(crate) fn parse_release_tag(body: &str) -> (r: Option<Option<String>>)
    ensures
        r.deep_view() == release_tag_of(body@),
{
    match serde_json::from_str::<serde_json::Value>(body) {
        Ok(v) => match v.get("tag_name").and_then(|t| t.as_str()) {
            Some(s) => Some(Some(s.to_string())),
            None => Some(None),
        },
        Err(_) => None,
    }
}

/// The release tag to filter: the `tag_name` field where present, else
/// the empty string, which is not an error by itself.
pub open spec fn spec_tag_or_empty(t: Option<Seq<char>>) -> Seq<char> {
    match t {
        Some(s) => s,
        None => Seq::empty(),
    }
}

/// Turns a provider's "latest release" response into a version string:
/// 429 and 403 are rate limiting, any other non-2xx status is a provider
/// failure, and a 2xx body yields the `tag_name` field (empty where
/// absent) filtered through the version pattern's first capture group.
///
/// An invalid filter is normally rejected at configuration time; it is
/// re-checked here so that no input can panic inside the filter engine.
pub fn interpret_release_response(api: &ApiType, filter: &str, status: u16, body: &str) -> (r:
    Result<String, AppError>)
    ensures
        status == 429 || status == 403 ==> (r matches Err(AppError::RateLimited(m)) && m@
            == api.spec_label() + " API"@),
        !(status == 429 || status == 403) && !(200 <= status <= 299) ==> (r matches Err(
            AppError::ProviderError(m),
        ) && m@ == "unexpected status code "@ + spec_u64_digits(status as nat)),
        !(status == 429 || status == 403) && 200 <= status <= 299 && !regex_valid(filter@) ==> (
        r matches Err(AppError::InvalidVersionFilter(f)) && f@ == filter@),
        !(status == 429 || status == 403) && 200 <= status <= 299 && regex_valid(filter@)
            && release_tag_of(body@) is None ==> (r matches Err(AppError::ProviderError(m)) && m@
            == "failed to parse release response"@),
        !(status == 429 || status == 403) && 200 <= status <= 299 && regex_valid(filter@) && (
        release_tag_of(body@) matches Some(t)) ==> (match capture_one(
            filter@,
            spec_tag_or_empty(release_tag_of(body@)->0),
        ) {
            Some(v) => if v.len() > 0 {
                r is Ok && r->Ok_0@ == v
            } else {
                r matches Err(AppError::NotFound(m)) && m@ == "No matching version for "@
                    + api.spec_label()
            },
            None => r matches Err(AppError::NotFound(m)) && m@ == "No matching version for "@
                + api.spec_label(),
        }),
{
    if status == 429 || status == 403 {
        let mut m = api.label();
        m.append(" API");
        return Err(AppError::RateLimited(m));
    }
    if !(200 <= status && status <= 299) {
        let mut m = "unexpected status code ".to_owned();
        let digits = u64_to_string(status as u64);
        m.append(digits.as_str());
        return Err(AppError::ProviderError(m));
    }
    if !regex_check(filter) {
        return Err(AppError::InvalidVersionFilter(filter.to_owned()));
    }
    let label = api.label();
    match parse_release_tag(body) {
        None => Err(AppError::ProviderError("failed to parse release response".to_owned())),
        Some(tag) => {
            let tag_name = match tag {
                Some(t) => t,
                None => {
                    proof {
                        reveal_strlit("");
                        assert(""@ =~= Seq::<char>::empty());
                    }
                    "".to_owned()
                },
            };
            extract_version(tag_name.as_str(), filter, label.as_str())
        },
    }
}

/// Applies the version filter to a release tag name.
pub fn extract_version(tag_name: &str, filter: &str, label: &str) -> (r: Result<String, AppError>)
    requires
        regex_valid(filter@),
    ensures
        match capture_one(filter@, tag_name@) {
            Some(v) => if v.len() > 0 {
                r is Ok && r->Ok_0@ == v
            } else {
                r matches Err(AppError::NotFound(m)) && m@ == "No matching version for "@ + label@
            },
            None => r matches Err(AppError::NotFound(m)) && m@ == "No matching version for "@
                + label@,
        },
{
    let version = match regex_capture_first(filter, tag_name) {
        Some(v) => v,
        None => String::new(),
    };
    if version.as_str().unicode_len() == 0 {
        let mut m = "No matching version for ".to_owned();
        m.append(label);
        Err(AppError::NotFound(m))
    } else {
        Ok(version)
    }
}

} // verus!
