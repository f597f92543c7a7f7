//! Registry-side logic: image-name splitting, authentication-scheme
//! selection, pull-token exchange planning, credential decoding, and the
//! content-negotiated manifest existence check.
//!
//! Everything here is pure decision logic over plain values; the caller
//! performs the HTTP exchanges and feeds statuses and bodies back in.

use vstd::prelude::*;
use base64::Engine;
use crate::errors::AppError;
use crate::strutil::find_char;
use crate::strutil::spec_find_char;
use crate::strutil::spec_has_char;

verus! {

/// An image name split into its registry host and repository path.
#[derive(Debug)]
pub struct ImageParts {
    pub registry: String,
    pub image_path: String,
}

/// The image of one service: a name (which may embed a registry host)
/// and a tag template.
#[derive(Debug)]
pub struct ImageConfig {
    pub name: String,
    pub tag: String,
}

/// An ASCII letter.
pub open spec fn spec_is_alpha(c: char) -> bool {
    (97 <= c as u32 <= 122) || (65 <= c as u32 <= 90)
}

/// An ASCII digit.
pub open spec fn spec_is_digit(c: char) -> bool {
    48 <= c as u32 <= 57
}

/// An ASCII letter or digit.
pub open spec fn spec_is_alnum(c: char) -> bool {
    spec_is_alpha(c) || spec_is_digit(c)
}

/// A character allowed inside a host name: letters, digits, `-` and `.`.
pub open spec fn spec_is_host_char(c: char) -> bool {
    spec_is_alnum(c) || c == '-' || c == '.'
}

fn is_alpha_c(c: char) -> (r: bool)
    ensures
        r == spec_is_alpha(c),
{
    let u = c as u32;
    (97 <= u && u <= 122) || (65 <= u && u <= 90)
}

fn is_digit_c(c: char) -> (r: bool)
    ensures
        r == spec_is_digit(c),
{
    let u = c as u32;
    48 <= u && u <= 57
}

fn is_alnum_c(c: char) -> (r: bool)
    ensures
        r == spec_is_alnum(c),
{
    is_alpha_c(c) || is_digit_c(c)
}

fn is_host_char_c(c: char) -> (r: bool)
    ensures
        r == spec_is_host_char(c),
{
    is_alnum_c(c) || c == '-' || c == '.'
}

/// Position `d` splits `q` as host name: a dot followed only by at least
/// two letters, with host characters before it.
pub open spec fn spec_fqdn_dot_at(q: Seq<char>, d: int) -> bool {
    &&& 1 <= d
    &&& d + 3 <= q.len()
    &&& q[d] == '.'
    &&& forall|j: int| 1 <= j < d ==> spec_is_host_char(q[j])
    &&& forall|j: int| d < j < q.len() ==> spec_is_alpha(q[j])
}

/// `q` is a fully qualified host name: a letter or digit, host
/// characters, then a dot and a final label of at least two letters.
pub open spec fn spec_is_fqdn(q: Seq<char>) -> bool {
    (exists|d: int| spec_fqdn_dot_at(q, d)) && spec_is_alnum(q[0])
}

/// Any split position must sit just before the maximal run of trailing
/// letters.
proof fn lemma_fqdn_witness(q: Seq<char>, t: int, d: int)
    requires
        0 <= t < q.len(),
        forall|j: int| q.len() - t <= j < q.len() ==> spec_is_alpha(q[j]),
        !spec_is_alpha(q[q.len() - 1 - t]),
        spec_fqdn_dot_at(q, d),
    ensures
        d == q.len() - 1 - t,
{
    if d < q.len() - 1 - t {
        assert(spec_is_alpha(q[q.len() - 1 - t]));
    }
    if d > q.len() - 1 - t {
        assert(spec_is_alpha(q[d]));
        assert(q[d] == '.');
    }
}

/// Recognizes a fully qualified host name.
fn is_fqdn(q: &str) -> (r: bool)
    ensures
        r == spec_is_fqdn(q@),
{
    let ql = q.unicode_len();
    if ql < 4 {
        proof {
            assert forall|d: int| !spec_fqdn_dot_at(q@, d) by {}
        }
        return false;
    }
    // Count the maximal run of trailing letters.
    let mut t: usize = 0;
    while t < ql && is_alpha_c(q.get_char(ql - 1 - t))
        invariant
            ql == q@.len(),
            4 <= ql,
            t <= ql,
            forall|j: int| ql - t <= j < ql ==> spec_is_alpha(q@[j]),
        decreases ql - t,
    {
        t = t + 1;
    }
    if t == ql {
        proof {
            assert forall|d: int| !spec_fqdn_dot_at(q@, d) by {
                if spec_fqdn_dot_at(q@, d) {
                    assert(spec_is_alpha(q@[d]));
                }
            }
        }
        return false;
    }
    if t < 2 {
        proof {
            assert forall|d: int| !spec_fqdn_dot_at(q@, d) by {
                if spec_fqdn_dot_at(q@, d) {
                    lemma_fqdn_witness(q@, t as int, d);
                }
            }
        }
        return false;
    }
    let d = ql - 1 - t;
    if d < 1 {
        proof {
            assert forall|dd: int| !spec_fqdn_dot_at(q@, dd) by {
                if spec_fqdn_dot_at(q@, dd) {
                    lemma_fqdn_witness(q@, t as int, dd);
                }
            }
        }
        return false;
    }
    if q.get_char(d) != '.' {
        proof {
            assert forall|dd: int| !spec_fqdn_dot_at(q@, dd) by {
                if spec_fqdn_dot_at(q@, dd) {
                    lemma_fqdn_witness(q@, t as int, dd);
                }
            }
        }
        return false;
    }
    if !is_alnum_c(q.get_char(0)) {
        return false;
    }
    let mut j: usize = 1;
    while j < d
        invariant
            ql == q@.len(),
            1 <= d < ql,
            1 <= j <= d,
            forall|k: int| 1 <= k < j ==> spec_is_host_char(q@[k]),
        decreases d - j,
    {
        if !is_host_char_c(q.get_char(j)) {
            proof {
                assert forall|dd: int| !spec_fqdn_dot_at(q@, dd) by {
                    if spec_fqdn_dot_at(q@, dd) {
                        lemma_fqdn_witness(q@, t as int, dd);
                    }
                }
            }
            return false;
        }
        j = j + 1;
    }
    proof {
        assert(spec_fqdn_dot_at(q@, d as int));
    }
    true
}

/// The registry prefix of an image name: a host name, optionally
/// followed by a colon and a port of at least one digit.
pub open spec fn spec_prefix_matches(p: Seq<char>) -> bool {
    let ci = spec_find_char(p, ':');
    if ci < 0 {
        spec_is_fqdn(p)
    } else {
        &&& spec_is_fqdn(p.subrange(0, ci))
        &&& ci + 1 < p.len()
        &&& forall|j: int| ci < j < p.len() ==> spec_is_digit(p[j])
    }
}

/// Recognizes a registry prefix.
fn prefix_matches(p: &str) -> (r: bool)
    ensures
        r == spec_prefix_matches(p@),
{
    let pl = p.unicode_len();
    match find_char(p, ':') {
        None => is_fqdn(p),
        Some(ci) => {
            let host = p.substring_char(0, ci);
            if !is_fqdn(host) {
                return false;
            }
            if !(ci + 1 < pl) {
                return false;
            }
            let mut j: usize = ci + 1;
            while j < pl
                invariant
                    pl == p@.len(),
                    ci == spec_find_char(p@, ':'),
                    0 <= ci,
                    ci < j <= pl,
                    forall|k: int| ci < k < j ==> spec_is_digit(p@[k]),
                decreases pl - j,
            {
                if !is_digit_c(p.get_char(j)) {
                    return false;
                }
                j = j + 1;
            }
            true
        },
    }
}

/// The image name splits at its first slash into a registry prefix and
/// a non-empty repository path.
pub open spec fn spec_split_ok(s: Seq<char>) -> bool {
    let k = spec_find_char(s, '/');
    k >= 1 && k + 1 < s.len() && spec_prefix_matches(s.subrange(0, k))
}

/// The registry host of an image name: the prefix before the first
/// slash, without any port; Docker Hub where the name embeds no host.
pub open spec fn spec_registry_of(s: Seq<char>) -> Seq<char> {
    if spec_split_ok(s) {
        let p = s.subrange(0, spec_find_char(s, '/'));
        let ci = spec_find_char(p, ':');
        if ci >= 0 {
            p.subrange(0, ci)
        } else {
            p
        }
    } else {
        "registry.hub.docker.com"@
    }
}

/// A repository path, with the `library/` prefix added for an official
/// image named without one.
pub open spec fn spec_with_library(x: Seq<char>) -> Seq<char> {
    if spec_has_char(x, '/') {
        x
    } else {
        "library/"@ + x
    }
}

/// The repository path of an image name.
pub open spec fn spec_path_of(s: Seq<char>) -> Seq<char> {
    if spec_split_ok(s) {
        spec_with_library(s.subrange(spec_find_char(s, '/') + 1, s.len() as int))
    } else {
        spec_with_library(s)
    }
}

/// Adds the `library/` prefix where the path holds no slash.
fn with_library(x: &str) -> (r: String)
    ensures
        r@ == spec_with_library(x@),
{
    match find_char(x, '/') {
        Some(_) => x.to_owned(),
        None => {
            let mut r = "library/".to_owned();
            r.append(x);
            r
        },
    }
}

/// Splits an image name into registry host and repository path: a
/// leading host-and-port prefix before the first slash names the
/// registry (the port is dropped); otherwise the name is a Docker Hub
/// path, with `library/` prepended for an official image.
pub fn extract_registry(full_image_name: &str) -> (r: ImageParts)
    ensures
        r.registry@ == spec_registry_of(full_image_name@),
        r.image_path@ == spec_path_of(full_image_name@),
{
    let sl = full_image_name.unicode_len();
    match find_char(full_image_name, '/') {
        Some(k) => {
            if 1 <= k && k + 1 < sl {
                let prefix = full_image_name.substring_char(0, k);
                if prefix_matches(prefix) {
                    let host = match find_char(prefix, ':') {
                        Some(ci) => prefix.substring_char(0, ci).to_owned(),
                        None => prefix.to_owned(),
                    };
                    let rest = full_image_name.substring_char(k + 1, sl);
                    ImageParts { registry: host, image_path: with_library(rest) }
                } else {
                    ImageParts {
                        registry: "registry.hub.docker.com".to_owned(),
                        image_path: with_library(full_image_name),
                    }
                }
            } else {
                ImageParts {
                    registry: "registry.hub.docker.com".to_owned(),
                    image_path: with_library(full_image_name),
                }
            }
        },
        None => {
            ImageParts {
                registry: "registry.hub.docker.com".to_owned(),
                image_path: with_library(full_image_name),
            }
        },
    }
}

/// One validation target: a registry host and a repository path, split
/// out of a full image name.
pub struct RegistryClient {
    pub registry: String,
    pub image_path: String,
}

impl RegistryClient {
    /// Splits the full image name into registry host and repository path.
    pub fn new(full_image_name: &str) -> (r: Self)
        ensures
            r.registry@ == spec_registry_of(full_image_name@),
            r.image_path@ == spec_path_of(full_image_name@),
    {
        let parts = extract_registry(full_image_name);
        RegistryClient { registry: parts.registry, image_path: parts.image_path }
    }

    /// The manifest endpoint for one tag of this image.
    pub fn manifest_url(&self, tag: &str) -> (r: String)
        ensures
            r@ == "https://"@ + self.registry@ + "/v2/"@ + self.image_path@ + "/manifests/"@
                + tag@,
    {
        let mut r = "https://".to_owned();
        r.append(self.registry.as_str());
        r.append("/v2/");
        r.append(self.image_path.as_str());
        r.append("/manifests/");
        r.append(tag);
        proof {
            assert(r@ =~= "https://"@ + self.registry@ + "/v2/"@ + self.image_path@
                + "/manifests/"@ + tag@);
        }
        r
    }
}

/// A registry's token-exchange scheme: the token endpoint, the service
/// name, and the extra client id that GitLab wants.
pub enum RegistryAuth {
    Standard { auth_url: String, service: String, client_id: Option<String> },
}

impl RegistryAuth {
    /// The scheme's token endpoint.
    pub open spec fn spec_auth_url(&self) -> Seq<char> {
        match self {
            RegistryAuth::Standard { auth_url, .. } => auth_url@,
        }
    }

    /// The scheme's service name.
    pub open spec fn spec_service(&self) -> Seq<char> {
        match self {
            RegistryAuth::Standard { service, .. } => service@,
        }
    }

    /// The scheme's client id, where one is sent.
    pub open spec fn spec_client_id(&self) -> Option<Seq<char>> {
        match self {
            RegistryAuth::Standard { client_id, .. } => match client_id {
                Some(c) => Some(c@),
                None => None,
            },
        }
    }

    /// Selects the token-exchange scheme for a registry host: Docker Hub
    /// by exact name, then GitLab and the GitHub container registry by
    /// substring, then a generic `/v2/token` endpoint on the host itself.
    pub fn from_registry(registry: &str) -> (r: Self)
        ensures
            r.spec_auth_url() == spec_scheme_auth_url(registry@),
            r.spec_service() == spec_scheme_service(registry@),
            r.spec_client_id() == spec_scheme_client_id(registry@),
    {
        if crate::strutil::str_eq(registry, "registry.hub.docker.com") {
            RegistryAuth::Standard {
                auth_url: "https://auth.docker.io/token".to_owned(),
                service: "registry.docker.io".to_owned(),
                client_id: None,
            }
        } else if crate::strutil::contains_sub(registry, "gitlab") {
            RegistryAuth::Standard {
                auth_url: "https://gitlab.com/jwt/auth".to_owned(),
                service: "container_registry".to_owned(),
                client_id: Some("docker".to_owned()),
            }
        } else if crate::strutil::contains_sub(registry, "ghcr.io") {
            RegistryAuth::Standard {
                auth_url: "https://ghcr.io/token".to_owned(),
                service: "ghcr.io".to_owned(),
                client_id: None,
            }
        } else {
            let mut auth_url = "https://".to_owned();
            auth_url.append(registry);
            auth_url.append("/v2/token");
            RegistryAuth::Standard {
                auth_url,
                service: registry.to_owned(),
                client_id: None,
            }
        }
    }
}

/// The token endpoint that a registry host selects.
pub open spec fn spec_scheme_auth_url(registry: Seq<char>) -> Seq<char> {
    if registry == "registry.hub.docker.com"@ {
        "https://auth.docker.io/token"@
    } else if crate::strutil::spec_contains(registry, "gitlab"@) {
        "https://gitlab.com/jwt/auth"@
    } else if crate::strutil::spec_contains(registry, "ghcr.io"@) {
        "https://ghcr.io/token"@
    } else {
        "https://"@ + registry + "/v2/token"@
    }
}

/// The service name that a registry host selects.
pub open spec fn spec_scheme_service(registry: Seq<char>) -> Seq<char> {
    if registry == "registry.hub.docker.com"@ {
        "registry.docker.io"@
    } else if crate::strutil::spec_contains(registry, "gitlab"@) {
        "container_registry"@
    } else if crate::strutil::spec_contains(registry, "ghcr.io"@) {
        "ghcr.io"@
    } else {
        registry
    }
}

/// The client id that a registry host selects: only GitLab sends one.
pub open spec fn spec_scheme_client_id(registry: Seq<char>) -> Option<Seq<char>> {
    if registry != "registry.hub.docker.com"@ && crate::strutil::spec_contains(
        registry,
        "gitlab"@,
    ) {
        Some("docker"@)
    } else {
        None
    }
}

/// How a token request authenticates itself.
pub enum TokenAuth {
    /// A bearer token, preferred for the GitHub container registry when
    /// `GITHUB_TOKEN` is set.
    Bearer(String),
    /// HTTP basic authentication from the local credential store.
    Basic(String, String),
    /// No credentials: an anonymous pull-token request.
    Anonymous,
}

/// A planned token exchange: the URL to fetch and how to authenticate.
pub struct TokenRequest {
    pub url: String,
    pub auth: TokenAuth,
}

/// The token-exchange URL of a scheme, scoped to pulling one repository.
pub open spec fn spec_token_url_parts(
    auth_url: Seq<char>,
    service: Seq<char>,
    client_id: Option<Seq<char>>,
    image_path: Seq<char>,
) -> Seq<char> {
    let base = auth_url + "?service="@ + service + "&scope=repository:"@ + image_path
        + ":pull"@;
    match client_id {
        Some(cid) => base + "&client_id="@ + cid,
        None => base,
    }
}

/// The token-exchange URL that a scheme value gives.
pub open spec fn spec_token_url(auth: &RegistryAuth, image_path: Seq<char>) -> Seq<char> {
    spec_token_url_parts(
        auth.spec_auth_url(),
        auth.spec_service(),
        auth.spec_client_id(),
        image_path,
    )
}

/// How a token request authenticates: a bearer `GITHUB_TOKEN` is
/// preferred for the `ghcr.io` service; otherwise stored credentials as
/// basic auth; otherwise anonymously.
pub open spec fn spec_token_auth_parts(
    service: Seq<char>,
    creds: Option<(String, String)>,
    github_token: Option<String>,
) -> TokenAuth {
    if service == "ghcr.io"@ && github_token is Some {
        TokenAuth::Bearer(github_token->0)
    } else {
        match creds {
            Some(c) => TokenAuth::Basic(c.0, c.1),
            None => TokenAuth::Anonymous,
        }
    }
}

/// Plans the token exchange for a scheme and repository path.
pub fn build_token_request(
    auth: &RegistryAuth,
    image_path: &str,
    creds: Option<(String, String)>,
    github_token: Option<String>,
) -> (r: TokenRequest)
    ensures
        r.url@ == spec_token_url(auth, image_path@),
        r.auth == spec_token_auth_parts(auth.spec_service(), creds, github_token),
{
    let RegistryAuth::Standard { auth_url, service, client_id } = auth;
    let mut url = auth_url.clone();
    url.append("?service=");
    url.append(service.as_str());
    url.append("&scope=repository:");
    url.append(image_path);
    url.append(":pull");
    match client_id {
        Some(cid) => {
            url.append("&client_id=");
            url.append(cid.as_str());
            proof {
                assert(url@ =~= spec_token_url(auth, image_path@));
            }
        },
        None => {
            proof {
                assert(url@ =~= spec_token_url(auth, image_path@));
            }
        },
    }
    let chosen = if crate::strutil::str_eq(service.as_str(), "ghcr.io") && github_token.is_some() {
        match github_token {
            Some(t) => TokenAuth::Bearer(t),
            None => vstd::pervasive::unreached(),
        }
    } else {
        match creds {
            Some(c) => TokenAuth::Basic(c.0, c.1),
            None => TokenAuth::Anonymous,
        }
    };
    TokenRequest { url, auth: chosen }
}

/// Plans the whole pull-token step for a registry: `quay.io` hosts get
/// no token request at all; every other host gets its scheme's exchange.
pub fn registry_token_request(
    registry: &str,
    image_path: &str,
    creds: Option<(String, String)>,
    github_token: Option<String>,
) -> (r: Option<TokenRequest>)
    ensures
        crate::strutil::spec_contains(registry@, "quay.io"@) <==> r is None,
        r matches Some(t) ==> t.url@ == spec_token_url_parts(
            spec_scheme_auth_url(registry@),
            spec_scheme_service(registry@),
            spec_scheme_client_id(registry@),
            image_path@,
        ) && t.auth == spec_token_auth_parts(spec_scheme_service(registry@), creds, github_token),
{
    if crate::strutil::contains_sub(registry, "quay.io") {
        return None;
    }
    let auth = RegistryAuth::from_registry(registry);
    Some(build_token_request(&auth, image_path, creds, github_token))
}

/// What a token response body holds: the `token` string field, where
/// the body is a JSON document with one.
pub uninterp spec fn token_field_of(body: Seq<char>) -> Option<Seq<char>>;

/// Relies on `serde_json::from_str` and `serde_json::Value::as_str`: the
/// parse of a JSON document and its `token` string field depend on the
/// text alone.
#[verifier::external_body]
pub(crate) fn parse_token_field(body: &str) -> (r: Option<String>)
    ensures
        r.deep_view() == token_field_of(body@),
{
    match serde_json::from_str::<serde_json::Value>(body) {
        Ok(v) => v.get("token").and_then(|t| t.as_str()).map(|s| s.to_string()),
        Err(_) => None,
    }
}

/// Reads the bearer token out of a token-exchange response body; a body
/// without a `token` string field is an invalid response.
pub fn parse_token_response(body: &str) -> (r: Result<String, AppError>)
    ensures
        match token_field_of(body@) {
            Some(t) => r is Ok && r->Ok_0@ == t,
            None => (r matches Err(AppError::InvalidResponse(m)) && m@
                == "token response held no token field"@),
        },
{
    match parse_token_field(body) {
        Some(t) => Ok(t),
        None => Err(AppError::InvalidResponse("token response held no token field".to_owned())),
    }
}

/// One entry of the local docker-style credential store, as plain
/// values: a base64 `user:pass` blob, or explicit fields.
pub struct DockerAuthEntry {
    pub auth: Option<String>,
    pub username: Option<String>,
    pub password: Option<String>,
}

/// What a base64 blob decodes to as text: the decoded bytes read as
/// UTF-8, where the blob is valid standard base64 and the bytes are
/// valid UTF-8.
pub uninterp spec fn base64_text_of(blob: Seq<char>) -> Option<Seq<char>>;

/// Relies on `base64::Engine::decode` with the standard alphabet and on
/// `String::from_utf8`: the decoded text depends on the blob alone.
#[verifier::external_body]
pub(crate) fn base64_decode_text(blob: &str) -> (r: Option<String>)
    ensures
        r.deep_view() == base64_text_of(blob@),
{
    base64::engine::general_purpose::STANDARD.decode(blob).ok().and_then(
        |b| String::from_utf8(b).ok(),
    )
}

/// The credentials that a store entry yields where its blob decodes to
/// `user:pass`: the parts before and after the first colon.
pub open spec fn spec_split_credentials(d: Seq<char>) -> (Seq<char>, Seq<char>) {
    let i = spec_find_char(d, ':');
    (d.subrange(0, i), d.subrange(i + 1, d.len() as int))
}

/// The fallback of a store entry: explicit username and password
/// fields, where both are present.
pub open spec fn spec_explicit_credentials(e: &DockerAuthEntry) -> Option<(Seq<char>, Seq<char>)> {
    match (e.username, e.password) {
        (Some(u), Some(p)) => Some((u@, p@)),
        _ => None,
    }
}

/// Resolves a credential-store entry into a username and password:
/// a base64 `user:pass` blob wins; an undecodable blob is an error; a
/// decoded blob without a colon, or no blob, falls back to the explicit
/// fields; an absent entry is anonymous, not an error.
pub fn resolve_credentials(entry: Option<&DockerAuthEntry>) -> (r: Result<
    Option<(String, String)>,
    AppError,
>)
    ensures
        entry is None ==> (r matches Ok(c) && c is None),
        entry matches Some(e) ==> match e.auth {
            Some(a) => match base64_text_of(a@) {
                None => (r matches Err(AppError::CredentialsError(m)) && m@
                    == "invalid base64 auth entry"@),
                Some(d) => if spec_has_char(d, ':') {
                    r matches Ok(Some(c)) && c.0@ == spec_split_credentials(d).0 && c.1@
                        == spec_split_credentials(d).1
                } else {
                    spec_entry_fallback_holds(e, r)
                },
            },
            None => spec_entry_fallback_holds(e, r),
        },
{
    match entry {
        None => Ok(None),
        Some(e) => {
            if let Some(a) = &e.auth {
                match base64_decode_text(a.as_str()) {
                    None => {
                        return Err(
                            AppError::CredentialsError("invalid base64 auth entry".to_owned()),
                        );
                    },
                    Some(d) => {
                        let dl = d.as_str().unicode_len();
                        if let Some(i) = find_char(d.as_str(), ':') {
                            let user = d.as_str().substring_char(0, i).to_owned();
                            let pass = d.as_str().substring_char(i + 1, dl).to_owned();
                            return Ok(Some((user, pass)));
                        }
                    },
                }
            }
            match (&e.username, &e.password) {
                (Some(u), Some(p)) => Ok(Some((u.clone(), p.clone()))),
                _ => Ok(None),
            }
        },
    }
}

/// The fallback outcome of a store entry whose blob yields nothing.
pub open spec fn spec_entry_fallback_holds(
    e: &DockerAuthEntry,
    r: Result<Option<(String, String)>, AppError>,
) -> bool {
    match spec_explicit_credentials(e) {
        Some(c) => r matches Ok(Some(rc)) && rc.0@ == c.0 && rc.1@ == c.1,
        None => r matches Ok(rc) && rc is None,
    }
}

/// The three manifest media types tried, in their fixed order.
pub open spec fn spec_accept_header(i: int) -> Seq<char> {
    if i == 0 {
        "application/vnd.docker.distribution.manifest.v2+json"@
    } else if i == 1 {
        "application/vnd.oci.image.index.v1+json"@
    } else {
        "application/vnd.docker.distribution.manifest.list.v2+json"@
    }
}

/// The `Accept` header of one manifest attempt.
pub fn accept_header(i: usize) -> (r: &'static str)
    requires
        i < 3,
    ensures
        r@ == spec_accept_header(i as int),
{
    if i == 0 {
        "application/vnd.docker.distribution.manifest.v2+json"
    } else if i == 1 {
        "application/vnd.oci.image.index.v1+json"
    } else {
        "application/vnd.docker.distribution.manifest.list.v2+json"
    }
}

/// What one manifest response decides: try the next media type, or
/// finish with an outcome.
pub enum ManifestStep {
    /// A 404 before the last media type: ask again with the next one.
    TryNext,
    /// The check is over, with existence or a failure.
    Finished(Result<bool, AppError>),
}

/// Decides one manifest attempt: 200 means the tag exists; 404 moves to
/// the next media type, or means definitive absence on the last one;
/// 429 is rate limiting; anything else is an unexpected status.
///
/// The reading of a 404 is deliberately lenient: whatever its body says,
/// a 404 before the last media type tries the next one, and exhausting
/// all media types is definitive absence.
pub fn manifest_decide(index: usize, status: u16, body: &str) -> (r: ManifestStep)
    requires
        index < 3,
    ensures
        status == 200 ==> r == ManifestStep::Finished(Ok::<bool, AppError>(true)),
        status == 404 && index < 2 ==> r == ManifestStep::TryNext,
        status == 404 && index == 2 ==> r == ManifestStep::Finished(Ok::<bool, AppError>(false)),
        status == 429 ==> (r matches ManifestStep::Finished(Err(AppError::RateLimited(m))) && m@
            == body@),
        status != 200 && status != 404 && status != 429 ==> (r matches ManifestStep::Finished(
            Err(AppError::RequestError(st, m)),
        ) && st == status && m@ == body@),
{
    if status == 200 {
        ManifestStep::Finished(Ok(true))
    } else if status == 404 {
        if index < 2 {
            ManifestStep::TryNext
        } else {
            ManifestStep::Finished(Ok(false))
        }
    } else if status == 429 {
        ManifestStep::Finished(Err(AppError::RateLimited(body.to_owned())))
    } else {
        ManifestStep::Finished(Err(AppError::RequestError(status, body.to_owned())))
    }
}

/// The attempt on which the check stops: the first response that is not
/// a 404, or the third attempt.
pub open spec fn spec_stop_index(responses: Seq<(u16, String)>) -> int {
    if responses[0].0 != 404 {
        0
    } else if responses[1].0 != 404 {
        1
    } else {
        2
    }
}

/// Runs the whole content negotiation over the responses the registry
/// would give per media type: a 200 short-circuits to existence, a 404
/// moves on (absence after the last), 429 and unexpected statuses stop
/// with a failure.  Returns the outcome and the number of requests
/// consumed.
pub fn check_manifest(responses: &Vec<(u16, String)>) -> (r: (Result<bool, AppError>, usize))
    requires
        responses@.len() == 3,
    ensures
        r.1 == spec_stop_index(responses@) + 1,
        ({
            let stop = spec_stop_index(responses@);
            let status = responses@[stop].0;
            let body = responses@[stop].1;
            &&& status == 200 ==> r.0 == Ok::<bool, AppError>(true)
            &&& status == 404 ==> r.0 == Ok::<bool, AppError>(false)
            &&& status == 429 ==> (r.0 matches Err(AppError::RateLimited(m)) && m@ == body@)
            &&& status != 200 && status != 404 && status != 429 ==> (r.0 matches Err(
                AppError::RequestError(st, m),
            ) && st == status && m@ == body@)
        }),
{
    let mut i: usize = 0;
    while i < 3
        invariant
            responses@.len() == 3,
            i <= 2,
            forall|j: int| 0 <= j < i ==> responses@[j].0 == 404,
        decreases 3 - i,
    {
        let pair = &responses[i];
        match manifest_decide(i, pair.0, pair.1.as_str()) {
            ManifestStep::TryNext => {
                i = i + 1;
            },
            ManifestStep::Finished(outcome) => {
                proof {
                    assert(spec_stop_index(responses@) == i as int);
                }
                return (outcome, i + 1);
            },
        }
    }
    proof {
        assert(false);
    }
    vstd::pervasive::unreached()
}

} // verus!
