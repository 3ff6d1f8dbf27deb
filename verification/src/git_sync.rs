//! GitHub App git sync: the API base of an instance, the app configuration, the
//! choice of installation, the requests to GitHub and the answers built from them.
use vstd::prelude::*;

use crate::error::ServiceError;
use crate::text::{
    concat2, concat3, concat4, concat5, dec_signed, eq_ignore_ascii_case,
    eq_ignore_ascii_case_exec, i64_text, owned, str_eq, trim_end_char, trim_end_char_exec,
    trim_end_seq, trim_end_seq_exec,
};
use crate::url_parts::{opt_seq, parse_url, parsed_url, parts_match, UrlParts};

verus! {

/// The GitHub API base for a GitHub base URL: github.com's public API when no URL is
/// given or the URL is github.com itself, and `{url}/api/v3` otherwise (trailing
/// slashes of the URL do not count).
pub open spec fn api_base_of(base_url: Option<Seq<char>>) -> Seq<char> {
    match base_url {
        None => "https://api.github.com"@,
        Some(b) => {
            let t = trim_end_char(b, '/');
            if t == "https://github.com"@ || t == "http://github.com"@ {
                "https://api.github.com"@
            } else {
                t + "/api/v3"@
            }
        },
    }
}

/// The GitHub API base for an optional GitHub base URL.
pub fn github_api_base(base_url: Option<&str>) -> (r: String)
    ensures
        r@ == api_base_of(
            match base_url {
                Some(b) => Some(b@),
                None => None,
            },
        ),
{
    match base_url {
        None => owned("https://api.github.com"),
        Some(b) => {
            let t = trim_end_char_exec(b, '/');
            if str_eq(t, "https://github.com") || str_eq(t, "http://github.com") {
                owned("https://api.github.com")
            } else {
                concat2(t, "/api/v3")
            }
        },
    }
}

/// Trailing slashes of a GitHub base URL do not change its API base.
pub proof fn api_base_ignores_trailing_slash(b: Seq<char>)
    ensures
        api_base_of(Some(b.push('/'))) == api_base_of(Some(b)),
{
    assert(b.push('/').drop_last() =~= b);
}

/// `o` when it holds a non-empty text, `None` otherwise.
pub open spec fn nonempty(o: Option<Seq<char>>) -> Option<Seq<char>> {
    match o {
        Some(s) => if s.len() > 0 {
            Some(s)
        } else {
            None
        },
        None => None,
    }
}

/// `o` when it holds a non-empty string, `None` otherwise.
pub fn nonempty_exec(o: Option<String>) -> (r: Option<String>)
    ensures
        opt_seq(r) == nonempty(opt_seq(o)),
{
    match o {
        Some(s) => if s.as_str().unicode_len() > 0 {
            Some(s)
        } else {
            None
        },
        None => None,
    }
}

/// How the stored `app_id` setting was written.
pub enum AppIdValue {
    /// No such setting.
    Missing,
    /// A JSON string.
    Text(String),
    /// A JSON number, in its decimal writing.
    Number(String),
    /// Any other JSON value.
    Other,
}

/// The stored GitHub App settings, as the logic reads them: a field is `Some` only
/// when it is a JSON string.
pub struct GithubAppSettings {
    pub app_id: AppIdValue,
    pub private_key: Option<String>,
    pub base_url: Option<String>,
}

/// The GitHub App that the instance acts as.
pub struct GithubAppConfig {
    pub app_id: String,
    pub private_key: String,
    pub base_url: Option<String>,
}

/// The app id of the settings, when it is a non-empty string or number.
pub open spec fn app_id_of(v: AppIdValue) -> Option<Seq<char>> {
    match v {
        AppIdValue::Text(s) => nonempty(Some(s@)),
        AppIdValue::Number(s) => nonempty(Some(s@)),
        _ => None,
    }
}

/// The message when no GitHub App is configured.
pub open spec fn app_not_configured_text() -> Seq<char> {
    "GitHub App is not configured on this instance (instance settings → GitHub App)"@
}

/// The app configuration of the stored settings: `BadRequest` when there are none,
/// `InternalErr` when the app id or the private key is missing or empty; an empty
/// base URL counts as none.
pub fn github_app_config(settings: Option<GithubAppSettings>) -> (r: Result<
    GithubAppConfig,
    ServiceError,
>)
    ensures
        match settings {
            None => r matches Err(ServiceError::BadRequest(m)) && m@ == app_not_configured_text(),
            Some(s) => match (app_id_of(s.app_id), nonempty(opt_seq(s.private_key))) {
                (Some(id), Some(key)) => r matches Ok(c) && c.app_id@ == id && c.private_key@
                    == key && opt_seq(c.base_url) == nonempty(opt_seq(s.base_url)),
                (None, _) => r matches Err(ServiceError::InternalErr(m)) && m@
                    == "GitHub App config missing `app_id`"@,
                (Some(_), None) => r matches Err(ServiceError::InternalErr(m)) && m@
                    == "GitHub App config missing `private_key`"@,
            },
        },
{
    let s = match settings {
        None => {
            return Err(
                ServiceError::BadRequest(
                    owned(
                        "GitHub App is not configured on this instance (instance settings → GitHub App)",
                    ),
                ),
            );
        },
        Some(s) => s,
    };
    let app_id = match s.app_id {
        AppIdValue::Text(t) => nonempty_exec(Some(t)),
        AppIdValue::Number(t) => nonempty_exec(Some(t)),
        _ => None,
    };
    let app_id = match app_id {
        Some(a) => a,
        None => {
            return Err(ServiceError::InternalErr(owned("GitHub App config missing `app_id`")));
        },
    };
    let private_key = match nonempty_exec(s.private_key) {
        Some(k) => k,
        None => {
            return Err(ServiceError::InternalErr(owned("GitHub App config missing `private_key`")));
        },
    };
    Ok(GithubAppConfig { app_id, private_key, base_url: nonempty_exec(s.base_url) })
}

/// The claims of the app's JSON Web Token.
pub struct AppJwtClaims {
    pub iat: u64,
    pub exp: u64,
    pub iss: String,
}

/// The claims of a token made at `now` (seconds since the epoch): issued a minute
/// before, expiring nine minutes after, never before the epoch, issued by the app.
pub fn app_jwt_claims(now: i64, app_id: &str) -> (r: AppJwtClaims)
    requires
        i64::MIN + 60 <= now <= i64::MAX - 540,
    ensures
        r.iat == (if now - 60 > 0 {
            now - 60
        } else {
            0
        }),
        r.exp == (if now + 540 > 0 {
            now + 540
        } else {
            0
        }),
        r.iss@ == app_id@,
{
    let a = now - 60;
    let e = now + 540;
    AppJwtClaims {
        iat: if a > 0 {
            a as u64
        } else {
            0
        },
        exp: if e > 0 {
            e as u64
        } else {
            0
        },
        iss: owned(app_id),
    }
}

/// The JSON Web Token that `jsonwebtoken::encode` signs with RS256 and the RSA key
/// in `key_pem`, over the claims `iat`, `exp` and `iss` in that order.
pub uninterp spec fn app_jwt_text(key_pem: Seq<char>, iat: u64, exp: u64, iss: Seq<char>) -> Seq<
    char,
>;

/// `jsonwebtoken::EncodingKey::from_rsa_pem`, then `jsonwebtoken::encode` with an RS256
/// header over the claims as a JSON object (`iat`, `exp`, `iss`, in that order).
/// Trusted: a token that comes back is what `app_jwt_text` names. Signing draws on the
/// system's random source, so when a failure comes is not stated; it is given by
/// its message.
#[verifier::external_body]
pub(crate) fn encode_app_jwt(key_pem: &str, claims: &AppJwtClaims) -> (r: Result<String, String>)
    ensures
        r matches Ok(t) ==> t@ == app_jwt_text(key_pem@, claims.iat, claims.exp, claims.iss@),
{
    let key = match jsonwebtoken::EncodingKey::from_rsa_pem(key_pem.as_bytes()) {
        Ok(k) => k,
        Err(e) => return Err(e.to_string()),
    };
    let mut m = serde_json::Map::new();
    m.insert("iat".to_string(), serde_json::Value::from(claims.iat));
    m.insert("exp".to_string(), serde_json::Value::from(claims.exp));
    m.insert("iss".to_string(), serde_json::Value::from(claims.iss.as_str()));
    let header = jsonwebtoken::Header::new(jsonwebtoken::Algorithm::RS256);
    match jsonwebtoken::encode(&header, &serde_json::Value::Object(m), &key) {
        Ok(t) => Ok(t),
        Err(e) => Err(e.to_string()),
    }
}

/// The app's token, from what the signing gave: the token, or the failure's message as
/// an `Anyhow` error.
pub fn app_jwt_result(encoded: Result<String, String>) -> (r: Result<String, ServiceError>)
    ensures
        match encoded {
            Ok(t) => r matches Ok(x) && x == t,
            Err(m) => r matches Err(ServiceError::Anyhow(e)) && e == m,
        },
{
    match encoded {
        Ok(t) => Ok(t),
        Err(m) => Err(ServiceError::Anyhow(m)),
    }
}

/// The app's JSON Web Token at `now` (seconds since the epoch): the claims of
/// `app_jwt_claims`, signed with the app's private key. A token that comes back is the
/// one `app_jwt_text` names; a failure of the signing is an `Anyhow` error.
pub fn create_app_jwt(config: &GithubAppConfig, now: i64) -> (r: Result<String, ServiceError>)
    requires
        i64::MIN + 60 <= now <= i64::MAX - 540,
    ensures
        r matches Ok(t) ==> t@ == app_jwt_text(
            config.private_key@,
            (if now - 60 > 0 {
                now - 60
            } else {
                0
            }) as u64,
            (if now + 540 > 0 {
                now + 540
            } else {
                0
            }) as u64,
            config.app_id@,
        ),
        r is Err ==> r matches Err(ServiceError::Anyhow(_)),
{
    let claims = app_jwt_claims(now, config.app_id.as_str());
    let encoded = encode_app_jwt(config.private_key.as_str(), &claims);
    app_jwt_result(encoded)
}

/// The API base for an installation: its own base URL, else the app's.
pub open spec fn installation_base(
    config_base: Option<Seq<char>>,
    base_url_override: Option<Seq<char>>,
) -> Seq<char> {
    api_base_of(
        match base_url_override {
            Some(b) => Some(b),
            None => config_base,
        },
    )
}

/// The API base used for an installation of the app.
pub fn installation_api_base(config: &GithubAppConfig, base_url_override: Option<&str>) -> (r:
    String)
    ensures
        r@ == installation_base(
            opt_seq(config.base_url),
            match base_url_override {
                Some(b) => Some(b@),
                None => None,
            },
        ),
{
    match base_url_override {
        Some(b) => github_api_base(Some(b)),
        None => match &config.base_url {
            Some(b) => github_api_base(Some(b.as_str())),
            None => github_api_base(None),
        },
    }
}

/// A request to GitHub: where it goes and its `Authorization` header.
pub struct GithubRequest {
    pub url: String,
    pub authorization: String,
}

/// The request that exchanges the app's token for an installation token.
pub fn access_token_request(api_base: &str, installation_id: i64, app_jwt: &str) -> (r:
    GithubRequest)
    ensures
        r.url@ == api_base@ + "/app/installations/"@ + dec_signed(installation_id as int)
            + "/access_tokens"@,
        r.authorization@ == "Bearer "@ + app_jwt@,
{
    let id = i64_text(installation_id);
    GithubRequest {
        url: concat4(api_base, "/app/installations/", id.as_str(), "/access_tokens"),
        authorization: concat2("Bearer ", app_jwt),
    }
}

/// The request that lists the repositories an installation can reach (one page of 100).
pub fn repositories_request(api_base: &str, token: &str) -> (r: GithubRequest)
    ensures
        r.url@ == api_base@ + "/installation/repositories?per_page=100"@,
        r.authorization@ == "token "@ + token@,
{
    GithubRequest {
        url: concat2(api_base, "/installation/repositories?per_page=100"),
        authorization: concat2("token ", token),
    }
}

/// The error of a failed token exchange, naming the status and the answer's body.
pub fn token_exchange_failure(status: &str, body: &str) -> (r: ServiceError)
    ensures
        r matches ServiceError::InternalErr(m) && m@
            == "GitHub App installation-token exchange failed ("@ + status@ + "): "@ + body@,
{
    ServiceError::InternalErr(
        concat4("GitHub App installation-token exchange failed (", status, "): ", body),
    )
}

/// The error of a failed repository listing, naming the status and the answer's body.
pub fn list_repositories_failure(status: &str, body: &str) -> (r: ServiceError)
    ensures
        r matches ServiceError::InternalErr(m) && m@ == "GitHub list-repositories failed ("@
            + status@ + "): "@ + body@,
{
    ServiceError::InternalErr(concat4("GitHub list-repositories failed (", status, "): ", body))
}

/// An installation of the app, as a workspace stores it.
pub struct InstallationRow {
    pub installation_id: i64,
    pub account_id: String,
    pub github_base_url: Option<String>,
    pub provisioned_by_admin: Option<bool>,
}

/// The message when no installation belongs to the owner.
pub open spec fn no_installation_for_owner_text(owner: Seq<char>) -> Seq<char> {
    "No GitHub App installation found for org '"@ + owner
        + "' in this workspace. Install the GitHub App on that org and attach the repository."@
}

/// The first installation whose account is `owner`, up to ASCII case; `BadRequest`
/// when there is none.
pub fn find_installation_for_owner(installations: &[InstallationRow], owner: &str) -> (r: Result<
    usize,
    ServiceError,
>)
    ensures
        match r {
            Ok(i) => i < installations@.len() && eq_ignore_ascii_case(
                installations@[i as int].account_id@,
                owner@,
            ) && forall|j: int|
                0 <= j < i ==> !eq_ignore_ascii_case(
                    #[trigger] installations@[j].account_id@,
                    owner@,
                ),
            Err(e) => (forall|j: int|
                0 <= j < installations@.len() ==> !eq_ignore_ascii_case(
                    #[trigger] installations@[j].account_id@,
                    owner@,
                )) && (e matches ServiceError::BadRequest(m) && m@ == no_installation_for_owner_text(
                owner@,
            )),
        },
{
    let mut i: usize = 0;
    while i < installations.len()
        invariant
            i <= installations@.len(),
            forall|j: int|
                0 <= j < i ==> !eq_ignore_ascii_case(
                    #[trigger] installations@[j].account_id@,
                    owner@,
                ),
        decreases installations@.len() - i,
    {
        if eq_ignore_ascii_case_exec(installations[i].account_id.as_str(), owner) {
            return Ok(i);
        }
        i += 1;
    }
    Err(
        ServiceError::BadRequest(
            concat3(
                "No GitHub App installation found for org '",
                owner,
                "' in this workspace. Install the GitHub App on that org and attach the repository.",
            ),
        ),
    )
}

/// The workspace that a job token is scoped to; `BadRequest` when it has none.
pub fn job_workspace(workspace_id: Option<String>) -> (r: Result<String, ServiceError>)
    ensures
        match workspace_id {
            Some(w) => r matches Ok(x) && x@ == w@,
            None => r matches Err(ServiceError::BadRequest(m)) && m@
                == "Job token is not scoped to a workspace"@,
        },
{
    match workspace_id {
        Some(w) => Ok(w),
        None => Err(ServiceError::BadRequest(owned("Job token is not scoped to a workspace"))),
    }
}

/// The message when a workspace has several installations.
pub open spec fn ambiguous_installation_text() -> Seq<char> {
    "Multiple GitHub App installations in this workspace; cannot disambiguate from the job token alone (resolution by repository URL is used at clone time)."@
}

/// The workspace's only installation; `BadRequest` when it has none or several.
pub fn single_installation(installations: &[InstallationRow]) -> (r: Result<
    &InstallationRow,
    ServiceError,
>)
    ensures
        installations@.len() == 0 ==> (r matches Err(ServiceError::BadRequest(m)) && m@
            == "No GitHub App installation configured for this workspace"@),
        installations@.len() == 1 ==> (r matches Ok(x) && *x == installations@[0]),
        installations@.len() > 1 ==> (r matches Err(ServiceError::BadRequest(m)) && m@
            == ambiguous_installation_text()),
{
    if installations.len() == 0 {
        Err(
            ServiceError::BadRequest(
                owned("No GitHub App installation configured for this workspace"),
            ),
        )
    } else if installations.len() == 1 {
        Ok(&installations[0])
    } else {
        Err(
            ServiceError::BadRequest(
                owned(
                    "Multiple GitHub App installations in this workspace; cannot disambiguate from the job token alone (resolution by repository URL is used at clone time).",
                ),
            ),
        )
    }
}

/// The message when no owner can be read from a repository URL.
pub open spec fn no_owner_text(repo_url: Seq<char>) -> Seq<char> {
    "Could not parse repository owner from URL: "@ + repo_url
}

/// The owner that a parsed repository URL names: its first path segment without
/// trailing `.git`, when that is not empty.
pub open spec fn owner_result(
    repo_url: Seq<char>,
    parsed: Result<(Option<Seq<char>>, Seq<char>, Option<Seq<char>>), Seq<char>>,
    r: Result<String, ServiceError>,
) -> bool {
    match parsed {
        Err(m) => r matches Err(ServiceError::UrlParse(e)) && e@ == m,
        Ok((_, _, seg)) => match seg {
            Some(g) => if trim_end_seq(g, ".git"@).len() > 0 {
                r matches Ok(o) && o@ == trim_end_seq(g, ".git"@)
            } else {
                r matches Err(ServiceError::BadRequest(m)) && m@ == no_owner_text(repo_url)
            },
            None => r matches Err(ServiceError::BadRequest(m)) && m@ == no_owner_text(repo_url),
        },
    }
}

/// Whether `s` ends with `p`.
pub open spec fn ends_with(s: Seq<char>, p: Seq<char>) -> bool {
    p.len() <= s.len() && s.subrange(s.len() - p.len(), s.len() as int) == p
}

/// What is left after trailing copies of a non-empty text are removed does not end
/// with that text: an owner read from a URL never ends in `.git`.
pub proof fn trimmed_has_no_suffix(g: Seq<char>, p: Seq<char>)
    requires
        p.len() > 0,
    ensures
        !ends_with(trim_end_seq(g, p), p),
    decreases g.len(),
{
    if p.len() <= g.len() && g.subrange(g.len() - p.len(), g.len() as int) == p {
        trimmed_has_no_suffix(g.subrange(0, g.len() - p.len()), p);
    }
}

/// The owner of a repository, from the parts of its parsed URL.
pub fn owner_from_parts(repo_url: &str, parts: Result<UrlParts, String>) -> (r: Result<
    String,
    ServiceError,
>)
    ensures
        forall|named| parts_match(parts, named) ==> owner_result(repo_url@, named, r),
{
    match parts {
        Err(m) => Err(ServiceError::UrlParse(m)),
        Ok(u) => {
            let bad = ServiceError::BadRequest(
                concat2("Could not parse repository owner from URL: ", repo_url),
            );
            match u.first_segment {
                Some(g) => {
                    let t = trim_end_seq_exec(g.as_str(), ".git");
                    if t.unicode_len() > 0 {
                        Ok(owned(t))
                    } else {
                        Err(bad)
                    }
                },
                None => Err(bad),
            }
        },
    }
}

/// The owner (organisation or user) of a repository, read from its URL.
pub fn repo_owner(repo_url: &str) -> (r: Result<String, ServiceError>)
    ensures
        owner_result(repo_url@, parsed_url(repo_url@), r),
{
    let parts = parse_url(repo_url);
    owner_from_parts(repo_url, parts)
}

/// The URL with an installation token as credentials, from the parts of the parsed
/// URL: `https://x-access-token:{token}@{host}{path}`.
pub open spec fn token_url_result(
    parsed: Result<(Option<Seq<char>>, Seq<char>, Option<Seq<char>>), Seq<char>>,
    token: Seq<char>,
    r: Result<String, ServiceError>,
) -> bool {
    match parsed {
        Err(m) => r matches Err(ServiceError::UrlParse(e)) && e@ == m,
        Ok((host, path, _)) => match host {
            Some(h) => r matches Ok(u) && u@ == "https://x-access-token:"@ + token + "@"@ + h
                + path,
            None => r matches Err(ServiceError::BadRequest(m)) && m@
                == "Invalid GitHub URL: no host"@,
        },
    }
}

/// The URL with an installation token as credentials, from the parts of the parsed URL.
pub fn token_url_from_parts(parts: Result<UrlParts, String>, installation_token: &str) -> (r:
    Result<String, ServiceError>)
    ensures
        forall|named| parts_match(parts, named) ==> token_url_result(named, installation_token@, r),
{
    match parts {
        Err(m) => Err(ServiceError::UrlParse(m)),
        Ok(u) => match u.host {
            Some(h) => Ok(
                concat5(
                    "https://x-access-token:",
                    installation_token,
                    "@",
                    h.as_str(),
                    u.path.as_str(),
                ),
            ),
            None => Err(ServiceError::BadRequest(owned("Invalid GitHub URL: no host"))),
        },
    }
}

/// A GitHub URL with an installation token as its credentials.
pub fn prepend_token_to_github_url(github_url: &str, installation_token: &str) -> (r: Result<
    String,
    ServiceError,
>)
    ensures
        token_url_result(parsed_url(github_url@), installation_token@, r),
{
    let parts = parse_url(github_url);
    token_url_from_parts(parts, installation_token)
}

/// A repository that an installation can reach.
pub struct GithubRepository {
    pub name: String,
    pub url: String,
}

/// The repositories of a listing, from each one's full name and clone URL.
pub fn repositories_from_listing(listing: Vec<(String, String)>) -> (r: Vec<GithubRepository>)
    ensures
        r@.len() == listing@.len(),
        forall|i: int|
            0 <= i < r@.len() ==> #[trigger] r@[i].name@ == listing@[i].0@ && r@[i].url@
                == listing@[i].1@,
{
    let mut out: Vec<GithubRepository> = Vec::new();
    let mut i: usize = 0;
    while i < listing.len()
        invariant
            i <= listing@.len(),
            out@.len() == i,
            forall|k: int|
                0 <= k < i ==> #[trigger] out@[k].name@ == listing@[k].0@ && out@[k].url@
                    == listing@[k].1@,
        decreases listing@.len() - i,
    {
        let (name, url) = (owned(listing[i].0.as_str()), owned(listing[i].1.as_str()));
        out.push(GithubRepository { name, url });
        i += 1;
    }
    out
}

/// An installation of the app, with the repositories it reaches or the error met.
pub struct GithubInstallationInfo {
    pub workspace_id: Option<String>,
    pub installation_id: i64,
    pub account_id: String,
    pub repositories: Vec<GithubRepository>,
    pub total_count: i64,
    pub per_page: i64,
    pub error: Option<String>,
    pub github_base_url: Option<String>,
    pub provisioned_by_admin: Option<bool>,
}

/// The entry of the connected-installations list for one stored installation: its
/// repositories and their total when the listing succeeded, none, a total of 0 and
/// the error message when it failed.
pub fn installation_info(
    workspace_id: &str,
    inst: InstallationRow,
    listing: Result<(Vec<GithubRepository>, i64), String>,
) -> (r: GithubInstallationInfo)
    ensures
        opt_seq(r.workspace_id) == Some(workspace_id@),
        r.installation_id == inst.installation_id,
        r.account_id == inst.account_id,
        r.per_page == 100,
        r.github_base_url == inst.github_base_url,
        r.provisioned_by_admin == inst.provisioned_by_admin,
        match listing {
            Ok((repos, total)) => r.repositories == repos && r.total_count == total && r.error
                is None,
            Err(m) => r.repositories@.len() == 0 && r.total_count == 0 && opt_seq(r.error) == Some(
                m@,
            ),
        },
{
    let (repositories, total_count, error) = match listing {
        Ok((repos, total)) => (repos, total, None),
        Err(m) => (Vec::new(), 0, Some(m)),
    };
    GithubInstallationInfo {
        workspace_id: Some(owned(workspace_id)),
        installation_id: inst.installation_id,
        account_id: inst.account_id,
        repositories,
        total_count,
        per_page: 100,
        error,
        github_base_url: inst.github_base_url,
        provisioned_by_admin: inst.provisioned_by_admin,
    }
}

/// The public configuration of a self-managed GitHub App.
pub struct GhesConfigPublic {
    pub base_url: String,
    pub app_slug: String,
    pub client_id: String,
    pub app_owner: Option<String>,
}

/// The stored settings of a self-managed app, as the logic reads them: a field is
/// `Some` only when it is a JSON string.
pub struct GhesSettings {
    pub base_url: Option<String>,
    pub app_slug: Option<String>,
    pub client_id: Option<String>,
    pub app_owner: Option<String>,
}

/// The public configuration, when the settings give a non-empty base URL, app slug
/// and client id; an empty owner counts as none.
pub fn ghes_config(settings: Option<GhesSettings>) -> (r: Option<GhesConfigPublic>)
    ensures
        match settings {
            None => r is None,
            Some(s) => match (
                nonempty(opt_seq(s.base_url)),
                nonempty(opt_seq(s.app_slug)),
                nonempty(opt_seq(s.client_id)),
            ) {
                (Some(b), Some(a), Some(c)) => r matches Some(g) && g.base_url@ == b
                    && g.app_slug@ == a && g.client_id@ == c && opt_seq(g.app_owner) == nonempty(
                    opt_seq(s.app_owner),
                ),
                _ => r is None,
            },
        },
{
    let s = match settings {
        Some(s) => s,
        None => {
            return None;
        },
    };
    match (nonempty_exec(s.base_url), nonempty_exec(s.app_slug), nonempty_exec(s.client_id)) {
        (Some(base_url), Some(app_slug), Some(client_id)) => Some(
            GhesConfigPublic {
                base_url,
                app_slug,
                client_id,
                app_owner: nonempty_exec(s.app_owner),
            },
        ),
        _ => None,
    }
}

/// The configuration for the `ghes_config` route; `NotFound` when there is none.
pub fn ghes_config_or_not_found(config: Option<GhesConfigPublic>) -> (r: Result<
    GhesConfigPublic,
    ServiceError,
>)
    ensures
        match config {
            Some(c) => r == Ok::<GhesConfigPublic, ServiceError>(c),
            None => r matches Err(ServiceError::NotFound(m)) && m@
                == "No self-managed GitHub App configured"@,
        },
{
    match config {
        Some(c) => Ok(c),
        None => Err(ServiceError::NotFound(owned("No self-managed GitHub App configured"))),
    }
}

} // verus!
