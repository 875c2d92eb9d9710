use vstd::prelude::*;
use vstd::string::StringExecFns;

use crate::errors::{GiteaError, HTTP_UNAUTHORIZED, is_success, spec_is_success};
use crate::mirror::MirrorJob;
use crate::models::GiteaRepo;
use crate::urls::spec_trim_scheme;

verus! {

/// A Gitea account to migrate from: the host (without scheme), the account
/// name, its access token, and how many API calls to it may be outstanding
/// at once.
#[derive(Debug)]
pub struct GiteaClient {
    pub gitea_url: String,
    pub gitea_name: String,
    pub token: String,
    pub max_parallel: usize,
}

/// A GitHub account to migrate to, with its access token.
#[derive(Debug)]
pub struct GithubClient {
    pub username: String,
    pub token: String,
}

impl GiteaClient {
    pub fn new(gitea_name: String, url_gitea: String, token: String, max_parallel: usize) -> (r:
        GiteaClient)
        ensures
            r.gitea_name == gitea_name,
            r.gitea_url == url_gitea,
            r.token == token,
            r.max_parallel == max_parallel,
    {
        GiteaClient { gitea_url: url_gitea, gitea_name, token, max_parallel }
    }
}

impl GithubClient {
    pub fn new(username: String, token: String) -> (r: GithubClient)
        ensures
            r.username == username,
            r.token == token,
    {
        GithubClient { username, token }
    }
}

/// The text http gives a status code: its number and canonical reason.
pub uninterp spec fn status_text(code: u16) -> Seq<char>;

/// Relies on http's `StatusCode::from_u16`, which accepts 100..=999, and its
/// `Display`, whose text depends on the code alone.
#[verifier::external_body]
fn status_display(code: u16) -> (r: String)
    requires
        100 <= code <= 999,
    ensures
        r@ == status_text(code),
{
    reqwest::StatusCode::from_u16(code).map(|s| s.to_string()).unwrap_or_default()
}

/// The text of a failed repository creation.
pub open spec fn create_failed_text(code: u16, body: Seq<char>) -> Seq<char> {
    "Failed to create repo ["@ + status_text(code) + "]: "@ + body
}

/// What a repository creation answered with status `code` and body `body`
/// comes to: `Ok` on a success status, `AuthError` on 401, else `ApiError`;
/// both errors carry the status and the body.
pub fn create_repo_reply(code: u16, body: String) -> (r: Result<bool, GiteaError>)
    requires
        100 <= code <= 999,
    ensures
        spec_is_success(code) <==> r is Ok,
        r is Ok ==> r == Ok::<bool, GiteaError>(true),
        !spec_is_success(code) && code == HTTP_UNAUTHORIZED ==> (r matches Err(
            GiteaError::AuthError(m),
        ) && m@ == create_failed_text(code, body@)),
        !spec_is_success(code) && code != HTTP_UNAUTHORIZED ==> (r matches Err(
            GiteaError::ApiError(m),
        ) && m@ == create_failed_text(code, body@)),
{
    if is_success(code) {
        return Ok(true);
    }
    let text = String::from_str("Failed to create repo [").concat(status_display(code).as_str()).concat(
        "]: ",
    ).concat(body.as_str());
    if code == HTTP_UNAUTHORIZED {
        Err(GiteaError::AuthError(text))
    } else {
        Err(GiteaError::ApiError(text))
    }
}

/// What an existence check answered with status `code` comes to: 401 is an
/// `AuthError`; otherwise the repository exists exactly on a success status.
pub fn repo_exists_reply(code: u16) -> (r: Result<bool, GiteaError>)
    requires
        100 <= code <= 999,
    ensures
        code == HTTP_UNAUTHORIZED ==> (r matches Err(GiteaError::AuthError(m)) && m@
            == status_text(code)),
        code != HTTP_UNAUTHORIZED ==> r == Ok::<bool, GiteaError>(spec_is_success(code)),
{
    if code == HTTP_UNAUTHORIZED {
        Err(GiteaError::AuthError(status_display(code)))
    } else {
        Ok(is_success(code))
    }
}

/// The mirror attempt for repository `repo_name`, listed on Gitea with clone
/// URL `gitea_url`, into the GitHub account of `github`.
pub fn mirror_job(
    github: &GithubClient,
    gitea: &GiteaClient,
    gitea_url: &str,
    repo_name: &str,
    is_private: bool,
) -> (r: MirrorJob)
    ensures
        r.wf(),
        r.phase is CheckDestination,
        r.repo_name@ == repo_name@,
        r.is_private == is_private,
        r.source_url@ == gitea_url@,
        r.clone_url@ == "https://"@ + gitea.gitea_name@ + ":"@ + gitea.token@ + "@"@
            + spec_trim_scheme(gitea_url@),
        r.push_url@ == "https://"@ + github.token@ + "@github.com/"@ + github.username@ + "/"@
            + repo_name@ + ".git"@,
        r.push_target@ == "https://github.com/"@ + github.username@ + "/"@ + repo_name@ + ".git"@,
        r.failure is None,
{
    MirrorJob::new(
        gitea.gitea_name.as_str(),
        gitea.token.as_str(),
        github.username.as_str(),
        github.token.as_str(),
        gitea_url,
        repo_name,
        is_private,
    )
}

/// The mirror attempt for a repository fetched by name from Gitea. A failed
/// fetch (a missing repository gives `NotFound`) is handed back as it is,
/// and no attempt is made, so nothing reaches the destination.
pub fn job_for_fetched(
    github: &GithubClient,
    gitea: &GiteaClient,
    fetched: Result<GiteaRepo, GiteaError>,
) -> (r: Result<MirrorJob, GiteaError>)
    ensures
        fetched matches Err(e) ==> r == Err::<MirrorJob, GiteaError>(e),
        fetched matches Ok(repo) ==> (r matches Ok(job) && job.wf() && job.phase is CheckDestination
            && job.repo_name@ == repo.name@ && job.source_url@ == repo.clone_url@
            && job.is_private == repo.private),
{
    match fetched {
        Err(e) => Err(e),
        Ok(repo) => Ok(
            mirror_job(github, gitea, repo.clone_url.as_str(), repo.name.as_str(), repo.private),
        ),
    }
}

} // verus!
