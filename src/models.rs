use vstd::prelude::*;
use vstd::string::StringExecFns;

use crate::mirror::MirrorJob;

verus! {

/// A repository as the Gitea API lists it.
#[derive(Debug, Clone, PartialEq, Eq)]
pub struct GiteaRepo {
    pub name: String,
    pub clone_url: String,
    pub private: bool,
}

/// Gitea's answer to a token request.
#[derive(Debug, Clone, PartialEq, Eq)]
pub struct TokenResponse {
    pub sha1: String,
}

/// The body of a GitHub repository creation.
#[derive(Debug, Clone, PartialEq, Eq)]
pub struct CreateRepoRequest {
    pub name: String,
    pub private: bool,
}

/// The body of a Gitea token request: the token's name and its scopes.
#[derive(Debug, Clone, PartialEq, Eq)]
pub struct TokenRequest {
    pub name: String,
    pub scopes: Vec<String>,
}

/// The scopes a new Gitea token asks for: reading repository metadata, the
/// user's identity, and organization and package metadata; nothing that
/// writes to the source.
pub open spec fn spec_token_scopes() -> Seq<Seq<char>> {
    seq!["read:repository"@, "read:user"@, "read:organization"@, "read:package"@]
}

/// The creation request for the destination repository of `job`: the same
/// name as on the source, and the source's visibility.
pub fn create_repo_request(job: &MirrorJob) -> (r: CreateRepoRequest)
    ensures
        r.name@ == job.repo_name@,
        r.private == job.is_private,
{
    CreateRepoRequest { name: String::from_str(job.repo_name.as_str()), private: job.is_private }
}

/// A token request named `token_{stamp}` with the scopes of
/// `spec_token_scopes`.
pub fn token_request(stamp: &str) -> (r: TokenRequest)
    ensures
        r.name@ == "token_"@ + stamp@,
        r.scopes@.len() == spec_token_scopes().len(),
        forall|i: int| 0 <= i < r.scopes@.len() ==> #[trigger] r.scopes@[i]@ == spec_token_scopes()[i],
{
    let mut scopes: Vec<String> = Vec::new();
    scopes.push(String::from_str("read:repository"));
    scopes.push(String::from_str("read:user"));
    scopes.push(String::from_str("read:organization"));
    scopes.push(String::from_str("read:package"));
    TokenRequest { name: String::from_str("token_").concat(stamp), scopes }
}

/// What `str::trim` leaves of `s`.
pub uninterp spec fn trimmed(s: Seq<char>) -> Seq<char>;

/// Relies on `str::trim`: the text without leading and trailing white
/// space, which depends on the text alone; nothing remains of empty text.
#[verifier::external_body]
fn trim_text(s: &str) -> (r: String)
    ensures
        r@ == trimmed(s@),
        s@.len() == 0 ==> r@.len() == 0,
{
    s.trim().to_string()
}

/// The token held in a token file with contents `contents`: the trimmed
/// text, unless nothing remains of it.
pub fn stored_token(contents: &str) -> (r: Option<String>)
    ensures
        r is None <==> trimmed(contents@).len() == 0,
        r matches Some(t) ==> t@ == trimmed(contents@),
{
    let t = trim_text(contents);
    if t.as_str().is_empty() {
        None
    } else {
        Some(t)
    }
}

/// The token held in the token file: `None` when the file is missing or
/// holds nothing but white space, else its trimmed contents.
pub fn token_from_file(contents: Option<&str>) -> (r: Option<String>)
    ensures
        contents is None ==> r is None,
        contents matches Some(c) ==> (r is None <==> trimmed(c@).len() == 0),
        contents matches Some(c) ==> (r matches Some(t) ==> t@ == trimmed(c@)),
{
    match contents {
        None => None,
        Some(c) => stored_token(c),
    }
}

} // verus!
