use vstd::prelude::*;
use vstd::string::{StringExecFns, StrSliceExecFns};

verus! {

/// The scheme prefix that clone URLs carry.
pub open spec fn scheme() -> Seq<char> {
    seq!['h', 't', 't', 'p', 's', ':', '/', '/']
}

/// `s` with every leading copy of the scheme prefix removed.
pub open spec fn spec_trim_scheme(s: Seq<char>) -> Seq<char>
    decreases s.len(),
{
    if s.len() >= 8 && s.subrange(0, 8) == scheme() {
        spec_trim_scheme(s.subrange(8, s.len() as int))
    } else {
        s
    }
}

/// Whether the characters of `s` from `i` on begin with the scheme prefix.
fn scheme_at(s: &str, i: usize, len: usize) -> (r: bool)
    requires
        len == s@.len(),
        i <= len,
    ensures
        r == (i + 8 <= len && s@.subrange(i as int, i + 8) == scheme()),
{
    if len - i < 8 {
        return false;
    }
    let ok = s.get_char(i) == 'h' && s.get_char(i + 1) == 't' && s.get_char(i + 2) == 't'
        && s.get_char(i + 3) == 'p' && s.get_char(i + 4) == 's' && s.get_char(i + 5) == ':'
        && s.get_char(i + 6) == '/' && s.get_char(i + 7) == '/';
    if ok {
        assert(s@.subrange(i as int, i + 8) =~= scheme());
    } else {
        assert(s@.subrange(i as int, i + 8) != scheme()) by {
            if s@.subrange(i as int, i + 8) == scheme() {
                assert(s@.subrange(i as int, i + 8)[0] == s@[i as int]);
                assert(s@.subrange(i as int, i + 8)[1] == s@[i + 1]);
                assert(s@.subrange(i as int, i + 8)[2] == s@[i + 2]);
                assert(s@.subrange(i as int, i + 8)[3] == s@[i + 3]);
                assert(s@.subrange(i as int, i + 8)[4] == s@[i + 4]);
                assert(s@.subrange(i as int, i + 8)[5] == s@[i + 5]);
                assert(s@.subrange(i as int, i + 8)[6] == s@[i + 6]);
                assert(s@.subrange(i as int, i + 8)[7] == s@[i + 7]);
            }
        }
    }
    ok
}

/// Removes every leading copy of `https://` from `url`.
pub fn trim_scheme(url: &str) -> (r: String)
    ensures
        r@ == spec_trim_scheme(url@),
{
    let len = url.unicode_len();
    let mut i: usize = 0;
    assert(url@.subrange(0, len as int) =~= url@);
    while scheme_at(url, i, len)
        invariant
            len == url@.len(),
            i <= len,
            spec_trim_scheme(url@) == spec_trim_scheme(url@.subrange(i as int, len as int)),
        decreases len - i,
    {
        let ghost rest = url@.subrange(i as int, len as int);
        assert(rest.subrange(0, 8) =~= url@.subrange(i as int, i + 8));
        assert(rest.subrange(8, rest.len() as int) =~= url@.subrange(i + 8, len as int));
        i = i + 8;
    }
    proof {
        let rest = url@.subrange(i as int, len as int);
        if rest.len() >= 8 {
            assert(rest.subrange(0, 8) =~= url@.subrange(i as int, i + 8));
        }
    }
    String::from_str(url.substring_char(i, len))
}

/// The endpoint that creates a repository for the authenticated GitHub user.
pub const GITHUB_CREATE_REPO_URL: &'static str = "https://api.github.com/user/repos";

/// The client identification that GitHub requires on every call.
pub const USER_AGENT: &'static str = "g2gh-cli/1.0";

/// The media type GitHub answers repository creation with.
pub const GITHUB_ACCEPT: &'static str = "application/vnd.github+json";

/// `https://{host}/git/api/v1/users/{user}/repos`
pub fn gitea_repos_url(host: &str, user: &str) -> (r: String)
    ensures
        r@ == "https://"@ + host@ + "/git/api/v1/users/"@ + user@ + "/repos"@,
{
    String::from_str("https://").concat(host).concat("/git/api/v1/users/").concat(user).concat(
        "/repos",
    )
}

/// `https://{host}/git/api/v1/repos/{user}/{repo}`
pub fn gitea_repo_url(host: &str, user: &str, repo: &str) -> (r: String)
    ensures
        r@ == "https://"@ + host@ + "/git/api/v1/repos/"@ + user@ + "/"@ + repo@,
{
    String::from_str("https://").concat(host).concat("/git/api/v1/repos/").concat(user).concat(
        "/",
    ).concat(repo)
}

/// `https://{host}/git/api/v1/users/{user}/tokens`
pub fn gitea_tokens_url(host: &str, user: &str) -> (r: String)
    ensures
        r@ == "https://"@ + host@ + "/git/api/v1/users/"@ + user@ + "/tokens"@,
{
    String::from_str("https://").concat(host).concat("/git/api/v1/users/").concat(user).concat(
        "/tokens",
    )
}

/// `https://api.github.com/repos/{user}/{repo}`
pub fn github_repo_url(user: &str, repo: &str) -> (r: String)
    ensures
        r@ == "https://api.github.com/repos/"@ + user@ + "/"@ + repo@,
{
    String::from_str("https://api.github.com/repos/").concat(user).concat("/").concat(repo)
}

/// `Bearer {token}`, the value of an `Authorization` header.
pub fn bearer(token: &str) -> (r: String)
    ensures
        r@ == "Bearer "@ + token@,
{
    String::from_str("Bearer ").concat(token)
}

/// The clone URL with the Gitea account and token as its userinfo:
/// `https://{user}:{token}@{clone_url without its scheme}`.
pub fn gitea_clone_url(user: &str, token: &str, clone_url: &str) -> (r: String)
    ensures
        r@ == "https://"@ + user@ + ":"@ + token@ + "@"@ + spec_trim_scheme(clone_url@),
{
    let bare = trim_scheme(clone_url);
    String::from_str("https://").concat(user).concat(":").concat(token).concat("@").concat(
        bare.as_str(),
    )
}

/// The push URL of a GitHub repository with the token as its userinfo:
/// `https://{token}@github.com/{user}/{repo}.git`.
pub fn github_push_url(token: &str, user: &str, repo: &str) -> (r: String)
    ensures
        r@ == "https://"@ + token@ + "@github.com/"@ + user@ + "/"@ + repo@ + ".git"@,
{
    String::from_str("https://").concat(token).concat("@github.com/").concat(user).concat(
        "/",
    ).concat(repo).concat(".git")
}

} // verus!
