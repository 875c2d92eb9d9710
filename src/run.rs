use vstd::prelude::*;

use crate::errors::GiteaError;
use crate::mirror::MirrorResult;

verus! {

/// What one invocation of the migrator does.
#[derive(Debug, PartialEq, Eq)]
pub enum RunPlan {
    /// Print the Gitea token of the host, creating one if none is stored.
    ShowToken { gitea_url: String },
    /// Migrate every repository of the account.
    MigrateAll { gitea_url: String, gitea_name: String },
    /// Migrate the one named repository of the account.
    MigrateOne { gitea_url: String, gitea_name: String, repo_name: String },
}

/// Decides what to do from the command-line values: showing the token wins;
/// otherwise the host and the account are both needed, and then either the
/// whole account or one named repository.
pub fn plan_run(
    show_token: Option<String>,
    gitea_url: Option<String>,
    gitea_name: Option<String>,
    all_repos: bool,
    single_repo: Option<String>,
) -> (r: Result<RunPlan, GiteaError>)
    ensures
        show_token matches Some(u) ==> r == Ok::<RunPlan, GiteaError>(
            RunPlan::ShowToken { gitea_url: u },
        ),
        show_token is None && (gitea_url is None || gitea_name is None) ==> r matches Err(
            GiteaError::MissingArguments,
        ),
        show_token is None && gitea_url is Some && gitea_name is Some && all_repos ==> r == Ok::<
            RunPlan,
            GiteaError,
        >(
            RunPlan::MigrateAll {
                gitea_url: gitea_url.unwrap(),
                gitea_name: gitea_name.unwrap(),
            },
        ),
        show_token is None && gitea_url is Some && gitea_name is Some && !all_repos
            && single_repo is Some ==> r == Ok::<RunPlan, GiteaError>(
            RunPlan::MigrateOne {
                gitea_url: gitea_url.unwrap(),
                gitea_name: gitea_name.unwrap(),
                repo_name: single_repo.unwrap(),
            },
        ),
        show_token is None && !all_repos && single_repo is None ==> r matches Err(
            GiteaError::MissingArguments,
        ),
{
    if let Some(u) = show_token {
        return Ok(RunPlan::ShowToken { gitea_url: u });
    }
    let url = match gitea_url {
        Some(u) => u,
        None => return Err(GiteaError::MissingArguments),
    };
    let name = match gitea_name {
        Some(n) => n,
        None => return Err(GiteaError::MissingArguments),
    };
    if all_repos {
        Ok(RunPlan::MigrateAll { gitea_url: url, gitea_name: name })
    } else {
        match single_repo {
            Some(repo) => Ok(RunPlan::MigrateOne { gitea_url: url, gitea_name: name, repo_name: repo }),
            None => Err(GiteaError::MissingArguments),
        }
    }
}

/// How many of `results` are `Success`.
pub open spec fn count_migrated(results: Seq<MirrorResult>) -> nat
    decreases results.len(),
{
    if results.len() == 0 {
        0
    } else {
        count_migrated(results.drop_last()) + if results.last() is Success {
            1nat
        } else {
            0nat
        }
    }
}

/// How many of `results` are `AlreadyExists`.
pub open spec fn count_existing(results: Seq<MirrorResult>) -> nat
    decreases results.len(),
{
    if results.len() == 0 {
        0
    } else {
        count_existing(results.drop_last()) + if results.last() is AlreadyExists {
            1nat
        } else {
            0nat
        }
    }
}

/// The run summary: how many repositories were migrated into new
/// destination repositories, and how many already existed there.
pub fn tally(results: &Vec<MirrorResult>) -> (r: (usize, usize))
    ensures
        r.0 == count_migrated(results@),
        r.1 == count_existing(results@),
        r.0 + r.1 == results@.len(),
{
    let mut migrated: usize = 0;
    let mut skipped: usize = 0;
    let mut i: usize = 0;
    while i < results.len()
        invariant
            i <= results@.len(),
            migrated == count_migrated(results@.take(i as int)),
            skipped == count_existing(results@.take(i as int)),
            migrated + skipped == i,
        decreases results@.len() - i,
    {
        assert(results@.take(i + 1).drop_last() =~= results@.take(i as int));
        match results[i] {
            MirrorResult::Success => migrated = migrated + 1,
            MirrorResult::AlreadyExists => skipped = skipped + 1,
        }
        i = i + 1;
    }
    assert(results@.take(i as int) =~= results@);
    (migrated, skipped)
}

} // verus!
