use vstd::prelude::*;
use vstd::string::StringExecFns;

use crate::errors::GiteaError;
use crate::urls::{gitea_clone_url, github_push_url, spec_trim_scheme};

verus! {

/// How a mirror attempt is reported. An attempt that completes is a
/// `Success`, whether or not the destination existed; `AlreadyExists` is the
/// label a caller gives a success whose destination was already there
/// (see `MirrorJob::report_label`). Both transfer all refs.
#[derive(Debug, PartialEq, Eq, Structural, Clone, Copy)]
pub enum MirrorResult {
    Success,
    AlreadyExists,
}

/// Where a mirror attempt stands.
#[derive(Debug, PartialEq, Eq, Structural, Clone, Copy)]
pub enum Phase {
    /// Waiting for whether the destination repository exists.
    CheckDestination,
    /// Waiting for the destination repository to be created.
    CreateDestination,
    /// Waiting for the workspace directory to be made.
    PrepareWorkspace,
    /// Waiting for the mirror clone to exit.
    CloneMirror,
    /// Waiting for the mirror push to exit.
    PushMirror,
    /// Waiting for the workspace directory to be removed.
    Cleanup,
    /// The outcome has been reported.
    Done,
}

/// What the driver of a mirror attempt must do next. Each action but
/// `Finish` is answered with a reply to `MirrorJob::advance`; an `Err` reply
/// says that the action itself failed.
#[derive(Debug, PartialEq, Eq, Structural, Clone, Copy)]
pub enum MirrorAction {
    /// Ask the destination whether `repo_name` exists; reply `Ok(exists)`.
    CheckExists,
    /// Create `repo_name` on the destination with visibility `is_private`;
    /// reply `Ok(_)` once it is created.
    CreateRepo,
    /// Make the workspace directory named after `repo_name` under the
    /// workspace root; reply `Ok(_)` once it is there.
    MakeWorkspace,
    /// Run a mirror clone of `clone_url` into the workspace; reply
    /// `Ok(exited_successfully)`.
    Clone,
    /// Run a mirror push to `push_url` from the workspace; reply
    /// `Ok(exited_successfully)`.
    Push,
    /// Remove the workspace directory; reply `Ok(_)` once it is gone.
    RemoveWorkspace,
    /// The attempt is over; its outcome is in `outcome`.
    Finish,
}

/// One attempt to mirror a Gitea repository into a GitHub repository of the
/// same name. The first action of every attempt is `CheckExists`.
#[derive(Debug)]
pub struct MirrorJob {
    /// The repository's name, on both hosts and as the workspace directory.
    pub repo_name: String,
    /// Visibility given to the destination repository if it is created.
    pub is_private: bool,
    /// The source clone URL as the source host lists it.
    pub source_url: String,
    /// The source clone URL with the Gitea credentials as its userinfo.
    pub clone_url: String,
    /// The destination push URL with the GitHub token as its userinfo.
    pub push_url: String,
    /// The destination repository's URL without credentials.
    pub push_target: String,
    pub phase: Phase,
    /// Whether the destination repository existed before this attempt.
    pub existed: bool,
    /// The failure to report once the workspace has been removed.
    pub failure: Option<GiteaError>,
    /// The outcome, once the attempt is over.
    pub outcome: Option<Result<MirrorResult, GiteaError>>,
}

pub open spec fn clone_failed_text(source_url: Seq<char>) -> Seq<char> {
    "Clone from Gitea failed: "@ + source_url
}

pub open spec fn push_failed_text(target: Seq<char>) -> Seq<char> {
    "Push to GitHub failed: "@ + target
}

/// What the protocol reads of a reply: `None` for a failed action, else the
/// answer.
pub open spec fn answer(reply: Result<bool, GiteaError>) -> Option<bool> {
    match reply {
        Ok(b) => Some(b),
        Err(_) => None,
    }
}

/// The phase after `answer` arrives in phase `p`.
pub open spec fn next_phase(p: Phase, answer: Option<bool>) -> Phase {
    match p {
        Phase::CheckDestination => match answer {
            None => Phase::Done,
            Some(true) => Phase::PrepareWorkspace,
            Some(false) => Phase::CreateDestination,
        },
        Phase::CreateDestination => match answer {
            None => Phase::Done,
            Some(_) => Phase::PrepareWorkspace,
        },
        Phase::PrepareWorkspace => match answer {
            Some(_) => Phase::CloneMirror,
            None => Phase::Cleanup,
        },
        Phase::CloneMirror => match answer {
            Some(true) => Phase::PushMirror,
            _ => Phase::Cleanup,
        },
        Phase::PushMirror => Phase::Cleanup,
        Phase::Cleanup => Phase::Done,
        Phase::Done => Phase::Done,
    }
}

/// The action asked for on entering phase `p`.
pub open spec fn action_of(p: Phase) -> MirrorAction {
    match p {
        Phase::CheckDestination => MirrorAction::CheckExists,
        Phase::CreateDestination => MirrorAction::CreateRepo,
        Phase::PrepareWorkspace => MirrorAction::MakeWorkspace,
        Phase::CloneMirror => MirrorAction::Clone,
        Phase::PushMirror => MirrorAction::Push,
        Phase::Cleanup => MirrorAction::RemoveWorkspace,
        Phase::Done => MirrorAction::Finish,
    }
}

/// The outcome reported once the workspace is gone: the earlier failure if
/// there was one, else the failure to remove it, else `Success`.
pub open spec fn spec_outcome(
    failure: Option<GiteaError>,
    removal: Result<bool, GiteaError>,
) -> Result<MirrorResult, GiteaError> {
    match failure {
        Some(e) => Err(e),
        None => match removal {
            Err(e) => Err(e),
            Ok(_) => Ok(MirrorResult::Success),
        },
    }
}

/// The actions asked for when `answers` arrive one by one from phase `p`,
/// up to the first `Finish`.
pub open spec fn trace(p: Phase, answers: Seq<Option<bool>>) -> Seq<MirrorAction>
    decreases answers.len(),
{
    if answers.len() == 0 || p is Done {
        Seq::empty()
    } else {
        let q = next_phase(p, answers[0]);
        seq![action_of(q)] + trace(q, answers.drop_first())
    }
}

impl MirrorJob {
    /// The job's invariant: an outcome is there exactly when the attempt is
    /// over, and a pending failure only while the workspace is removed.
    pub open spec fn wf(&self) -> bool {
        &&& (self.phase is Done) == (self.outcome is Some)
        &&& self.failure is Some ==> self.phase is Cleanup
    }

    /// A job for repository `repo_name`, listed on the source with clone URL
    /// `source_url`, that uses the given accounts and tokens of both hosts.
    pub fn new(
        gitea_user: &str,
        gitea_token: &str,
        github_user: &str,
        github_token: &str,
        source_url: &str,
        repo_name: &str,
        is_private: bool,
    ) -> (r: MirrorJob)
        ensures
            r.wf(),
            r.phase is CheckDestination,
            r.repo_name@ == repo_name@,
            r.is_private == is_private,
            r.source_url@ == source_url@,
            r.clone_url@ == "https://"@ + gitea_user@ + ":"@ + gitea_token@ + "@"@
                + spec_trim_scheme(source_url@),
            r.push_url@ == "https://"@ + github_token@ + "@github.com/"@ + github_user@ + "/"@
                + repo_name@ + ".git"@,
            r.push_target@ == "https://github.com/"@ + github_user@ + "/"@ + repo_name@ + ".git"@,
            r.failure is None,
    {
        MirrorJob {
            repo_name: String::from_str(repo_name),
            is_private,
            source_url: String::from_str(source_url),
            clone_url: gitea_clone_url(gitea_user, gitea_token, source_url),
            push_url: github_push_url(github_token, github_user, repo_name),
            push_target: String::from_str("https://github.com/").concat(github_user).concat(
                "/",
            ).concat(repo_name).concat(".git"),
            phase: Phase::CheckDestination,
            existed: false,
            failure: None,
            outcome: None,
        }
    }

    /// Hands the job the reply to its pending action and returns the next
    /// action. Clone and push failures are held until the workspace is
    /// removed, so that every attempt that made a workspace removes it.
    pub fn advance(&mut self, reply: Result<bool, GiteaError>) -> (r: MirrorAction)
        requires
            old(self).wf(),
            !(old(self).phase is Done),
        ensures
            final(self).wf(),
            final(self).phase == next_phase(old(self).phase, answer(reply)),
            r == action_of(final(self).phase),
            final(self).repo_name == old(self).repo_name,
            final(self).is_private == old(self).is_private,
            final(self).source_url == old(self).source_url,
            final(self).clone_url == old(self).clone_url,
            final(self).push_url == old(self).push_url,
            final(self).push_target == old(self).push_target,
            final(self).existed == (match (old(self).phase, reply) {
                (Phase::CheckDestination, Ok(b)) => b,
                _ => old(self).existed,
            }),
            final(self).phase is Cleanup ==> (match (old(self).phase, reply) {
                (Phase::CloneMirror, Ok(false)) => final(self).failure matches Some(
                    GiteaError::GitError(m),
                ) && m@ == clone_failed_text(old(self).source_url@),
                (Phase::PushMirror, Ok(false)) => final(self).failure matches Some(
                    GiteaError::GitError(m),
                ) && m@ == push_failed_text(old(self).push_target@),
                (_, Err(e)) => final(self).failure == Some(e),
                _ => final(self).failure is None,
            }),
            final(self).phase is Done ==> final(self).outcome == Some(
                match old(self).phase {
                    Phase::Cleanup => spec_outcome(old(self).failure, reply),
                    _ => Err(reply.get_Err_0()),
                },
            ),
    {
        let phase = match self.phase {
            Phase::CheckDestination => match reply {
                Err(e) => {
                    self.outcome = Some(Err(e));
                    Phase::Done
                },
                Ok(b) => {
                    self.existed = b;
                    if b {
                        Phase::PrepareWorkspace
                    } else {
                        Phase::CreateDestination
                    }
                },
            },
            Phase::CreateDestination => match reply {
                Err(e) => {
                    self.outcome = Some(Err(e));
                    Phase::Done
                },
                Ok(_) => Phase::PrepareWorkspace,
            },
            Phase::PrepareWorkspace => match reply {
                Err(e) => {
                    self.failure = Some(e);
                    Phase::Cleanup
                },
                Ok(_) => Phase::CloneMirror,
            },
            Phase::CloneMirror => match reply {
                Err(e) => {
                    self.failure = Some(e);
                    Phase::Cleanup
                },
                Ok(true) => Phase::PushMirror,
                Ok(false) => {
                    let text = String::from_str("Clone from Gitea failed: ").concat(
                        self.source_url.as_str(),
                    );
                    self.failure = Some(GiteaError::GitError(text));
                    Phase::Cleanup
                },
            },
            Phase::PushMirror => match reply {
                Err(e) => {
                    self.failure = Some(e);
                    Phase::Cleanup
                },
                Ok(true) => Phase::Cleanup,
                Ok(false) => {
                    let text = String::from_str("Push to GitHub failed: ").concat(
                        self.push_target.as_str(),
                    );
                    self.failure = Some(GiteaError::GitError(text));
                    Phase::Cleanup
                },
            },
            _ => {
                let failure = self.failure.take();
                let outcome = match failure {
                    Some(e) => Err(e),
                    None => match reply {
                        Err(e) => Err(e),
                        Ok(_) => Ok(MirrorResult::Success),
                    },
                };
                self.outcome = Some(outcome);
                Phase::Done
            },
        };
        self.phase = phase;
        match self.phase {
            Phase::CheckDestination => MirrorAction::CheckExists,
            Phase::CreateDestination => MirrorAction::CreateRepo,
            Phase::PrepareWorkspace => MirrorAction::MakeWorkspace,
            Phase::CloneMirror => MirrorAction::Clone,
            Phase::PushMirror => MirrorAction::Push,
            Phase::Cleanup => MirrorAction::RemoveWorkspace,
            Phase::Done => MirrorAction::Finish,
        }
    }

    /// How a successful attempt is counted in a run summary:
    /// `AlreadyExists` when the destination was there before, else `Success`.
    pub fn report_label(&self) -> (r: MirrorResult)
        ensures
            r == (if self.existed { MirrorResult::AlreadyExists } else { MirrorResult::Success }),
    {
        if self.existed {
            MirrorResult::AlreadyExists
        } else {
            MirrorResult::Success
        }
    }

    /// The outcome of an attempt that is over.
    pub fn into_outcome(self) -> (r: Result<MirrorResult, GiteaError>)
        requires
            self.wf(),
            self.phase is Done,
        ensures
            Some(r) == self.outcome,
    {
        match self.outcome {
            Some(o) => o,
            None => Err(GiteaError::MissingArguments),
        }
    }
}

} // verus!
