use vstd::prelude::*;

use crate::errors::{GiteaError, spec_classify};
use crate::mirror::{Phase, trace, next_phase, action_of};

verus! {

proof fn lemma_trace_unfold(p: Phase, answers: Seq<Option<bool>>)
    requires
        answers.len() > 0,
        !(p is Done),
    ensures
        trace(p, answers) == seq![action_of(next_phase(p, answers[0]))] + trace(
            next_phase(p, answers[0]),
            answers.drop_first(),
        ),
{
}

proof fn lemma_trace_of_done(answers: Seq<Option<bool>>)
    ensures
        trace(Phase::Done, answers).len() == 0,
{
}

/// Past the existence check, no action creates the destination repository.
proof fn lemma_no_create_after_check(p: Phase, answers: Seq<Option<bool>>)
    requires
        !(p is CheckDestination),
    ensures
        forall|i: int|
            0 <= i < trace(p, answers).len() ==> !(#[trigger] trace(p, answers)[i] is CreateRepo),
    decreases answers.len(),
{
    if answers.len() > 0 && !(p is Done) {
        let q = next_phase(p, answers[0]);
        lemma_trace_unfold(p, answers);
        lemma_no_create_after_check(q, answers.drop_first());
    }
}

/// Once the workspace has been asked for, no action asks for it again, and
/// a trace that ends with `Finish` removes the workspace just before.
proof fn lemma_cleanup_before_finish(p: Phase, answers: Seq<Option<bool>>)
    requires
        p is PrepareWorkspace || p is CloneMirror || p is PushMirror,
    ensures
        forall|i: int|
            0 <= i < trace(p, answers).len() ==> !(#[trigger] trace(p, answers)[i] is MakeWorkspace),
        trace(p, answers).len() > 0 && trace(p, answers).last() is Finish ==> trace(
            p,
            answers,
        ).len() >= 2 && trace(p, answers)[trace(p, answers).len() - 2] is RemoveWorkspace,
    decreases answers.len(),
{
    if answers.len() > 0 {
        let q = next_phase(p, answers[0]);
        let rest = answers.drop_first();
        lemma_trace_unfold(p, answers);
        if q is Cleanup {
            if rest.len() > 0 {
                lemma_trace_unfold(q, rest);
                lemma_trace_of_done(rest.drop_first());
            }
        } else {
            lemma_cleanup_before_finish(q, rest);
        }
    }
}

proof fn lemma_made_workspace_is_removed(p: Phase, answers: Seq<Option<bool>>)
    requires
        p is CheckDestination || p is CreateDestination,
    ensures
        ({
            let t = trace(p, answers);
            (t.len() > 0 && t.last() is Finish && exists|i: int|
                0 <= i < t.len() && #[trigger] t[i] is MakeWorkspace) ==> t.len() >= 2
                && t[t.len() - 2] is RemoveWorkspace
        }),
    decreases answers.len(),
{
    let t = trace(p, answers);
    if answers.len() > 0 {
        let q = next_phase(p, answers[0]);
        let rest = answers.drop_first();
        lemma_trace_unfold(p, answers);
        if q is Done {
            lemma_trace_of_done(rest);
        } else if q is CreateDestination {
            lemma_made_workspace_is_removed(q, rest);
            let u = trace(q, rest);
            if t.len() > 0 && t.last() is Finish && exists|i: int|
                0 <= i < t.len() && #[trigger] t[i] is MakeWorkspace {
                let i = choose|i: int| 0 <= i < t.len() && #[trigger] t[i] is MakeWorkspace;
                assert(i > 0);
                assert(u[i - 1] is MakeWorkspace);
            }
        } else {
            lemma_cleanup_before_finish(q, rest);
        }
    }
}

/// Whatever the hosts, the filesystem and git answer, an attempt that made
/// its workspace directory and then reported its outcome removed the
/// directory right before the report.
pub proof fn law_workspace_removed_before_finish(answers: Seq<Option<bool>>)
    ensures
        ({
            let t = trace(Phase::CheckDestination, answers);
            (t.len() > 0 && t.last() is Finish && exists|i: int|
                0 <= i < t.len() && #[trigger] t[i] is MakeWorkspace) ==> t.len() >= 2
                && t[t.len() - 2] is RemoveWorkspace
        }),
{
    lemma_made_workspace_is_removed(Phase::CheckDestination, answers);
}

/// When the destination already has the repository, no action of the
/// attempt creates it.
pub proof fn law_existing_repo_is_not_created(answers: Seq<Option<bool>>)
    requires
        answers.len() > 0,
        answers[0] == Some(true),
    ensures
        forall|i: int|
            0 <= i < trace(Phase::CheckDestination, answers).len() ==> !(#[trigger] trace(
                Phase::CheckDestination,
                answers,
            )[i] is CreateRepo),
{
    lemma_trace_unfold(Phase::CheckDestination, answers);
    lemma_no_create_after_check(Phase::PrepareWorkspace, answers.drop_first());
}

/// When the destination lacks the repository, the action right after the
/// check creates it, and no later action creates it again; clone and push
/// come after it.
pub proof fn law_missing_repo_is_created_once(answers: Seq<Option<bool>>)
    requires
        answers.len() > 0,
        answers[0] == Some(false),
    ensures
        ({
            let t = trace(Phase::CheckDestination, answers);
            &&& t[0] is CreateRepo
            &&& forall|i: int| 0 < i < t.len() ==> !(#[trigger] t[i] is CreateRepo)
            &&& forall|i: int| 0 <= i < t.len() && (#[trigger] t[i] is Clone || t[i] is Push) ==> 0 < i
        }),
{
    lemma_trace_unfold(Phase::CheckDestination, answers);
    lemma_no_create_after_check(Phase::CreateDestination, answers.drop_first());
}

/// A failed call with status 401 is an authentication failure, one with
/// status 404 a missing resource, and one without a status (refused
/// connection, failed name lookup) a network failure.
pub proof fn law_failure_kinds(message: String)
    ensures
        spec_classify(Some(401u16), message) == GiteaError::AuthError(message),
        spec_classify(Some(404u16), message) == GiteaError::NotFound(message),
        spec_classify(None, message) == GiteaError::NetworkError(message),
{
}

} // verus!
