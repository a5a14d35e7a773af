//! Rebases exchange by exchange: what is asked for next, and what leads to which end.

use crate::effect::{answers, EffectOf, EffectView, Progress, ReplyOf, ReplyView};
use crate::error::WorkflowErrorOf;
use crate::paths::PathView;
use crate::rebase::{
    rebase_after, rebase_effect, RebaseRequestView, RebaseStateOf, RebaseStateView, RebasingView,
};
use crate::rebase_laws::rebase_workflow;
use crate::run::{stands_at, Exchange};
use crate::text::trimmed;
use crate::workspace::workspace_named;
use vstd::prelude::*;

verus! {

/// Whether a history begins with a listing of the workspaces by which the name that was asked for
/// stands for the workspace at `path` with `branch`.
pub open spec fn begins_with<E>(
    request: RebaseRequestView,
    path: PathView,
    branch: Seq<char>,
    past: Seq<Exchange<E>>,
) -> bool {
    &&& past.len() > 0
    &&& past[0].0 == EffectView::ListWorkspaces { dir: request.cwd }
    &&& past[0].1 matches ReplyOf::Workspaces { entries }
    &&& workspace_named(entries, request.name) == Some((path, branch))
}

/// Whether `main_branch` is the main branch: the configured one, else the one that the second
/// and third exchanges found in the main worktree.
pub open spec fn main_branch_is<E>(
    request: RebaseRequestView,
    path: PathView,
    main_branch: Seq<char>,
    past: Seq<Exchange<E>>,
) -> bool {
    match request.main_branch {
        Some(configured) => main_branch == configured,
        None => {
            &&& past.len() >= 3
            &&& past[1].0 == EffectView::MainWorktreeRoot { dir: path }
            &&& past[1].1 matches ReplyOf::Path { value: root }
            &&& past[2] == (
                EffectView::DefaultBranch { dir: root },
                ReplyView::<E>::Text { value: main_branch },
            )
        },
    }
}

/// How many exchanges find the workspace and the main branch.
pub open spec fn opening(request: RebaseRequestView) -> int {
    if request.main_branch is Some {
        1
    } else {
        3
    }
}

/// Whether the first `n` exchanges settle the two sides of a rebase: after the opening the
/// recorded base is read and, if there is one, looked up. The base is the recorded one if it
/// exists, else the main branch.
pub open spec fn settled<E>(
    request: RebaseRequestView,
    rebasing: RebasingView,
    main_branch: Seq<char>,
    n: int,
    past: Seq<Exchange<E>>,
) -> bool {
    let k = opening(request);
    let path = rebasing.path;
    &&& begins_with(request, path, rebasing.branch, past)
    &&& main_branch_is(request, path, main_branch, past)
    &&& k < n <= past.len()
    &&& past[k].0 == EffectView::BranchBase { branch: rebasing.branch, dir: path }
    &&& match past[k].1 {
        ReplyOf::Name { value: None } => n == k + 1 && rebasing.base == main_branch,
        ReplyOf::Name { value: Some(recorded) } => {
            &&& n == k + 2
            &&& past[k + 1].0 == EffectView::LocalBranchExists { branch: recorded, dir: path }
            &&& past[k + 1].1 matches ReplyOf::Flag { value }
            &&& rebasing.base == if value {
                recorded
            } else {
                main_branch
            }
        },
        _ => false,
    }
}

/// Whether the exchange at position `n` finds out that the base exists.
pub open spec fn base_found_at<E>(
    rebasing: RebasingView,
    n: int,
    past: Seq<Exchange<E>>,
) -> bool {
    &&& rebasing.branch != rebasing.base
    &&& stands_at(
        past,
        n,
        (
            EffectOf::LocalBranchExists { branch: rebasing.base, dir: rebasing.path },
            ReplyOf::Flag { value: true },
        ),
    )
}

/// The announcement of a rebase.
pub open spec fn announcement(rebasing: RebasingView) -> EffectView {
    EffectOf::Print {
        text: "Rebasing '"@ + rebasing.branch + "' onto '"@ + rebasing.base + "'..."@,
    }
}

/// The rebase itself in a jj repository.
pub open spec fn jj_rebase(rebasing: RebasingView) -> EffectView {
    EffectOf::RunJj {
        dir: rebasing.path,
        args: seq![
            "--no-pager"@,
            "--color=never"@,
            "--ignore-immutable"@,
            "rebase"@,
            "-d"@,
            "bookmarks(exact:"@ + rebasing.base + ")"@,
        ],
    }
}

/// The conflict check after a rebase in a jj repository.
pub open spec fn jj_check(rebasing: RebasingView) -> EffectView {
    EffectOf::RunJj {
        dir: rebasing.path,
        args: seq![
            "--no-pager"@,
            "--color=never"@,
            "--ignore-working-copy"@,
            "log"@,
            "--no-graph"@,
            "-r"@,
            "@"@,
            "-T"@,
            "if(conflict,\"1\",\"0\")"@,
        ],
    }
}

/// Whether a command succeeded.
pub open spec fn succeeded<E>(reply: ReplyView<E>) -> bool {
    reply matches ReplyOf::Output { success, .. } && success
}

/// Whether the exchanges from position `n` on are the lookup of the base, the announcement and
/// the rebase, all of which went well, up to position `end`.
pub open spec fn rebased_between<E>(
    request: RebaseRequestView,
    rebasing: RebasingView,
    n: int,
    end: int,
    past: Seq<Exchange<E>>,
) -> bool {
    &&& base_found_at(rebasing, n, past)
    &&& stands_at(past, n + 1, (announcement(rebasing), ReplyOf::Done))
    &&& end <= past.len()
    &&& if request.backend == "jj"@ {
        &&& end == n + 4
        &&& past[n + 2].0 == jj_rebase(rebasing)
        &&& succeeded(past[n + 2].1)
        &&& past[n + 3].0 == jj_check(rebasing)
        &&& past[n + 3].1 matches ReplyOf::Output { success, stdout, .. }
        &&& success
        &&& trimmed(stdout) != "1"@
    } else {
        &&& end == n + 3
        &&& past[n + 2] == (
            EffectView::RebaseGit { dir: rebasing.path, base: rebasing.base },
            ReplyView::<E>::Done,
        )
    }
}

spec fn went_so_far<E>(
    request: RebaseRequestView,
    state: RebaseStateView,
    main: Seq<char>,
    n: int,
    past: Seq<Exchange<E>>,
) -> bool {
    match state {
        RebaseStateOf::ListingWorkspaces => past.len() == 0,
        RebaseStateOf::FindingMainRoot { path, branch } => {
            &&& begins_with(request, path, branch, past)
            &&& request.main_branch is None
            &&& past.len() == 1
        },
        RebaseStateOf::FindingDefaultBranch { path, branch, root } => {
            &&& begins_with(request, path, branch, past)
            &&& request.main_branch is None
            &&& past.len() == 2
            &&& past[1] == (
                EffectView::MainWorktreeRoot { dir: path },
                ReplyView::<E>::Path { value: root },
            )
        },
        RebaseStateOf::ReadingBase { path, branch, main_branch } => {
            &&& begins_with(request, path, branch, past)
            &&& main_branch_is(request, path, main_branch, past)
            &&& past.len() == opening(request)
        },
        RebaseStateOf::CheckingRecordedBase { path, branch, main_branch, recorded } => {
            &&& begins_with(request, path, branch, past)
            &&& main_branch_is(request, path, main_branch, past)
            &&& past.len() == opening(request) + 1
            &&& past[opening(request)] == (
                EffectView::BranchBase { branch, dir: path },
                ReplyView::<E>::Name { value: Some(recorded) },
            )
        },
        RebaseStateOf::CheckingBase { rebasing } => {
            &&& settled(request, rebasing, main, n, past)
            &&& rebasing.branch != rebasing.base
            &&& past.len() == n
        },
        RebaseStateOf::Announcing { rebasing } => {
            &&& settled(request, rebasing, main, n, past)
            &&& base_found_at(rebasing, n, past)
            &&& past.len() == n + 1
        },
        RebaseStateOf::RebasingJj { rebasing } => {
            &&& settled(request, rebasing, main, n, past)
            &&& base_found_at(rebasing, n, past)
            &&& stands_at(past, n + 1, (announcement(rebasing), ReplyOf::Done))
            &&& request.backend == "jj"@
            &&& past.len() == n + 2
        },
        RebaseStateOf::CheckingConflicts { rebasing } => {
            &&& settled(request, rebasing, main, n, past)
            &&& base_found_at(rebasing, n, past)
            &&& stands_at(past, n + 1, (announcement(rebasing), ReplyOf::Done))
            &&& request.backend == "jj"@
            &&& past.len() == n + 3
            &&& past[n + 2].0 == jj_rebase(rebasing)
            &&& succeeded(past[n + 2].1)
        },
        RebaseStateOf::RebasingGit { rebasing } => {
            &&& settled(request, rebasing, main, n, past)
            &&& base_found_at(rebasing, n, past)
            &&& stands_at(past, n + 1, (announcement(rebasing), ReplyOf::Done))
            &&& request.backend != "jj"@
            &&& past.len() == n + 2
        },
        RebaseStateOf::Confirming { rebasing } => {
            &&& settled(request, rebasing, main, n, past)
            &&& rebased_between(request, rebasing, n, past.len() as int, past)
        },
    }
}

/// What is known where a rebase waits for a reply stays known after the reply.
proof fn went_step<E>(
    request: RebaseRequestView,
    state: RebaseStateView,
    reply: ReplyView<E>,
    main: Seq<char>,
    n: int,
    past: Seq<Exchange<E>>,
) -> (settlement: (Seq<char>, int))
    requires
        answers(rebase_effect(request, state), reply),
        went_so_far(request, state, main, n, past),
    ensures
        rebase_after(request, state, reply) matches Progress::Awaiting(next) ==> went_so_far(
            request,
            next,
            settlement.0,
            settlement.1,
            past.push((rebase_effect(request, state), reply)),
        ),
{
    let now = past.push((rebase_effect(request, state), reply));
    let k = opening(request);
    match state {
        RebaseStateOf::ReadingBase { path, branch, main_branch } => {
            let rebasing = RebasingView { path, branch, base: main_branch };
            if let ReplyOf::Name { value } = reply {
                if value is None {
                    assert(settled(request, rebasing, main_branch, k + 1, now));
                    assert(past.len() + 1 == k + 1);
                }
            }
            (main_branch, k + 1)
        },
        RebaseStateOf::CheckingRecordedBase { path, branch, main_branch, recorded } => {
            if let ReplyOf::Flag { value } = reply {
                let base = if value {
                    recorded
                } else {
                    main_branch
                };
                let rebasing = RebasingView { path, branch, base };
                assert(settled(request, rebasing, main_branch, k + 2, now));
            }
            (main_branch, k + 2)
        },
        RebaseStateOf::RebasingJj { rebasing } => {
            assert(rebase_effect(request, state) == jj_rebase(rebasing));
            (main, n)
        },
        RebaseStateOf::CheckingConflicts { rebasing } => {
            assert(rebase_effect(request, state) == jj_check(rebasing));
            (main, n)
        },
        _ => (main, n),
    }
}

proof fn went_holds<E>(request: RebaseRequestView, replies: Seq<ReplyView<E>>) -> (settlement: (
    Seq<char>,
    int,
))
    requires
        rebase_workflow(request).is_run(replies),
    ensures
        rebase_workflow(request).standing(replies) matches Progress::Awaiting(state)
            ==> went_so_far(
            request,
            state,
            settlement.0,
            settlement.1,
            rebase_workflow(request).history(replies),
        ),
    decreases replies.len(),
{
    let flow = rebase_workflow::<E>(request);
    if replies.len() > 0 {
        let (main, n) = went_holds(request, replies.drop_last());
        let state = flow.standing(replies.drop_last())->Awaiting_0;
        let past = flow.history(replies.drop_last());
        assert(flow.history(replies) == past.push((rebase_effect(request, state), replies.last())));
        assert(flow.standing(replies) == rebase_after(request, state, replies.last()));
        went_step(request, state, replies.last(), main, n, past)
    } else {
        (Seq::empty(), 0)
    }
}

/// Once its two sides are settled and differ, a rebase goes on: it looks the base up, announces
/// itself once the base is found, whether or not a main branch is configured, then rebases by the
/// means of the backend.
pub proof fn settled_rebase_goes_on<E>(
    request: RebaseRequestView,
    rebasing: RebasingView,
    main_branch: Seq<char>,
    n: int,
    replies: Seq<ReplyView<E>>,
)
    requires
        rebase_workflow(request).is_run(replies),
        settled(request, rebasing, main_branch, n, rebase_workflow(request).history(replies)),
        rebasing.branch != rebasing.base,
    ensures
        ({
            let flow = rebase_workflow::<E>(request);
            let past = flow.history(replies);
            let next = flow.asks(replies);
            &&& past.len() == n ==> next == Some(
                EffectView::LocalBranchExists { branch: rebasing.base, dir: rebasing.path },
            )
            &&& past.len() == n + 1 && base_found_at(rebasing, n, past) ==> next == Some(
                announcement(rebasing),
            )
            &&& past.len() == n + 2 && request.backend == "jj"@ ==> next == Some(
                jj_rebase(rebasing),
            )
            &&& past.len() == n + 2 && request.backend != "jj"@ ==> next == Some(
                EffectView::RebaseGit { dir: rebasing.path, base: rebasing.base },
            )
            &&& past.len() == n + 3 && request.backend == "jj"@ && succeeded(past[n + 2].1)
                ==> next == Some(jj_check(rebasing))
            &&& rebased_between(request, rebasing, n, past.len() as int, past) ==> next == Some(
                EffectView::Print {
                    text: "✓ Rebased '"@ + rebasing.branch + "' onto '"@ + rebasing.base + "'"@,
                },
            )
        }),
{
    let flow = rebase_workflow::<E>(request);
    let past = flow.history(replies);
    went_holds(request, replies);
    if replies.len() > 0 {
        let (main, m) = went_holds(request, replies.drop_last());
        let state = flow.standing(replies.drop_last())->Awaiting_0;
        let before = flow.history(replies.drop_last());
        assert(past == before.push((rebase_effect(request, state), replies.last())));
        assert(flow.standing(replies) == rebase_after(request, state, replies.last()));
        went_step(request, state, replies.last(), main, m, before);
        assert(past.last() == (rebase_effect(request, state), replies.last()));
        assert(jj_rebase(rebasing)->args =~= crate::rebase::jj_rebase_line(rebasing.base));
        assert(jj_check(rebasing)->args =~= crate::jj::conflict_check_line("@"@));
    }
}

/// A rebase that succeeds has settled its two sides, found the base, announced and carried out
/// the rebase by the means of the backend, and said so, and has done nothing else.
pub proof fn success_takes_every_step<E>(request: RebaseRequestView, replies: Seq<ReplyView<E>>)
    requires
        rebase_workflow(request).is_run(replies),
        rebase_workflow(request).standing(replies) matches Progress::Finished(Ok(_)),
    ensures
        ({
            let past = rebase_workflow::<E>(request).history(replies);
            exists|rebasing: RebasingView, main_branch: Seq<char>, n: int|
                #![trigger settled(request, rebasing, main_branch, n, past)]
                {
                    &&& settled(request, rebasing, main_branch, n, past)
                    &&& rebased_between(request, rebasing, n, past.len() - 1, past)
                    &&& past.last() == (
                        EffectView::Print {
                            text: "✓ Rebased '"@ + rebasing.branch + "' onto '"@ + rebasing.base
                                + "'"@,
                        },
                        ReplyView::<E>::Done,
                    )
                }
        }),
{
    let flow = rebase_workflow::<E>(request);
    let (main, n) = went_holds(request, replies.drop_last());
    let state = flow.standing(replies.drop_last())->Awaiting_0;
    let before = flow.history(replies.drop_last());
    let past = flow.history(replies);
    assert(past == before.push((rebase_effect(request, state), replies.last())));
    assert(flow.standing(replies) == rebase_after(request, state, replies.last()));
    if let RebaseStateOf::Confirming { rebasing } = state {
        assert(settled(request, rebasing, main, n, past));
        assert(rebased_between(request, rebasing, n, before.len() as int, past));
    }
}

/// Whether a rebase that failed with `error` had the reason for it that the history shows: in its
/// last exchange, or in the settlement of its two sides.
pub open spec fn reason_for<E>(
    request: RebaseRequestView,
    error: crate::error::WorkflowErrorView<E>,
    past: Seq<Exchange<E>>,
) -> bool {
    let (effect, reply) = past.last();
    match error {
        WorkflowErrorOf::WorktreeNotFound { name } => {
            &&& name == request.name
            &&& past.len() == 1
            &&& effect == EffectView::ListWorkspaces { dir: request.cwd }
            &&& match reply {
                ReplyOf::Workspaces { entries } => workspace_named(entries, name) is None,
                ReplyOf::Failed { .. } => true,
                _ => false,
            }
        },
        WorkflowErrorOf::External { cause } => {
            &&& effect is LocalBranchExists
            &&& reply == ReplyView::<E>::Failed { cause }
        },
        WorkflowErrorOf::Context { context, cause } => {
            &&& reply == ReplyView::<E>::Failed { cause }
            &&& match effect {
                EffectOf::MainWorktreeRoot { .. } => context
                    == "Could not find the main worktree"@,
                EffectOf::DefaultBranch { .. } => context == "Failed to determine the main branch"@,
                EffectOf::RunJj { .. } => if past[past.len() - 2].0 is Print {
                    context == "Failed to execute jj rebase"@
                } else {
                    context == "Failed to inspect jj rebase result"@
                },
                EffectOf::RebaseGit { dir, .. } => context
                    == "Rebase failed, likely due to conflicts.\n\nPlease resolve them manually inside the worktree at '"@
                    + dir.text
                    + "'.\nThen, run 'git rebase --continue' to proceed or 'git rebase --abort' to cancel."@,
                _ => false,
            }
        },
        WorkflowErrorOf::RebaseOntoItself { branch } => exists|
            rebasing: RebasingView,
            main_branch: Seq<char>,
            n: int,
        |
            {
                &&& #[trigger] settled(request, rebasing, main_branch, n, past)
                &&& past.len() == n
                &&& rebasing.branch == branch
                &&& rebasing.base == branch
            },
        WorkflowErrorOf::NoBaseBranch { branch } => exists|
            rebasing: RebasingView,
            main_branch: Seq<char>,
            n: int,
        |
            {
                &&& #[trigger] settled(request, rebasing, main_branch, n, past)
                &&& past.len() == n + 1
                &&& rebasing.base == branch
                &&& rebasing.branch != branch
                &&& effect == EffectView::LocalBranchExists { branch, dir: rebasing.path }
                &&& reply == ReplyView::<E>::Flag { value: false }
            },
        WorkflowErrorOf::CommandFailed { command, stderr } => {
            &&& effect is RunJj
            &&& reply matches ReplyOf::Output { success, stderr: said, .. }
            &&& !success
            &&& said == stderr
            &&& if past[past.len() - 2].0 is Print {
                command == "jj rebase"@
            } else {
                command == "jj log"@
            }
        },
        WorkflowErrorOf::RebaseConflict { workspace } => exists|
            rebasing: RebasingView,
            main_branch: Seq<char>,
            n: int,
        |
            {
                &&& #[trigger] settled(request, rebasing, main_branch, n, past)
                &&& past.len() == n + 4
                &&& past[n + 2].0 == jj_rebase(rebasing)
                &&& succeeded(past[n + 2].1)
                &&& effect == jj_check(rebasing)
                &&& reply matches ReplyOf::Output { success, stdout, .. }
                &&& success
                &&& trimmed(stdout) == "1"@
                &&& workspace == rebasing.path.text
            },
        _ => false,
    }
}

/// A rebase fails for the reason that its error names, and only for that: among others, it says
/// that there is no base branch only after a lookup of that very branch was answered with no.
pub proof fn failures_have_their_reasons<E>(
    request: RebaseRequestView,
    replies: Seq<ReplyView<E>>,
)
    requires
        rebase_workflow(request).is_run(replies),
    ensures
        rebase_workflow(request).standing(replies) matches Progress::Finished(Err(error))
            ==> reason_for(request, error, rebase_workflow(request).history(replies)),
{
    let flow = rebase_workflow::<E>(request);
    if replies.len() > 0 && flow.standing(replies) is Finished {
        let (main, n) = went_holds(request, replies.drop_last());
        let state = flow.standing(replies.drop_last())->Awaiting_0;
        let before = flow.history(replies.drop_last());
        let past = flow.history(replies);
        let k = opening(request);
        let reply = replies.last();
        assert(past == before.push((rebase_effect(request, state), reply)));
        assert(flow.standing(replies) == rebase_after(request, state, reply));
        assert(past.last() == (rebase_effect(request, state), reply));
        match state {
            RebaseStateOf::ReadingBase { path, branch, main_branch } => {
                let rebasing = RebasingView { path, branch, base: main_branch };
                assert(settled(request, rebasing, main_branch, k + 1, past));
            },
            RebaseStateOf::CheckingRecordedBase { path, branch, main_branch, recorded } => {
                if let ReplyOf::Flag { value } = reply {
                    let base = if value {
                        recorded
                    } else {
                        main_branch
                    };
                    let rebasing = RebasingView { path, branch, base };
                    assert(settled(request, rebasing, main_branch, k + 2, past));
                }
            },
            RebaseStateOf::CheckingBase { rebasing } => {
                assert(settled(request, rebasing, main, n, past));
            },
            RebaseStateOf::RebasingJj { .. } => {
                assert(past[past.len() - 2] == before[n + 1]);
            },
            RebaseStateOf::CheckingConflicts { rebasing } => {
                assert(past[past.len() - 2] == before[n + 2]);
                assert(settled(request, rebasing, main, n, past));
                assert(rebase_effect(request, state) == jj_check(rebasing));
            },
            _ => {},
        }
    }
}

} // verus!
