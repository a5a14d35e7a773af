//! What holds of every rebase, whatever the outside replies.

use crate::effect::{answers, EffectOf, EffectView, Progress, ReplyOf, ReplyView};
use crate::error::{WorkflowErrorOf, WorkflowErrorView};
use crate::jj::{conflict_check_line, reports_conflict};
use crate::paths::PathView;
use crate::rebase::{
    git_rebase_failure, jj_rebase_line, rebase_after, rebase_effect, RebaseProgressView,
    RebaseRequestView, RebaseStateOf, RebaseStateView, RebasingView,
};
use crate::run::{
    all_succeeded, commands, conflict_free, is_conflict_check, push_keeps, selected, Command,
    Exchange, Workflow,
};
use crate::workspace::{workspace_named, EntryView};
use vstd::prelude::*;

verus! {

/// A rebase as a workflow.
pub type RebaseWorkflow<E> = Workflow<RebaseStateView, Result<(), WorkflowErrorView<E>>, E>;

/// A rebase as a workflow.
pub open spec fn rebase_workflow<E>(request: RebaseRequestView) -> RebaseWorkflow<E> {
    Workflow {
        start: RebaseStateOf::ListingWorkspaces,
        effect: |state: RebaseStateView| rebase_effect(request, state),
        after: |state: RebaseStateView, reply: ReplyView<E>| rebase_after(request, state, reply),
    }
}

/// The command that rebases, where it runs.
pub open spec fn rebase_command(rebasing: RebasingView) -> Command {
    (rebasing.path, jj_rebase_line(rebasing.base))
}

/// The conflict check after a rebase, where it runs.
pub open spec fn check_command(rebasing: RebasingView) -> Command {
    (rebasing.path, conflict_check_line("@"@))
}

/// Whether the history shows that a rebase may go ahead: its two sides differ and the base
/// exists.
pub open spec fn vetted<E>(rebasing: RebasingView, past: Seq<Exchange<E>>) -> bool {
    &&& rebasing.branch != rebasing.base
    &&& past.contains(
        (
            EffectOf::LocalBranchExists { branch: rebasing.base, dir: rebasing.path },
            ReplyOf::Flag { value: true },
        ),
    )
}

/// Whether an effect rebases by the means of git.
pub open spec fn is_git_rebase() -> spec_fn(EffectView) -> bool {
    |effect: EffectView| effect is RebaseGit
}

/// The rebases by the means of git, each with its outcome.
pub open spec fn git_rebases<E>(past: Seq<Exchange<E>>) -> Seq<Exchange<E>> {
    selected(past, is_git_rebase())
}

/// Whether git was told to rebase exactly once, with the outcome `reply`, and no command was
/// run.
pub open spec fn rebased_by_git<E>(
    rebasing: RebasingView,
    reply: ReplyView<E>,
    past: Seq<Exchange<E>>,
) -> bool {
    &&& git_rebases(past) == seq![
        (EffectView::RebaseGit { dir: rebasing.path, base: rebasing.base }, reply),
    ]
    &&& commands(past).len() == 0
}

/// Whether the commands that were run are a rebase and the conflict check on it, and git was not
/// told to rebase.
pub open spec fn rebased_by_jj<E>(rebasing: RebasingView, past: Seq<Exchange<E>>) -> bool {
    &&& commands(past) == seq![rebase_command(rebasing), check_command(rebasing)]
    &&& git_rebases(past).len() == 0
}

/// Whether the history shows that the name that was asked for stands for the workspace at
/// `path` with `branch`.
pub open spec fn named<E>(
    request: RebaseRequestView,
    path: PathView,
    branch: Seq<char>,
    past: Seq<Exchange<E>>,
) -> bool {
    exists|entries: Seq<EntryView>|
        {
            &&& #[trigger] workspace_named(entries, request.name) == Some((path, branch))
            &&& past.contains(
                (EffectOf::ListWorkspaces { dir: request.cwd }, ReplyOf::Workspaces { entries }),
            )
        }
}

/// Whether `branch` is the main branch: the configured one, else by what the history shows the
/// default branch of the main worktree.
pub open spec fn is_main_branch<E>(
    request: RebaseRequestView,
    path: PathView,
    branch: Seq<char>,
    past: Seq<Exchange<E>>,
) -> bool {
    match request.main_branch {
        Some(configured) => branch == configured,
        None => exists|root: PathView|
            {
                &&& #[trigger] main_root_found(path, root, past)
                &&& past.contains(
                    (EffectOf::DefaultBranch { dir: root }, ReplyOf::Text { value: branch }),
                )
            },
    }
}

/// Whether the history shows that `root` is the main worktree of the workspace at `path`.
pub open spec fn main_root_found<E>(path: PathView, root: PathView, past: Seq<Exchange<E>>) -> bool {
    past.contains((EffectOf::MainWorktreeRoot { dir: path }, ReplyOf::Path { value: root }))
}

/// Whether the history shows that `base` is recorded as the base of `branch`.
pub open spec fn base_read<E>(
    path: PathView,
    branch: Seq<char>,
    base: Option<Seq<char>>,
    past: Seq<Exchange<E>>,
) -> bool {
    past.contains((EffectOf::BranchBase { branch, dir: path }, ReplyOf::Name { value: base }))
}

/// Whether the history shows whether a local branch exists.
pub open spec fn local_branch_looked_up<E>(
    path: PathView,
    branch: Seq<char>,
    exists: bool,
    past: Seq<Exchange<E>>,
) -> bool {
    past.contains(
        (EffectOf::LocalBranchExists { branch, dir: path }, ReplyOf::Flag { value: exists }),
    )
}

/// Whether the base of a rebase is the right one by what the history shows: the recorded base
/// if it exists, else the main branch.
pub open spec fn base_chosen<E>(
    request: RebaseRequestView,
    rebasing: RebasingView,
    past: Seq<Exchange<E>>,
) -> bool {
    let path = rebasing.path;
    let branch = rebasing.branch;
    let base = rebasing.base;
    ||| base_read(path, branch, Some(base), past) && local_branch_looked_up(path, base, true, past)
    ||| is_main_branch(request, path, base, past) && base_read(path, branch, None, past)
    ||| is_main_branch(request, path, base, past) && exists|recorded: Seq<char>|
        {
            &&& #[trigger] base_read(path, branch, Some(recorded), past)
            &&& local_branch_looked_up(path, recorded, false, past)
        }
}

/// Whether a rebase is of the workspace that was asked for and onto the right base.
pub open spec fn well_aimed<E>(
    request: RebaseRequestView,
    rebasing: RebasingView,
    past: Seq<Exchange<E>>,
) -> bool {
    &&& named(request, rebasing.path, rebasing.branch, past)
    &&& base_chosen(request, rebasing, past)
}

proof fn named_stays<E>(
    request: RebaseRequestView,
    path: PathView,
    branch: Seq<char>,
    past: Seq<Exchange<E>>,
    exchange: Exchange<E>,
)
    requires
        named(request, path, branch, past),
    ensures
        named(request, path, branch, past.push(exchange)),
{
    push_keeps(past, exchange);
    let entries = choose|entries: Seq<EntryView>|
        {
            &&& #[trigger] workspace_named(entries, request.name) == Some((path, branch))
            &&& past.contains(
                (EffectOf::ListWorkspaces { dir: request.cwd }, ReplyOf::Workspaces { entries }),
            )
        };
    assert(workspace_named(entries, request.name) == Some((path, branch)));
}

proof fn main_branch_stays<E>(
    request: RebaseRequestView,
    path: PathView,
    branch: Seq<char>,
    past: Seq<Exchange<E>>,
    exchange: Exchange<E>,
)
    requires
        is_main_branch(request, path, branch, past),
    ensures
        is_main_branch(request, path, branch, past.push(exchange)),
{
    push_keeps(past, exchange);
    if request.main_branch is None {
        let root = choose|root: PathView|
            {
                &&& #[trigger] main_root_found(path, root, past)
                &&& past.contains(
                    (EffectOf::DefaultBranch { dir: root }, ReplyOf::Text { value: branch }),
                )
            };
        assert(main_root_found(path, root, past.push(exchange)));
    }
}

proof fn aim_stays<E>(
    request: RebaseRequestView,
    rebasing: RebasingView,
    past: Seq<Exchange<E>>,
    exchange: Exchange<E>,
)
    requires
        well_aimed(request, rebasing, past),
    ensures
        well_aimed(request, rebasing, past.push(exchange)),
{
    let now = past.push(exchange);
    let path = rebasing.path;
    let branch = rebasing.branch;
    push_keeps(past, exchange);
    named_stays(request, path, branch, past, exchange);
    if is_main_branch(request, path, rebasing.base, past) {
        main_branch_stays(request, path, rebasing.base, past, exchange);
        if exists|recorded: Seq<char>|
            {
                &&& #[trigger] base_read(path, branch, Some(recorded), past)
                &&& local_branch_looked_up(path, recorded, false, past)
            } {
            let recorded = choose|recorded: Seq<char>|
                {
                    &&& #[trigger] base_read(path, branch, Some(recorded), past)
                    &&& local_branch_looked_up(path, recorded, false, past)
                };
            assert(base_read(path, branch, Some(recorded), now));
        }
    }
}

spec fn aimed_so_far<E>(
    request: RebaseRequestView,
    state: RebaseStateView,
    past: Seq<Exchange<E>>,
) -> bool {
    match state {
        RebaseStateOf::ListingWorkspaces => true,
        RebaseStateOf::FindingMainRoot { path, branch } => {
            &&& named(request, path, branch, past)
            &&& request.main_branch is None
        },
        RebaseStateOf::FindingDefaultBranch { path, branch, root } => {
            &&& named(request, path, branch, past)
            &&& request.main_branch is None
            &&& main_root_found(path, root, past)
        },
        RebaseStateOf::ReadingBase { path, branch, main_branch } => {
            &&& named(request, path, branch, past)
            &&& is_main_branch(request, path, main_branch, past)
        },
        RebaseStateOf::CheckingRecordedBase { path, branch, main_branch, recorded } => {
            &&& named(request, path, branch, past)
            &&& is_main_branch(request, path, main_branch, past)
            &&& base_read(path, branch, Some(recorded), past)
        },
        RebaseStateOf::CheckingBase { rebasing } => well_aimed(request, rebasing, past),
        RebaseStateOf::Announcing { rebasing } => well_aimed(request, rebasing, past),
        RebaseStateOf::RebasingJj { rebasing } => well_aimed(request, rebasing, past),
        RebaseStateOf::CheckingConflicts { rebasing } => well_aimed(request, rebasing, past),
        RebaseStateOf::RebasingGit { rebasing } => well_aimed(request, rebasing, past),
        RebaseStateOf::Confirming { rebasing } => well_aimed(request, rebasing, past),
    }
}

proof fn aim_step<E>(
    request: RebaseRequestView,
    state: RebaseStateView,
    reply: ReplyView<E>,
    past: Seq<Exchange<E>>,
)
    requires
        answers(rebase_effect(request, state), reply),
        aimed_so_far(request, state, past),
    ensures
        rebase_after(request, state, reply) matches Progress::Awaiting(next) ==> aimed_so_far(
            request,
            next,
            past.push((rebase_effect(request, state), reply)),
        ),
{
    let exchange = (rebase_effect(request, state), reply);
    let now = past.push(exchange);
    push_keeps(past, exchange);
    match state {
        RebaseStateOf::ListingWorkspaces => {
            if let ReplyOf::Workspaces { entries } = reply {
                if workspace_named(entries, request.name) is Some {
                    let (path, branch) = workspace_named(entries, request.name)->0;
                    assert(named(request, path, branch, now));
                }
            }
        },
        RebaseStateOf::FindingMainRoot { path, branch } => {
            named_stays(request, path, branch, past, exchange);
        },
        RebaseStateOf::FindingDefaultBranch { path, branch, root } => {
            named_stays(request, path, branch, past, exchange);
            assert(main_root_found(path, root, now));
        },
        RebaseStateOf::ReadingBase { path, branch, main_branch } => {
            named_stays(request, path, branch, past, exchange);
            main_branch_stays(request, path, main_branch, past, exchange);
        },
        RebaseStateOf::CheckingRecordedBase { path, branch, main_branch, recorded } => {
            named_stays(request, path, branch, past, exchange);
            main_branch_stays(request, path, main_branch, past, exchange);
            assert(base_read(path, branch, Some(recorded), now));
        },
        RebaseStateOf::CheckingBase { rebasing } => {
            aim_stays(request, rebasing, past, exchange);
        },
        RebaseStateOf::Announcing { rebasing } => {
            aim_stays(request, rebasing, past, exchange);
        },
        RebaseStateOf::RebasingJj { rebasing } => {
            aim_stays(request, rebasing, past, exchange);
        },
        RebaseStateOf::CheckingConflicts { rebasing } => {
            aim_stays(request, rebasing, past, exchange);
        },
        RebaseStateOf::RebasingGit { rebasing } => {
            aim_stays(request, rebasing, past, exchange);
        },
        RebaseStateOf::Confirming { .. } => {},
    }
}

proof fn aim_holds<E>(request: RebaseRequestView, replies: Seq<ReplyView<E>>)
    requires
        rebase_workflow(request).is_run(replies),
    ensures
        rebase_workflow(request).standing(replies) matches Progress::Awaiting(state)
            ==> aimed_so_far(request, state, rebase_workflow(request).history(replies)),
    decreases replies.len(),
{
    let flow = rebase_workflow::<E>(request);
    if replies.len() > 0 {
        aim_holds(request, replies.drop_last());
        let state = flow.standing(replies.drop_last())->Awaiting_0;
        aim_step(request, state, replies.last(), flow.history(replies.drop_last()));
    }
}

/// Whether the history shows that the rebase was carried out, by the means of the backend.
pub open spec fn carried_out<E>(
    request: RebaseRequestView,
    rebasing: RebasingView,
    past: Seq<Exchange<E>>,
) -> bool {
    &&& vetted(rebasing, past)
    &&& if request.backend == "jj"@ {
        rebased_by_jj(rebasing, past)
    } else {
        rebased_by_git(rebasing, ReplyOf::Done, past)
    }
}

/// Whether the history shows no attempt at a rebase.
pub open spec fn untouched<E>(past: Seq<Exchange<E>>) -> bool {
    &&& commands(past).len() == 0
    &&& git_rebases(past).len() == 0
}

/// Whether a context says that the main branch could not be found.
pub open spec fn looking_for_the_main_branch(context: Seq<char>) -> bool {
    ||| context == "Could not find the main worktree"@
    ||| context == "Failed to determine the main branch"@
}

proof fn other_contexts_differ(workspace: Seq<char>)
    ensures
        !looking_for_the_main_branch("Failed to execute jj rebase"@),
        !looking_for_the_main_branch("Failed to inspect jj rebase result"@),
        !looking_for_the_main_branch(git_rebase_failure(workspace)),
{
    reveal_strlit("Could not find the main worktree");
    reveal_strlit("Failed to determine the main branch");
    reveal_strlit("Failed to execute jj rebase");
    reveal_strlit("Failed to inspect jj rebase result");
    reveal_strlit(
        "Rebase failed, likely due to conflicts.\n\nPlease resolve them manually inside the worktree at '",
    );
    assert("Failed to execute jj rebase"@.len() == 27);
    assert("Failed to inspect jj rebase result"@.len() == 34);
    assert("Could not find the main worktree"@.len() == 32);
    assert("Failed to determine the main branch"@.len() == 35);
    assert("Could not find the main worktree"@[0] == 'C');
    assert("Failed to determine the main branch"@[0] == 'F');
    assert(git_rebase_failure(workspace)[0] == 'R');
}

spec fn known_so_far<E>(
    request: RebaseRequestView,
    progress: RebaseProgressView<E>,
    past: Seq<Exchange<E>>,
) -> bool {
    match progress {
        Progress::Awaiting(state) => match state {
            RebaseStateOf::CheckingBase { rebasing } => {
                &&& rebasing.branch != rebasing.base
                &&& untouched(past)
            },
            RebaseStateOf::Announcing { rebasing } => {
                &&& vetted(rebasing, past)
                &&& untouched(past)
            },
            RebaseStateOf::RebasingJj { rebasing } => {
                &&& request.backend == "jj"@
                &&& vetted(rebasing, past)
                &&& untouched(past)
            },
            RebaseStateOf::CheckingConflicts { rebasing } => {
                &&& request.backend == "jj"@
                &&& vetted(rebasing, past)
                &&& commands(past) == seq![rebase_command(rebasing)]
                &&& git_rebases(past).len() == 0
            },
            RebaseStateOf::RebasingGit { rebasing } => {
                &&& request.backend != "jj"@
                &&& vetted(rebasing, past)
                &&& untouched(past)
            },
            RebaseStateOf::Confirming { rebasing } => carried_out(request, rebasing, past),
            _ => untouched(past),
        },
        Progress::Finished(Ok(_)) => exists|rebasing: RebasingView|
            carried_out(request, rebasing, past),
        Progress::Finished(Err(error)) => match error {
            WorkflowErrorOf::RebaseConflict { .. } => true,
            WorkflowErrorOf::CommandFailed { .. } => true,
            WorkflowErrorOf::Context { context, .. } => looking_for_the_main_branch(context)
                ==> untouched(past),
            _ => untouched(past),
        },
    }
}

proof fn known_step<E>(
    request: RebaseRequestView,
    state: RebaseStateView,
    reply: ReplyView<E>,
    past: Seq<Exchange<E>>,
)
    requires
        answers(rebase_effect(request, state), reply),
        known_so_far::<E>(request, Progress::Awaiting(state), past),
    ensures
        known_so_far(
            request,
            rebase_after(request, state, reply),
            past.push((rebase_effect(request, state), reply)),
        ),
{
    let exchange = (rebase_effect(request, state), reply);
    let now = past.push(exchange);
    assert(now.drop_last() =~= past);
    push_keeps(past, exchange);
    match state {
        RebaseStateOf::RebasingJj { rebasing } => {
            other_contexts_differ(rebasing.path.text);
            assert(commands(now) =~= seq![rebase_command(rebasing)]);
        },
        RebaseStateOf::RebasingGit { rebasing } => {
            other_contexts_differ(rebasing.path.text);
            assert(git_rebases(now) =~= seq![exchange]);
        },
        RebaseStateOf::CheckingConflicts { rebasing } => {
            other_contexts_differ(rebasing.path.text);
            assert(commands(now) =~= seq![rebase_command(rebasing), check_command(rebasing)]);
            assert(rebased_by_jj(rebasing, now));
        },
        RebaseStateOf::Confirming { rebasing } => {
            assert(carried_out(request, rebasing, now));
        },
        _ => {},
    }
}

proof fn known_holds<E>(request: RebaseRequestView, replies: Seq<ReplyView<E>>)
    requires
        rebase_workflow(request).is_run(replies),
    ensures
        known_so_far(
            request,
            rebase_workflow(request).standing(replies),
            rebase_workflow(request).history(replies),
        ),
    decreases replies.len(),
{
    let flow = rebase_workflow::<E>(request);
    if replies.len() > 0 {
        known_holds(request, replies.drop_last());
        let state = flow.standing(replies.drop_last())->Awaiting_0;
        known_step(request, state, replies.last(), flow.history(replies.drop_last()));
    }
}

proof fn rebase_is_no_check(base: Seq<char>)
    ensures
        !is_conflict_check(jj_rebase_line(base)),
{
    assert(jj_rebase_line(base).len() == 6);
    if is_conflict_check(jj_rebase_line(base)) {
        let revset = choose|revset: Seq<char>| jj_rebase_line(base) == conflict_check_line(revset);
        assert(conflict_check_line(revset).len() == 9);
    }
}

/// How the commands went where a rebase stands.
proof fn commands_went_well<E>(request: RebaseRequestView, replies: Seq<ReplyView<E>>)
    requires
        rebase_workflow(request).is_run(replies),
    ensures
        match rebase_workflow(request).standing(replies) {
            Progress::Awaiting(_) => {
                &&& all_succeeded(rebase_workflow(request).history(replies))
                &&& conflict_free(rebase_workflow(request).history(replies))
            },
            Progress::Finished(Ok(_)) => {
                &&& all_succeeded(rebase_workflow(request).history(replies))
                &&& conflict_free(rebase_workflow(request).history(replies))
            },
            Progress::Finished(Err(error)) => error is RebaseConflict ==> all_succeeded(
                rebase_workflow(request).history(replies),
            ),
        },
    decreases replies.len(),
{
    let flow = rebase_workflow::<E>(request);
    if replies.len() > 0 {
        commands_went_well(request, replies.drop_last());
        let past = flow.history(replies.drop_last());
        let state = flow.standing(replies.drop_last())->Awaiting_0;
        let exchange = (rebase_effect(request, state), replies.last());
        assert(flow.history(replies) == past.push(exchange));
        assert(flow.standing(replies) == rebase_after(request, state, replies.last()));
        if let RebaseStateOf::RebasingJj { rebasing } = state {
            rebase_is_no_check(rebasing.base);
        }
    }
}

/// A rebase that succeeds was carried out by the means of the backend, onto a base that exists
/// and that is not the branch itself. It was the workspace that was asked for, and the base was
/// its recorded base if that exists, else the main branch. Every command succeeded, and no
/// conflict was reported.
pub proof fn success_was_carried_out<E>(request: RebaseRequestView, replies: Seq<ReplyView<E>>)
    requires
        rebase_workflow(request).is_run(replies),
        rebase_workflow(request).standing(replies) matches Progress::Finished(Ok(_)),
    ensures
        exists|rebasing: RebasingView|
            {
                &&& #[trigger] carried_out(
                    request,
                    rebasing,
                    rebase_workflow(request).history(replies),
                )
                &&& well_aimed(request, rebasing, rebase_workflow(request).history(replies))
            },
        all_succeeded(rebase_workflow(request).history(replies)),
        conflict_free(rebase_workflow(request).history(replies)),
{
    let flow = rebase_workflow::<E>(request);
    let before = replies.drop_last();
    let past = flow.history(before);
    let state = flow.standing(before)->Awaiting_0;
    let exchange = (rebase_effect(request, state), replies.last());
    commands_went_well(request, replies);
    assert(flow.standing(replies) == rebase_after(request, state, replies.last()));
    assert(flow.history(replies) == past.push(exchange));
    known_holds(request, before);
    aim_holds(request, before);
    if let RebaseStateOf::Confirming { rebasing } = state {
        aim_stays(request, rebasing, past, exchange);
        push_keeps(past, exchange);
        assert(past.push(exchange).drop_last() =~= past);
        assert(carried_out(request, rebasing, past.push(exchange)));
    }
}

/// How many effects a rebase can still ask for.
pub open spec fn effects_left(state: RebaseStateView) -> nat {
    match state {
        RebaseStateOf::ListingWorkspaces => 10,
        RebaseStateOf::FindingMainRoot { .. } => 9,
        RebaseStateOf::FindingDefaultBranch { .. } => 8,
        RebaseStateOf::ReadingBase { .. } => 7,
        RebaseStateOf::CheckingRecordedBase { .. } => 6,
        RebaseStateOf::CheckingBase { .. } => 5,
        RebaseStateOf::Announcing { .. } => 4,
        RebaseStateOf::RebasingJj { .. } => 3,
        RebaseStateOf::CheckingConflicts { .. } => 2,
        RebaseStateOf::RebasingGit { .. } => 2,
        RebaseStateOf::Confirming { .. } => 1,
    }
}

/// Every rebase comes to an end, after a fixed number of effects at most.
pub proof fn rebase_ends<E>(request: RebaseRequestView, replies: Seq<ReplyView<E>>)
    requires
        rebase_workflow(request).is_run(replies),
    ensures
        replies.len() <= 10,
        rebase_workflow(request).standing(replies) matches Progress::Awaiting(state)
            ==> replies.len() + effects_left(state) <= 10,
    decreases replies.len(),
{
    if replies.len() > 0 {
        rebase_ends(request, replies.drop_last());
    }
}

/// Whether the history shows an attempt at the rebase by the means of the backend, and nothing
/// else: git was told to rebase once, or the rebase of jj was run, alone or with the conflict
/// check on it.
pub open spec fn attempted<E>(
    request: RebaseRequestView,
    rebasing: RebasingView,
    past: Seq<Exchange<E>>,
) -> bool {
    if request.backend == "jj"@ {
        ||| commands(past) == seq![rebase_command(rebasing)] && git_rebases(past).len() == 0
        ||| rebased_by_jj(rebasing, past)
    } else {
        exists|reply: ReplyView<E>| rebased_by_git(rebasing, reply, past)
    }
}

/// No attempt at a rebase is made before everything that could speak against it has been
/// looked at, and no more than one: whenever the repository may have been touched, it was by the
/// rebase that was asked for.
pub proof fn only_the_vetted_rebase_runs<E>(
    request: RebaseRequestView,
    replies: Seq<ReplyView<E>>,
)
    requires
        rebase_workflow(request).is_run(replies),
        !untouched(rebase_workflow(request).history(replies)),
    ensures
        exists|rebasing: RebasingView|
            {
                &&& #[trigger] attempted(
                    request,
                    rebasing,
                    rebase_workflow(request).history(replies),
                )
                &&& vetted(rebasing, rebase_workflow(request).history(replies))
                &&& well_aimed(request, rebasing, rebase_workflow(request).history(replies))
            },
{
    let flow = rebase_workflow::<E>(request);
    let before = replies.drop_last();
    let past = flow.history(before);
    let state = flow.standing(before)->Awaiting_0;
    let exchange = (rebase_effect(request, state), replies.last());
    let now = past.push(exchange);
    known_holds(request, before);
    aim_holds(request, before);
    push_keeps(past, exchange);
    assert(flow.history(replies) == now);
    assert(now.drop_last() =~= past);
    match state {
        RebaseStateOf::RebasingJj { rebasing } => {
            aim_stays(request, rebasing, past, exchange);
            assert(commands(now) =~= seq![rebase_command(rebasing)]);
            assert(attempted(request, rebasing, now));
        },
        RebaseStateOf::CheckingConflicts { rebasing } => {
            aim_stays(request, rebasing, past, exchange);
            assert(commands(now) =~= seq![rebase_command(rebasing), check_command(rebasing)]);
            assert(attempted(request, rebasing, now));
        },
        RebaseStateOf::RebasingGit { rebasing } => {
            aim_stays(request, rebasing, past, exchange);
            assert(git_rebases(now) =~= seq![exchange]);
            assert(rebased_by_git(rebasing, replies.last(), now));
            assert(attempted(request, rebasing, now));
        },
        RebaseStateOf::Confirming { rebasing } => {
            aim_stays(request, rebasing, past, exchange);
            if request.backend != "jj"@ {
                assert(rebased_by_git(rebasing, ReplyOf::Done, now));
            }
            assert(attempted(request, rebasing, now));
        },
        _ => {},
    }
}

/// A rebase that git could not complete was attempted once, and its error is handed on with the
/// advice on how to go on in the workspace.
pub proof fn failed_git_rebase_is_reported<E>(
    request: RebaseRequestView,
    replies: Seq<ReplyView<E>>,
)
    requires
        rebase_workflow(request).is_run(replies),
        request.backend != "jj"@,
        rebase_workflow(request).standing(replies) matches Progress::Finished(
            Err(WorkflowErrorOf::Context { context, .. }),
        ) && !looking_for_the_main_branch(context),
    ensures
        rebase_workflow(request).standing(replies) matches Progress::Finished(
            Err(WorkflowErrorOf::Context { context, cause }),
        ) && exists|rebasing: RebasingView|
            {
                &&& rebased_by_git(
                    rebasing,
                    ReplyOf::Failed { cause },
                    rebase_workflow(request).history(replies),
                )
                &&& #[trigger] vetted(rebasing, rebase_workflow(request).history(replies))
                &&& well_aimed(request, rebasing, rebase_workflow(request).history(replies))
                &&& context == git_rebase_failure(rebasing.path.text)
            },
{
    let flow = rebase_workflow::<E>(request);
    let before = replies.drop_last();
    let past = flow.history(before);
    let state = flow.standing(before)->Awaiting_0;
    let exchange = (rebase_effect(request, state), replies.last());
    let now = past.push(exchange);
    assert(flow.standing(replies) == rebase_after(request, state, replies.last()));
    assert(flow.history(replies) == now);
    known_holds(request, before);
    aim_holds(request, before);
    push_keeps(past, exchange);
    assert(now.drop_last() =~= past);
    if let RebaseStateOf::RebasingGit { rebasing } = state {
        aim_stays(request, rebasing, past, exchange);
        assert(git_rebases(now) =~= seq![exchange]);
        assert(rebased_by_git(rebasing, replies.last(), now));
        assert(vetted(rebasing, now));
    }
}

/// A rebase overrides the protection of commits that are marked as immutable.
pub proof fn rewriting_overrides_immutability(base: Seq<char>)
    ensures
        jj_rebase_line(base).contains("--ignore-immutable"@),
{
    assert(jj_rebase_line(base)[2] == "--ignore-immutable"@);
}

/// Conflicts of a rebase are reported and left in place: the rebase that was asked for and the
/// check on it are all that was run, both with success, so nothing takes the rebase back. The
/// error names the workspace.
pub proof fn conflicts_are_left_in_place<E>(request: RebaseRequestView, replies: Seq<ReplyView<E>>)
    requires
        rebase_workflow(request).is_run(replies),
        rebase_workflow(request).standing(replies) matches Progress::Finished(Err(error))
            && error is RebaseConflict,
    ensures
        rebase_workflow(request).standing(replies) matches Progress::Finished(
            Err(WorkflowErrorOf::RebaseConflict { workspace }),
        ) && exists|rebasing: RebasingView|
            {
                &&& #[trigger] rebased_by_jj(rebasing, rebase_workflow(request).history(replies))
                &&& vetted(rebasing, rebase_workflow(request).history(replies))
                &&& well_aimed(request, rebasing, rebase_workflow(request).history(replies))
                &&& workspace == rebasing.path.text
            },
        all_succeeded(rebase_workflow(request).history(replies)),
{
    let flow = rebase_workflow::<E>(request);
    let before = replies.drop_last();
    let past = flow.history(before);
    let state = flow.standing(before)->Awaiting_0;
    let exchange = (rebase_effect(request, state), replies.last());
    let now = past.push(exchange);
    commands_went_well(request, replies);
    assert(flow.standing(replies) == rebase_after(request, state, replies.last()));
    assert(flow.history(replies) == now);
    known_holds(request, before);
    aim_holds(request, before);
    if let RebaseStateOf::CheckingConflicts { rebasing } = state {
        aim_stays(request, rebasing, past, exchange);
        push_keeps(past, exchange);
        assert(now.drop_last() =~= past);
        assert(commands(now) =~= seq![rebase_command(rebasing), check_command(rebasing)]);
        assert(rebased_by_jj(rebasing, now));
    }
}

/// A reported conflict always makes the rebase fail.
pub proof fn reported_conflict_fails<E>(
    request: RebaseRequestView,
    rebasing: RebasingView,
    check: ReplyView<E>,
)
    requires
        check matches ReplyOf::Output { success: true, .. },
        reports_conflict(check),
    ensures
        rebase_after(request, RebaseStateOf::CheckingConflicts { rebasing }, check)
            == RebaseProgressView::<E>::Finished(
            Err(WorkflowErrorOf::RebaseConflict { workspace: rebasing.path.text }),
        ),
{
}

/// A rebase that is refused has not touched the repository: unless the rebase itself or the
/// check on it failed, could not be started, or found conflicts, a rebase that ends in an error
/// has not been attempted.
pub proof fn refusal_touches_nothing<E>(request: RebaseRequestView, replies: Seq<ReplyView<E>>)
    requires
        rebase_workflow(request).is_run(replies),
        rebase_workflow(request).standing(replies) matches Progress::Finished(Err(error))
            && !(error is RebaseConflict) && !(error is CommandFailed) && (error matches
            WorkflowErrorOf::Context { context, .. } ==> looking_for_the_main_branch(context)),
    ensures
        untouched(rebase_workflow(request).history(replies)),
{
    known_holds(request, replies);
}

} // verus!
