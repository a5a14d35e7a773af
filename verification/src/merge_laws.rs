//! What holds of every merge, whatever the outside replies.

use crate::effect::{answers, EffectOf, EffectView, Progress, ReplyOf, ReplyView};
use crate::error::{WorkflowErrorOf, WorkflowErrorView};
use crate::jj::{bookmark_revset_text, conflict_check_line, jj_line};
use crate::merge::{
    affected_by, follow_ups_of, merge_after, merge_effect, operation_of, site_of, target_path,
    target_window, MergeContextView, MergeProgressView, MergeRequestView, MergeResultView,
    MergeStateOf, MergeStateView, MergingView, ReadyView, SourceView, Strategy, TargetView,
};
use crate::paths::PathView;
use crate::run::{
    all_succeeded, commands, conflict_free, is_conflict_check, push_keeps, Command, Exchange,
    Workflow,
};
use crate::workspace::{workspace_named, EntryView};
use vstd::prelude::*;

verus! {

/// A merge as a workflow.
pub open spec fn merging_workflow<E>(
    request: MergeRequestView,
    context: MergeContextView,
) -> MergeWorkflow<E> {
    Workflow {
        start: MergeStateOf::EnteringMainWorktree,
        effect: |state: MergeStateView| merge_effect(request, context, state),
        after: |state: MergeStateView, reply: ReplyView<E>|
            merge_after(request, context, state, reply),
    }
}

/// A merge as a workflow.
pub type MergeWorkflow<E> = Workflow<
    MergeStateView,
    Result<MergeResultView<E>, WorkflowErrorView<E>>,
    E,
>;

/// Where a merge stands after `replies`.
pub open spec fn merge_run<E>(
    request: MergeRequestView,
    context: MergeContextView,
    replies: Seq<ReplyView<E>>,
) -> MergeProgressView<E> {
    merging_workflow(request, context).standing(replies)
}

/// Whether `replies` can be the replies to a merge, in order.
pub open spec fn is_run<E>(
    request: MergeRequestView,
    context: MergeContextView,
    replies: Seq<ReplyView<E>>,
) -> bool {
    merging_workflow(request, context).is_run(replies)
}

/// The effects that were performed, each with its reply.
pub open spec fn history<E>(
    request: MergeRequestView,
    context: MergeContextView,
    replies: Seq<ReplyView<E>>,
) -> Seq<Exchange<E>> {
    merging_workflow(request, context).history(replies)
}

/// The operations that are in effect in the repository after the commands. A command that
/// succeeds adds one, an undo takes the last one back, and a conflict check, or a command that
/// fails, changes nothing.
pub open spec fn operations_in_effect<E>(history: Seq<Exchange<E>>) -> Seq<Command>
    decreases history.len(),
{
    if history.len() == 0 {
        Seq::empty()
    } else {
        let before = operations_in_effect(history.drop_last());
        match history.last() {
            (EffectOf::RunJj { dir, args }, ReplyOf::Output { success: true, .. }) => if args
                == jj_line(seq!["undo"@]) {
                if before.len() > 0 {
                    before.drop_last()
                } else {
                    before
                }
            } else if is_conflict_check(args) {
                before
            } else {
                before.push((dir, args))
            },
            _ => before,
        }
    }
}

/// The operation of a strategy, as a command.
pub open spec fn operation_command(strategy: Strategy, ready: ReadyView) -> Command {
    (site_of(strategy, ready), jj_line(operation_of(strategy, ready)))
}

/// The conflict check of a strategy, as a command.
pub open spec fn check_command(strategy: Strategy, ready: ReadyView) -> Command {
    (site_of(strategy, ready), conflict_check_line(affected_by(strategy, ready)))
}

/// The undoing of a strategy, as a command.
pub open spec fn undo_command(strategy: Strategy, ready: ReadyView) -> Command {
    (site_of(strategy, ready), jj_line(seq!["undo"@]))
}

/// The first `n` follow-ups of a strategy, as commands.
pub open spec fn follow_up_commands(strategy: Strategy, ready: ReadyView, n: nat) -> Seq<Command> {
    Seq::new(
        n,
        |i: int| (ready.merging.target.path, jj_line(follow_ups_of(strategy, ready)[i])),
    )
}

/// All the commands of a strategy that meets no conflict.
pub open spec fn full_plan(strategy: Strategy, ready: ReadyView) -> Seq<Command> {
    seq![operation_command(strategy, ready), check_command(strategy, ready)] + follow_up_commands(
        strategy,
        ready,
        follow_ups_of(strategy, ready).len(),
    )
}

proof fn operations_are_no_undo_and_no_check(strategy: Strategy, ready: ReadyView)
    ensures
        jj_line(operation_of(strategy, ready)) != jj_line(seq!["undo"@]),
        !is_conflict_check(jj_line(operation_of(strategy, ready))),
{
    reveal_strlit("rebase");
    reveal_strlit("squash");
    reveal_strlit("new");
    reveal_strlit("--ignore-working-copy");
    let line = jj_line(operation_of(strategy, ready));
    assert(line.len() > 3);
    assert(jj_line(seq!["undo"@]).len() == 3);
    if is_conflict_check(line) {
        let revset = choose|revset: Seq<char>| line == conflict_check_line(revset);
        assert(line[2].len() == conflict_check_line(revset)[2].len());
    }
}

proof fn undo_is_no_check()
    ensures
        !is_conflict_check(jj_line(seq!["undo"@])),
{
    if is_conflict_check(jj_line(seq!["undo"@])) {
        let revset = choose|revset: Seq<char>|
            jj_line(seq!["undo"@]) == conflict_check_line(revset);
        assert(conflict_check_line(revset).len() == 9);
        assert(jj_line(seq!["undo"@]).len() == 3);
    }
}

/// Whether the history shows that the name that was asked for stands for the workspace at
/// `path` with `branch`.
pub open spec fn named<E>(
    request: MergeRequestView,
    context: MergeContextView,
    path: PathView,
    branch: Seq<char>,
    past: Seq<Exchange<E>>,
) -> bool {
    exists|entries: Seq<EntryView>|
        {
            &&& #[trigger] workspace_named(entries, request.name) == Some((path, branch))
            &&& listed(context, entries, past)
        }
}

/// Whether the history shows a listing of the workspaces.
pub open spec fn listed<E>(
    context: MergeContextView,
    entries: Seq<EntryView>,
    past: Seq<Exchange<E>>,
) -> bool {
    past.contains(
        (
            EffectOf::ListWorkspaces { dir: context.execution_dir },
            ReplyOf::Workspaces { entries },
        ),
    )
}

/// Whether the history shows that `source` is the workspace that was asked for.
pub open spec fn source_found<E>(
    request: MergeRequestView,
    context: MergeContextView,
    source: SourceView,
    past: Seq<Exchange<E>>,
) -> bool {
    &&& named(request, context, source.path, source.branch, past)
    &&& source.path.file_name_text() == Some(source.handle)
}

/// Whether the history shows that a branch exists.
pub open spec fn found<E>(
    context: MergeContextView,
    branch: Seq<char>,
    past: Seq<Exchange<E>>,
) -> bool {
    past.contains(
        (
            EffectOf::BranchExists { branch, dir: context.execution_dir },
            ReplyOf::Flag { value: true },
        ),
    )
}

/// Whether the history shows that a branch does not exist, or that this could not be found
/// out.
pub open spec fn not_found<E>(
    context: MergeContextView,
    branch: Seq<char>,
    past: Seq<Exchange<E>>,
) -> bool {
    let query = EffectView::BranchExists { branch, dir: context.execution_dir };
    ||| past.contains((query, ReplyOf::Flag { value: false }))
    ||| exists|cause: E| past.contains((query, ReplyOf::Failed { cause }))
}

/// Whether the history shows that `base` is recorded as the base of `branch`.
pub open spec fn base_read<E>(
    context: MergeContextView,
    branch: Seq<char>,
    base: Seq<char>,
    past: Seq<Exchange<E>>,
) -> bool {
    past.contains(
        (
            EffectOf::BranchBase { branch, dir: context.execution_dir },
            ReplyOf::Name { value: Some(base) },
        ),
    )
}

/// Whether `target` is the branch that `branch` is to be merged into, by what the history
/// shows: the one that the user named, else the recorded base if it exists, else the main
/// branch.
pub open spec fn target_chosen<E>(
    request: MergeRequestView,
    context: MergeContextView,
    branch: Seq<char>,
    target: Seq<char>,
    past: Seq<Exchange<E>>,
) -> bool {
    let here = context.execution_dir;
    match request.into_branch {
        Some(named) => target == named,
        None => {
            ||| target == context.main_branch && past.contains(
                (EffectOf::BranchBase { branch, dir: here }, ReplyOf::Name { value: None }),
            )
            ||| base_read(context, branch, target, past) && found(context, target, past)
            ||| target == context.main_branch && exists|base: Seq<char>|
                {
                    &&& #[trigger] base_read(context, branch, base, past)
                    &&& not_found(context, base, past)
                }
        },
    }
}

/// Whether the history shows that the target workspace is the right one: the one that holds the
/// target branch by a listing of the workspaces, else the main one.
pub open spec fn target_placed<E>(
    context: MergeContextView,
    target: TargetView,
    past: Seq<Exchange<E>>,
) -> bool {
    &&& exists|entries: Seq<EntryView>|
        {
            &&& #[trigger] target_path(context, entries, target.branch) == target.path
            &&& listed(context, entries, past)
        }
    &&& target_window(context, target.path) == Some(target.window)
}

/// Whether the history shows that the two sides of a merge are the right ones.
pub open spec fn well_aimed<E>(
    request: MergeRequestView,
    context: MergeContextView,
    merging: MergingView,
    past: Seq<Exchange<E>>,
) -> bool {
    &&& source_found(request, context, merging.source, past)
    &&& target_chosen(request, context, merging.source.branch, merging.target.branch, past)
    &&& target_placed(context, merging.target, past)
}

/// Whether the history shows that a workspace has no uncommitted changes.
pub open spec fn clean<E>(path: PathView, past: Seq<Exchange<E>>) -> bool {
    past.contains((EffectOf::Status { path }, ReplyOf::Flag { value: false }))
}

/// Whether the history shows that the workspace to merge may be merged into the target branch.
pub open spec fn accepted<E>(
    request: MergeRequestView,
    merging: MergingView,
    past: Seq<Exchange<E>>,
) -> bool {
    &&& merging.source.branch != merging.target.branch
    &&& request.keep || request.ignore_uncommitted || clean(merging.source.path, past)
}

/// Whether the history shows that nothing speaks against a merge: the two branches differ and
/// both exist, the target workspace is clean, and the workspace to merge is clean too, unless
/// it is kept or its uncommitted changes are to be ignored.
pub open spec fn vetted<E>(
    request: MergeRequestView,
    context: MergeContextView,
    merging: MergingView,
    past: Seq<Exchange<E>>,
) -> bool {
    &&& accepted(request, merging, past)
    &&& found(context, merging.source.branch, past)
    &&& found(context, merging.target.branch, past)
    &&& clean(merging.target.path, past)
}

/// Whether the revsets of a merge are those of its two branches, by what the history shows of
/// how their names are quoted.
pub open spec fn revsets_quoted<E>(ready: ReadyView, past: Seq<Exchange<E>>) -> bool {
    exists|feature: Seq<char>, target: Seq<char>|
        {
            &&& ready.feature == #[trigger] bookmark_revset_text(feature)
            &&& ready.onto == #[trigger] bookmark_revset_text(target)
            &&& past.contains(
                (
                    EffectOf::QuoteBookmarks {
                        feature: ready.merging.source.branch,
                        target: ready.merging.target.branch,
                    },
                    ReplyOf::Quoted { feature, target },
                ),
            )
        }
}

/// Whether the history shows that a merge may be carried out: its two sides are the right ones,
/// nothing speaks against it, and its revsets are those of its branches.
pub open spec fn cleared<E>(
    request: MergeRequestView,
    context: MergeContextView,
    ready: ReadyView,
    past: Seq<Exchange<E>>,
) -> bool {
    &&& well_aimed(request, context, ready.merging, past)
    &&& vetted(request, context, ready.merging, past)
    &&& revsets_quoted(ready, past)
}

/// Whether the history shows that a merge that was cleared has run all the commands of its
/// strategy, and no others.
pub open spec fn carried_out<E>(
    request: MergeRequestView,
    context: MergeContextView,
    merging: MergingView,
    past: Seq<Exchange<E>>,
) -> bool {
    exists|ready: ReadyView|
        {
            &&& ready.merging == merging
            &&& commands(past) == #[trigger] full_plan(request.chosen_strategy(), ready)
            &&& cleared(request, context, ready, past)
        }
}

/// The operation of a strategy, its conflict check, and its undoing.
pub open spec fn undone_plan(strategy: Strategy, ready: ReadyView) -> Seq<Command> {
    seq![
        operation_command(strategy, ready),
        check_command(strategy, ready),
        undo_command(strategy, ready),
    ]
}

/// Whether the history shows that a merge that was cleared has run its operation, the check on
/// it and its undoing, and nothing else.
pub open spec fn rolled_back<E>(
    request: MergeRequestView,
    context: MergeContextView,
    ready: ReadyView,
    past: Seq<Exchange<E>>,
) -> bool {
    &&& commands(past) == undone_plan(request.chosen_strategy(), ready)
    &&& cleared(request, context, ready, past)
}

/// Whether nothing was announced and nothing cleaned up or closed.
pub open spec fn quiet<E>(past: Seq<Exchange<E>>) -> bool {
    forall|i: int|
        0 <= i < past.len() ==> {
            &&& !((#[trigger] past[i]).0 is Notify)
            &&& !(past[i].0 is Cleanup)
            &&& !(past[i].0 is NavigateAndClose)
        }
}

proof fn named_stays<E>(
    request: MergeRequestView,
    context: MergeContextView,
    path: PathView,
    branch: Seq<char>,
    past: Seq<Exchange<E>>,
    exchange: Exchange<E>,
)
    requires
        named(request, context, path, branch, past),
    ensures
        named(request, context, path, branch, past.push(exchange)),
{
    push_keeps(past, exchange);
    let entries = choose|entries: Seq<EntryView>|
        {
            &&& #[trigger] workspace_named(entries, request.name) == Some((path, branch))
            &&& listed(context, entries, past)
        };
    assert(workspace_named(entries, request.name) == Some((path, branch)));
}

proof fn target_stays_chosen<E>(
    request: MergeRequestView,
    context: MergeContextView,
    branch: Seq<char>,
    target: Seq<char>,
    past: Seq<Exchange<E>>,
    exchange: Exchange<E>,
)
    requires
        target_chosen(request, context, branch, target, past),
    ensures
        target_chosen(request, context, branch, target, past.push(exchange)),
{
    let now = past.push(exchange);
    push_keeps(past, exchange);
    if request.into_branch is None && !(base_read(context, branch, target, past) && found(
        context,
        target,
        past,
    )) && !past.contains(
        (
            EffectOf::BranchBase { branch, dir: context.execution_dir },
            ReplyOf::Name { value: None },
        ),
    ) {
        let base = choose|base: Seq<char>|
            {
                &&& #[trigger] base_read(context, branch, base, past)
                &&& not_found(context, base, past)
            };
        let query = EffectView::BranchExists { branch: base, dir: context.execution_dir };
        if !past.contains((query, ReplyOf::Flag { value: false })) {
            let cause = choose|cause: E| past.contains((query, ReplyOf::Failed { cause }));
            assert(now.contains((query, ReplyOf::Failed { cause })));
        }
        assert(base_read(context, branch, base, now));
        assert(not_found(context, base, now));
    }
}

proof fn target_stays_placed<E>(
    context: MergeContextView,
    target: TargetView,
    past: Seq<Exchange<E>>,
    exchange: Exchange<E>,
)
    requires
        target_placed(context, target, past),
    ensures
        target_placed(context, target, past.push(exchange)),
{
    push_keeps(past, exchange);
    let entries = choose|entries: Seq<EntryView>|
        {
            &&& #[trigger] target_path(context, entries, target.branch) == target.path
            &&& listed(context, entries, past)
        };
    assert(target_path(context, entries, target.branch) == target.path);
}

proof fn aim_stays<E>(
    request: MergeRequestView,
    context: MergeContextView,
    merging: MergingView,
    past: Seq<Exchange<E>>,
    exchange: Exchange<E>,
)
    requires
        well_aimed(request, context, merging, past),
    ensures
        well_aimed(request, context, merging, past.push(exchange)),
{
    let source = merging.source;
    named_stays(request, context, source.path, source.branch, past, exchange);
    target_stays_chosen(request, context, source.branch, merging.target.branch, past, exchange);
    target_stays_placed(context, merging.target, past, exchange);
}

proof fn clearance_stays<E>(
    request: MergeRequestView,
    context: MergeContextView,
    ready: ReadyView,
    past: Seq<Exchange<E>>,
    exchange: Exchange<E>,
)
    requires
        cleared(request, context, ready, past),
    ensures
        cleared(request, context, ready, past.push(exchange)),
{
    push_keeps(past, exchange);
    aim_stays(request, context, ready.merging, past, exchange);
    let (feature, target) = choose|feature: Seq<char>, target: Seq<char>|
        {
            &&& ready.feature == #[trigger] bookmark_revset_text(feature)
            &&& ready.onto == #[trigger] bookmark_revset_text(target)
            &&& past.contains(
                (
                    EffectOf::QuoteBookmarks {
                        feature: ready.merging.source.branch,
                        target: ready.merging.target.branch,
                    },
                    ReplyOf::Quoted { feature, target },
                ),
            )
        };
    assert(ready.feature == bookmark_revset_text(feature));
    assert(ready.onto == bookmark_revset_text(target));
}

proof fn carried_out_stays<E>(
    request: MergeRequestView,
    context: MergeContextView,
    merging: MergingView,
    past: Seq<Exchange<E>>,
    exchange: Exchange<E>,
)
    requires
        carried_out(request, context, merging, past),
        !(exchange.0 is RunJj),
    ensures
        carried_out(request, context, merging, past.push(exchange)),
{
    let strategy = request.chosen_strategy();
    let ready = choose|ready: ReadyView|
        {
            &&& ready.merging == merging
            &&& commands(past) == #[trigger] full_plan(strategy, ready)
            &&& cleared(request, context, ready, past)
        };
    clearance_stays(request, context, ready, past, exchange);
    assert(past.push(exchange).drop_last() =~= past);
    assert(commands(past.push(exchange)) == full_plan(strategy, ready));
}

/// What the history shows where a merge waits for a reply.
spec fn known_so_far<E>(
    request: MergeRequestView,
    context: MergeContextView,
    state: MergeStateView,
    past: Seq<Exchange<E>>,
) -> bool {
    match state {
        MergeStateOf::EnteringMainWorktree => true,
        MergeStateOf::ListingSources => true,
        MergeStateOf::CheckingMainWorktree { path, branch } => named(
            request,
            context,
            path,
            branch,
            past,
        ),
        MergeStateOf::ReadingBase { source } => {
            &&& source_found(request, context, source, past)
            &&& request.into_branch is None
        },
        MergeStateOf::CheckingBase { source, base } => {
            &&& source_found(request, context, source, past)
            &&& request.into_branch is None
            &&& base_read(context, source.branch, base, past)
        },
        MergeStateOf::ListingTargets { source, target_branch } => {
            &&& source_found(request, context, source, past)
            &&& target_chosen(request, context, source.branch, target_branch, past)
        },
        MergeStateOf::ReadingAttachment { source, target } => {
            &&& source_found(request, context, source, past)
            &&& target_chosen(request, context, source.branch, target.branch, past)
            &&& target_placed(context, target, past)
        },
        MergeStateOf::CheckingSourceStatus { merging } => well_aimed(
            request,
            context,
            merging,
            past,
        ),
        MergeStateOf::CheckingSourceBookmark { merging } => {
            &&& well_aimed(request, context, merging, past)
            &&& accepted(request, merging, past)
        },
        MergeStateOf::CheckingTargetBookmark { merging } => {
            &&& well_aimed(request, context, merging, past)
            &&& accepted(request, merging, past)
            &&& found(context, merging.source.branch, past)
        },
        MergeStateOf::CheckingTargetStatus { merging } => {
            &&& well_aimed(request, context, merging, past)
            &&& accepted(request, merging, past)
            &&& found(context, merging.source.branch, past)
            &&& found(context, merging.target.branch, past)
        },
        MergeStateOf::Quoting { merging } => {
            &&& well_aimed(request, context, merging, past)
            &&& vetted(request, context, merging, past)
        },
        MergeStateOf::RunningHooks { ready } => cleared(request, context, ready, past),
        MergeStateOf::Announcing { ready } => cleared(request, context, ready, past),
        MergeStateOf::Operating { ready } => cleared(request, context, ready, past),
        MergeStateOf::CheckingConflicts { ready } => cleared(request, context, ready, past),
        MergeStateOf::Undoing { ready } => cleared(request, context, ready, past),
        MergeStateOf::FollowingUp { ready, .. } => cleared(request, context, ready, past),
        MergeStateOf::Notifying { merging } => carried_out(request, context, merging, past),
        MergeStateOf::CleaningUp { merging } => carried_out(request, context, merging, past),
        MergeStateOf::ReadingMode { merging, .. } => carried_out(request, context, merging, past),
        MergeStateOf::QueryingMux { merging, .. } => carried_out(request, context, merging, past),
        MergeStateOf::Navigating { merging, .. } => carried_out(request, context, merging, past),
    }
}

/// The commands that were run where a merge waits for a reply.
spec fn ran_so_far<E>(
    request: MergeRequestView,
    state: MergeStateView,
    past: Seq<Exchange<E>>,
) -> bool {
    let strategy = request.chosen_strategy();
    let cmds = commands(past);
    match state {
        MergeStateOf::CheckingConflicts { ready } => cmds == seq![
            operation_command(strategy, ready),
        ],
        MergeStateOf::Undoing { ready } => cmds == seq![
            operation_command(strategy, ready),
            check_command(strategy, ready),
        ],
        MergeStateOf::FollowingUp { ready, done } => {
            &&& done < follow_ups_of(strategy, ready).len()
            &&& cmds == seq![
                operation_command(strategy, ready),
                check_command(strategy, ready),
            ] + follow_up_commands(strategy, ready, done as nat)
        },
        MergeStateOf::Notifying { .. } => true,
        MergeStateOf::CleaningUp { .. } => true,
        MergeStateOf::ReadingMode { .. } => true,
        MergeStateOf::QueryingMux { .. } => true,
        MergeStateOf::Navigating { .. } => true,
        _ => cmds == Seq::<Command>::empty(),
    }
}

/// How the effects went where a merge waits for a reply.
spec fn went_so_far<E>(state: MergeStateView, past: Seq<Exchange<E>>) -> bool {
    &&& all_succeeded(past)
    &&& state is Undoing || conflict_free(past)
    &&& !(state is CleaningUp) && !(state is ReadingMode) && !(state is QueryingMux) && !(
    state is Navigating) ==> quiet(past)
}

proof fn ran_step<E>(
    request: MergeRequestView,
    context: MergeContextView,
    state: MergeStateView,
    reply: ReplyView<E>,
    past: Seq<Exchange<E>>,
)
    requires
        answers(merge_effect(request, context, state), reply),
        ran_so_far(request, state, past),
    ensures
        merge_after(request, context, state, reply) matches Progress::Awaiting(next) ==> ran_so_far(
            request,
            next,
            past.push((merge_effect(request, context, state), reply)),
        ),
{
    let strategy = request.chosen_strategy();
    let now = past.push((merge_effect(request, context, state), reply));
    assert(now.drop_last() =~= past);
    match state {
        MergeStateOf::Operating { ready } => {
            assert(commands(now) =~= seq![operation_command(strategy, ready)]);
        },
        MergeStateOf::CheckingConflicts { ready } => {
            assert(commands(now) =~= seq![
                operation_command(strategy, ready),
                check_command(strategy, ready),
            ]);
            assert(commands(now) =~= seq![
                operation_command(strategy, ready),
                check_command(strategy, ready),
            ] + follow_up_commands(strategy, ready, 0));
        },
        MergeStateOf::FollowingUp { ready, done } => {
            assert(commands(now) =~= seq![
                operation_command(strategy, ready),
                check_command(strategy, ready),
            ] + follow_up_commands(strategy, ready, (done + 1) as nat));
        },
        _ => {},
    }
}

/// The last follow-up completes the plan.
proof fn plan_is_completed<E>(
    request: MergeRequestView,
    context: MergeContextView,
    ready: ReadyView,
    done: usize,
    past: Seq<Exchange<E>>,
    reply: ReplyView<E>,
)
    requires
        ran_so_far(request, MergeStateOf::FollowingUp { ready, done }, past),
        cleared(request, context, ready, past),
        done + 1 == follow_ups_of(request.chosen_strategy(), ready).len(),
    ensures
        carried_out(
            request,
            context,
            ready.merging,
            past.push(
                (
                    merge_effect(request, context, MergeStateOf::FollowingUp { ready, done }),
                    reply,
                ),
            ),
        ),
{
    let strategy = request.chosen_strategy();
    let exchange = (
        merge_effect(request, context, MergeStateOf::FollowingUp { ready, done }),
        reply,
    );
    let now = past.push(exchange);
    assert(now.drop_last() =~= past);
    clearance_stays(request, context, ready, past, exchange);
    assert(commands(now) =~= full_plan(strategy, ready));
}

proof fn known_step<E>(
    request: MergeRequestView,
    context: MergeContextView,
    state: MergeStateView,
    reply: ReplyView<E>,
    past: Seq<Exchange<E>>,
)
    requires
        answers(merge_effect(request, context, state), reply),
        known_so_far(request, context, state, past),
        ran_so_far(request, state, past),
    ensures
        merge_after(request, context, state, reply) matches Progress::Awaiting(next)
            ==> known_so_far(
            request,
            context,
            next,
            past.push((merge_effect(request, context, state), reply)),
        ),
{
    let exchange = (merge_effect(request, context, state), reply);
    let now = past.push(exchange);
    push_keeps(past, exchange);
    match state {
        MergeStateOf::EnteringMainWorktree => {},
        MergeStateOf::ListingSources => {
            if let ReplyOf::Workspaces { entries } = reply {
                if workspace_named(entries, request.name) is Some {
                    let (path, branch) = workspace_named(entries, request.name)->0;
                    assert(listed(context, entries, now));
                    assert(named(request, context, path, branch, now));
                }
            }
        },
        MergeStateOf::CheckingMainWorktree { path, branch } => {
            named_stays(request, context, path, branch, past, exchange);
        },
        MergeStateOf::ReadingBase { source } => {
            named_stays(request, context, source.path, source.branch, past, exchange);
        },
        MergeStateOf::CheckingBase { source, base } => {
            named_stays(request, context, source.path, source.branch, past, exchange);
            assert(base_read(context, source.branch, base, now));
            match reply {
                ReplyOf::Flag { value: true } => {
                    assert(found(context, base, now));
                },
                ReplyOf::Flag { value: false } => {
                    assert(not_found(context, base, now));
                },
                ReplyOf::Failed { cause } => {
                    assert(now.contains(exchange));
                    assert(not_found(context, base, now));
                },
                _ => {},
            }
        },
        MergeStateOf::ListingTargets { source, target_branch } => {
            named_stays(request, context, source.path, source.branch, past, exchange);
            target_stays_chosen(
                request,
                context,
                source.branch,
                target_branch,
                past,
                exchange,
            );
            if let ReplyOf::Workspaces { entries } = reply {
                assert(listed(context, entries, now));
                assert(target_path(context, entries, target_branch) == target_path(
                    context,
                    entries,
                    target_branch,
                ));
            }
        },
        MergeStateOf::ReadingAttachment { source, target } => {
            named_stays(request, context, source.path, source.branch, past, exchange);
            target_stays_chosen(
                request,
                context,
                source.branch,
                target.branch,
                past,
                exchange,
            );
            target_stays_placed(context, target, past, exchange);
        },
        MergeStateOf::CheckingSourceStatus { merging } => {
            aim_stays(request, context, merging, past, exchange);
        },
        MergeStateOf::CheckingSourceBookmark { merging } => {
            aim_stays(request, context, merging, past, exchange);
        },
        MergeStateOf::CheckingTargetBookmark { merging } => {
            aim_stays(request, context, merging, past, exchange);
        },
        MergeStateOf::CheckingTargetStatus { merging } => {
            aim_stays(request, context, merging, past, exchange);
        },
        MergeStateOf::Quoting { merging } => {
            aim_stays(request, context, merging, past, exchange);
            if let ReplyOf::Quoted { feature, target } = reply {
                assert(now.contains(exchange));
                assert(bookmark_revset_text(feature) == bookmark_revset_text(feature));
                assert(bookmark_revset_text(target) == bookmark_revset_text(target));
            }
        },
        MergeStateOf::RunningHooks { ready } => {
            clearance_stays(request, context, ready, past, exchange);
        },
        MergeStateOf::Announcing { ready } => {
            clearance_stays(request, context, ready, past, exchange);
        },
        MergeStateOf::Operating { ready } => {
            clearance_stays(request, context, ready, past, exchange);
        },
        MergeStateOf::CheckingConflicts { ready } => {
            clearance_stays(request, context, ready, past, exchange);
        },
        MergeStateOf::Undoing { .. } => {},
        MergeStateOf::FollowingUp { ready, done } => {
            clearance_stays(request, context, ready, past, exchange);
            if done + 1 == follow_ups_of(request.chosen_strategy(), ready).len() {
                plan_is_completed(request, context, ready, done, past, reply);
            }
        },
        MergeStateOf::Notifying { merging } => {
            carried_out_stays(request, context, merging, past, exchange);
        },
        MergeStateOf::CleaningUp { merging } => {
            carried_out_stays(request, context, merging, past, exchange);
        },
        MergeStateOf::ReadingMode { merging, .. } => {
            carried_out_stays(request, context, merging, past, exchange);
        },
        MergeStateOf::QueryingMux { merging, .. } => {
            carried_out_stays(request, context, merging, past, exchange);
        },
        MergeStateOf::Navigating { .. } => {},
    }
}

proof fn follow_ups_are_no_checks(strategy: Strategy, ready: ReadyView, i: int)
    requires
        0 <= i < follow_ups_of(strategy, ready).len(),
    ensures
        !is_conflict_check(jj_line(follow_ups_of(strategy, ready)[i])),
{
    let line = jj_line(follow_ups_of(strategy, ready)[i]);
    assert(line.len() < 9);
    if is_conflict_check(line) {
        let revset = choose|revset: Seq<char>| line == conflict_check_line(revset);
        assert(conflict_check_line(revset).len() == 9);
    }
}

proof fn went_step<E>(
    request: MergeRequestView,
    context: MergeContextView,
    state: MergeStateView,
    reply: ReplyView<E>,
    past: Seq<Exchange<E>>,
)
    requires
        answers(merge_effect(request, context, state), reply),
        ran_so_far(request, state, past),
        went_so_far(state, past),
    ensures
        match merge_after(request, context, state, reply) {
            Progress::Awaiting(next) => went_so_far(
                next,
                past.push((merge_effect(request, context, state), reply)),
            ),
            Progress::Finished(Ok(_)) => {
                let now = past.push((merge_effect(request, context, state), reply));
                all_succeeded(now) && conflict_free(now)
            },
            Progress::Finished(Err(_)) => quiet(
                past.push((merge_effect(request, context, state), reply)),
            ),
        },
{
    let strategy = request.chosen_strategy();
    match state {
        MergeStateOf::Operating { ready } => {
            operations_are_no_undo_and_no_check(strategy, ready);
        },
        MergeStateOf::FollowingUp { ready, done } => {
            follow_ups_are_no_checks(strategy, ready, done as int);
        },
        _ => {},
    }
}

proof fn invariants_hold<E>(
    request: MergeRequestView,
    context: MergeContextView,
    replies: Seq<ReplyView<E>>,
)
    requires
        is_run(request, context, replies),
    ensures
        merge_run(request, context, replies) matches Progress::Awaiting(state) ==> {
            &&& known_so_far(request, context, state, history(request, context, replies))
            &&& ran_so_far(request, state, history(request, context, replies))
            &&& went_so_far(state, history(request, context, replies))
        },
    decreases replies.len(),
{
    if replies.len() > 0 {
        let before = replies.drop_last();
        let past = history(request, context, before);
        let state = merge_run(request, context, before)->Awaiting_0;
        invariants_hold(request, context, before);
        ran_step(request, context, state, replies.last(), past);
        known_step(request, context, state, replies.last(), past);
        went_step(request, context, state, replies.last(), past);
    }
}

/// What a merge that has come to an end looked like before its last reply.
proof fn last_step<E>(
    request: MergeRequestView,
    context: MergeContextView,
    replies: Seq<ReplyView<E>>,
) -> (last: (MergeStateView, Seq<Exchange<E>>))
    requires
        is_run(request, context, replies),
        replies.len() > 0,
    ensures
        known_so_far(request, context, last.0, last.1),
        ran_so_far(request, last.0, last.1),
        went_so_far(last.0, last.1),
        answers(merge_effect(request, context, last.0), replies.last()),
        merge_run(request, context, replies) == merge_after(
            request,
            context,
            last.0,
            replies.last(),
        ),
        history(request, context, replies) == last.1.push(
            (merge_effect(request, context, last.0), replies.last()),
        ),
{
    let before = replies.drop_last();
    let past = history(request, context, before);
    let state = merge_run(request, context, before)->Awaiting_0;
    invariants_hold(request, context, before);
    (state, past)
}

/// What is known of the operations in effect where a merge stands.
spec fn in_effect_so_far<E>(
    request: MergeRequestView,
    progress: MergeProgressView<E>,
    log: Seq<Command>,
    last: ReplyView<E>,
) -> bool {
    let strategy = request.chosen_strategy();
    match progress {
        Progress::Awaiting(state) => match state {
            MergeStateOf::CheckingConflicts { ready } => log == seq![
                operation_command(strategy, ready),
            ],
            MergeStateOf::Undoing { ready } => log == seq![operation_command(strategy, ready)],
            MergeStateOf::FollowingUp { .. } => true,
            MergeStateOf::Notifying { .. } => true,
            MergeStateOf::CleaningUp { .. } => true,
            MergeStateOf::ReadingMode { .. } => true,
            MergeStateOf::QueryingMux { .. } => true,
            MergeStateOf::Navigating { .. } => true,
            _ => log == Seq::<Command>::empty(),
        },
        Progress::Finished(Err(WorkflowErrorOf::MergeConflict { .. })) => {
            last matches ReplyOf::Output { success: true, .. } ==> log == Seq::<Command>::empty()
        },
        Progress::Finished(_) => true,
    }
}

proof fn in_effect_step<E>(
    request: MergeRequestView,
    context: MergeContextView,
    state: MergeStateView,
    reply: ReplyView<E>,
    past: Seq<Exchange<E>>,
    before: ReplyView<E>,
)
    requires
        answers(merge_effect(request, context, state), reply),
        in_effect_so_far::<E>(request, Progress::Awaiting(state), operations_in_effect(past), before),
    ensures
        in_effect_so_far(
            request,
            merge_after(request, context, state, reply),
            operations_in_effect(past.push((merge_effect(request, context, state), reply))),
            reply,
        ),
{
    let strategy = request.chosen_strategy();
    let now = past.push((merge_effect(request, context, state), reply));
    assert(now.drop_last() =~= past);
    match state {
        MergeStateOf::Operating { ready } => {
            operations_are_no_undo_and_no_check(strategy, ready);
            assert(operations_in_effect(past).push(operation_command(strategy, ready)) =~= seq![
                operation_command(strategy, ready),
            ]);
        },
        MergeStateOf::CheckingConflicts { ready } => {
            undo_is_no_check();
            assert(is_conflict_check(conflict_check_line(affected_by(strategy, ready))));
        },
        MergeStateOf::Undoing { ready } => {
            assert(operations_in_effect(past).drop_last() =~= Seq::<Command>::empty());
        },
        _ => {},
    }
}

proof fn in_effect_holds<E>(
    request: MergeRequestView,
    context: MergeContextView,
    replies: Seq<ReplyView<E>>,
)
    requires
        is_run(request, context, replies),
    ensures
        in_effect_so_far(
            request,
            merge_run(request, context, replies),
            operations_in_effect(history(request, context, replies)),
            replies.last(),
        ),
    decreases replies.len(),
{
    if replies.len() > 0 {
        in_effect_holds(request, context, replies.drop_last());
        let state = merge_run(request, context, replies.drop_last())->Awaiting_0;
        in_effect_step(
            request,
            context,
            state,
            replies.last(),
            history(request, context, replies.drop_last()),
            replies.drop_last().last(),
        );
    }
}

/// Conflicts are detected and the operation is undone: a merge that ends because of conflicts
/// was cleared, has run its operation, the check on it, and then an undo in the same workspace,
/// and nothing else; the error names the two branches and that workspace. Nothing is announced,
/// cleaned up or closed. Where the undo succeeded, the repository is left as it was before the
/// attempt.
pub proof fn conflict_is_undone<E>(
    request: MergeRequestView,
    context: MergeContextView,
    replies: Seq<ReplyView<E>>,
)
    requires
        is_run(request, context, replies),
        merge_run(request, context, replies) matches Progress::Finished(Err(error))
            && error is MergeConflict,
    ensures
        exists|ready: ReadyView|
            {
                &&& #[trigger] rolled_back(
                    request,
                    context,
                    ready,
                    history(request, context, replies),
                )
                &&& merge_run(request, context, replies) == MergeProgressView::<E>::Finished(
                    Err(
                        WorkflowErrorOf::MergeConflict {
                            branch: ready.merging.source.branch,
                            target: ready.merging.target.branch,
                            workspace: site_of(request.chosen_strategy(), ready).text,
                        },
                    ),
                )
            },
        quiet(history(request, context, replies)),
        replies.last() matches ReplyOf::Output { success: true, .. } ==> operations_in_effect(
            history(request, context, replies),
        ) == Seq::<Command>::empty(),
{
    let (state, past) = last_step(request, context, replies);
    in_effect_holds(request, context, replies);
    went_step(request, context, state, replies.last(), past);
    if let MergeStateOf::Undoing { ready } = state {
        let exchange = (merge_effect(request, context, state), replies.last());
        let now = past.push(exchange);
        assert(now.drop_last() =~= past);
        clearance_stays(request, context, ready, past, exchange);
        assert(commands(now) =~= undone_plan(request.chosen_strategy(), ready));
        assert(rolled_back(request, context, ready, now));
    }
}

/// A reported conflict always ends the merge: the next command is the undo, and then the merge
/// fails with the conflict, whether or not the undo succeeded.
pub proof fn reported_conflict_fails<E>(
    request: MergeRequestView,
    context: MergeContextView,
    ready: ReadyView,
    check: ReplyView<E>,
    undo: ReplyView<E>,
)
    requires
        check matches ReplyOf::Output { success: true, .. },
        crate::jj::reports_conflict(check),
    ensures
        merge_after(request, context, MergeStateOf::CheckingConflicts { ready }, check)
            == MergeProgressView::<E>::Awaiting(MergeStateOf::Undoing { ready }),
        merge_effect(request, context, MergeStateOf::Undoing { ready }) == (EffectView::RunJj {
            dir: site_of(request.chosen_strategy(), ready),
            args: jj_line(seq!["undo"@]),
        }),
        merge_after(request, context, MergeStateOf::Undoing { ready }, undo)
            == MergeProgressView::<E>::Finished(
            Err(
                WorkflowErrorOf::MergeConflict {
                    branch: ready.merging.source.branch,
                    target: ready.merging.target.branch,
                    workspace: site_of(request.chosen_strategy(), ready).text,
                },
            ),
        ),
{
}

/// A merge that is refused does nothing: unless a command failed, could not be started, or left
/// conflicts, a merge that ends in an error has run no command, and nothing was announced,
/// cleaned up or closed.
pub proof fn refusal_does_nothing<E>(
    request: MergeRequestView,
    context: MergeContextView,
    replies: Seq<ReplyView<E>>,
)
    requires
        is_run(request, context, replies),
        merge_run(request, context, replies) matches Progress::Finished(Err(error))
            && !(error is MergeConflict) && !(error is CommandFailed) && !(error is Context),
    ensures
        commands(history(request, context, replies)) == Seq::<Command>::empty(),
        quiet(history(request, context, replies)),
{
    let (state, past) = last_step(request, context, replies);
    let now = past.push((merge_effect(request, context, state), replies.last()));
    assert(now.drop_last() =~= past);
    went_step(request, context, state, replies.last(), past);
}

/// A merge that fails announces nothing, cleans nothing up and closes no window, however it
/// fails.
pub proof fn failure_keeps_the_workspace<E>(
    request: MergeRequestView,
    context: MergeContextView,
    replies: Seq<ReplyView<E>>,
)
    requires
        is_run(request, context, replies),
        merge_run(request, context, replies) matches Progress::Finished(Err(_)),
    ensures
        quiet(history(request, context, replies)),
{
    let (state, past) = last_step(request, context, replies);
    went_step(request, context, state, replies.last(), past);
}

/// A merge that succeeds has run exactly the commands of the strategy that was asked for, all
/// of them with success and without conflict. It merged the workspace that was asked for into
/// the target that was chosen, after both were vetted, and reports the two branches.
pub proof fn success_carries_out_the_strategy<E>(
    request: MergeRequestView,
    context: MergeContextView,
    replies: Seq<ReplyView<E>>,
)
    requires
        is_run(request, context, replies),
        merge_run(request, context, replies) matches Progress::Finished(Ok(_)),
    ensures
        merge_run(request, context, replies) matches Progress::Finished(Ok(result)) && exists|
            merging: MergingView,
        |
            {
                &&& #[trigger] carried_out(
                    request,
                    context,
                    merging,
                    history(request, context, replies),
                )
                &&& result.branch_merged == merging.source.branch
                &&& result.main_branch == merging.target.branch
                &&& !result.had_staged_changes
            },
        all_succeeded(history(request, context, replies)),
        conflict_free(history(request, context, replies)),
{
    let (state, past) = last_step(request, context, replies);
    let exchange = (merge_effect(request, context, state), replies.last());
    let now = past.push(exchange);
    went_step(request, context, state, replies.last(), past);
    match state {
        MergeStateOf::FollowingUp { ready, done } => {
            plan_is_completed(request, context, ready, done, past, replies.last());
            assert(carried_out(request, context, ready.merging, now));
        },
        MergeStateOf::Notifying { merging } => {
            carried_out_stays(request, context, merging, past, exchange);
            assert(carried_out(request, context, merging, now));
        },
        MergeStateOf::CleaningUp { merging } => {
            carried_out_stays(request, context, merging, past, exchange);
            assert(carried_out(request, context, merging, now));
        },
        MergeStateOf::QueryingMux { merging, .. } => {
            carried_out_stays(request, context, merging, past, exchange);
            assert(carried_out(request, context, merging, now));
        },
        MergeStateOf::Navigating { merging, .. } => {
            carried_out_stays(request, context, merging, past, exchange);
            assert(carried_out(request, context, merging, now));
        },
        _ => {},
    }
}

/// Whether `cmds` is a first part of what the strategy runs, or that part of it that ends in
/// the undo.
pub open spec fn on_plan(strategy: Strategy, ready: ReadyView, cmds: Seq<Command>) -> bool {
    ||| cmds.is_prefix_of(full_plan(strategy, ready))
    ||| cmds == undone_plan(strategy, ready)
}

/// No command runs before everything that could speak against the merge has been looked at,
/// and none that is not part of the strategy: whenever a command has run, the history shows
/// that the merge was cleared, and the commands are those of the strategy for this merge.
pub proof fn only_the_cleared_plan_runs<E>(
    request: MergeRequestView,
    context: MergeContextView,
    replies: Seq<ReplyView<E>>,
)
    requires
        is_run(request, context, replies),
        commands(history(request, context, replies)).len() > 0,
    ensures
        exists|ready: ReadyView|
            {
                &&& #[trigger] on_plan(
                    request.chosen_strategy(),
                    ready,
                    commands(history(request, context, replies)),
                )
                &&& cleared(request, context, ready, history(request, context, replies))
            },
{
    let (state, past) = last_step(request, context, replies);
    let strategy = request.chosen_strategy();
    let exchange = (merge_effect(request, context, state), replies.last());
    let now = past.push(exchange);
    assert(now.drop_last() =~= past);
    match state {
        MergeStateOf::Operating { ready } => {
            clearance_stays(request, context, ready, past, exchange);
            assert(commands(now) =~= full_plan(strategy, ready).take(1));
            assert(on_plan(strategy, ready, commands(now)));
        },
        MergeStateOf::CheckingConflicts { ready } => {
            clearance_stays(request, context, ready, past, exchange);
            assert(commands(now) =~= full_plan(strategy, ready).take(2));
            assert(on_plan(strategy, ready, commands(now)));
        },
        MergeStateOf::Undoing { ready } => {
            clearance_stays(request, context, ready, past, exchange);
            assert(commands(now) =~= undone_plan(strategy, ready));
            assert(on_plan(strategy, ready, commands(now)));
        },
        MergeStateOf::FollowingUp { ready, done } => {
            clearance_stays(request, context, ready, past, exchange);
            assert(commands(now) =~= full_plan(strategy, ready).take(done + 3));
            assert(on_plan(strategy, ready, commands(now)));
        },
        MergeStateOf::Notifying { merging } => {
            carried_out_is_on_plan(request, context, merging, past, exchange);
        },
        MergeStateOf::CleaningUp { merging } => {
            carried_out_is_on_plan(request, context, merging, past, exchange);
        },
        MergeStateOf::ReadingMode { merging, .. } => {
            carried_out_is_on_plan(request, context, merging, past, exchange);
        },
        MergeStateOf::QueryingMux { merging, .. } => {
            carried_out_is_on_plan(request, context, merging, past, exchange);
        },
        MergeStateOf::Navigating { merging, .. } => {
            carried_out_is_on_plan(request, context, merging, past, exchange);
        },
        _ => {},
    }
}

proof fn carried_out_is_on_plan<E>(
    request: MergeRequestView,
    context: MergeContextView,
    merging: MergingView,
    past: Seq<Exchange<E>>,
    exchange: Exchange<E>,
)
    requires
        carried_out(request, context, merging, past),
        !(exchange.0 is RunJj),
    ensures
        exists|ready: ReadyView|
            {
                &&& #[trigger] on_plan(
                    request.chosen_strategy(),
                    ready,
                    commands(past.push(exchange)),
                )
                &&& cleared(request, context, ready, past.push(exchange))
            },
{
    let strategy = request.chosen_strategy();
    let now = past.push(exchange);
    carried_out_stays(request, context, merging, past, exchange);
    let ready = choose|ready: ReadyView|
        {
            &&& ready.merging == merging
            &&& commands(now) == #[trigger] full_plan(strategy, ready)
            &&& cleared(request, context, ready, now)
        };
    assert(on_plan(strategy, ready, commands(now)));
}

/// A merged workspace is cleaned up only once its branch is in the target: every command of
/// the strategy has run and succeeded, and no conflict was reported.
pub proof fn cleanup_waits_for_success<E>(
    request: MergeRequestView,
    context: MergeContextView,
    replies: Seq<ReplyView<E>>,
    merging: MergingView,
)
    requires
        is_run(request, context, replies),
        merge_run(request, context, replies) == MergeProgressView::<E>::Awaiting(
            MergeStateOf::CleaningUp { merging },
        ),
    ensures
        carried_out(request, context, merging, history(request, context, replies)),
        all_succeeded(history(request, context, replies)),
        conflict_free(history(request, context, replies)),
{
    invariants_hold(request, context, replies);
}

/// The operations that rewrite history override the protection of commits that are marked as
/// immutable.
pub proof fn rewriting_overrides_immutability(strategy: Strategy, ready: ReadyView)
    ensures
        strategy is Rebase || strategy is Squash ==> operation_of(strategy, ready).contains(
            "--ignore-immutable"@,
        ),
{
    assert(strategy is Rebase || strategy is Squash ==> operation_of(strategy, ready)[1]
        == "--ignore-immutable"@);
}

/// A workspace that is to be kept is not cleaned up, and no window of it is closed.
pub proof fn kept_workspace_is_left_alone<E>(
    request: MergeRequestView,
    context: MergeContextView,
    replies: Seq<ReplyView<E>>,
)
    requires
        is_run(request, context, replies),
        request.keep,
    ensures
        forall|i: int|
            0 <= i < history(request, context, replies).len() ==> !((
            #[trigger] history(request, context, replies)[i]).0 is Cleanup) && !(history(
                request,
                context,
                replies,
            )[i].0 is NavigateAndClose),
        merge_run(request, context, replies) matches Progress::Finished(Ok(result))
            ==> !result.cleanup_scheduled && result.cleanup_error is None,
        match merge_run(request, context, replies) {
            Progress::Awaiting(state) => !(state is CleaningUp) && !(state is ReadingMode) && !(
            state is QueryingMux) && !(state is Navigating),
            Progress::Finished(_) => true,
        },
    decreases replies.len(),
{
    if replies.len() > 0 {
        kept_workspace_is_left_alone(request, context, replies.drop_last());
    }
}

/// How many effects a merge can still ask for.
pub open spec fn effects_left(state: MergeStateView) -> nat {
    match state {
        MergeStateOf::EnteringMainWorktree => 24,
        MergeStateOf::ListingSources => 23,
        MergeStateOf::CheckingMainWorktree { .. } => 22,
        MergeStateOf::ReadingBase { .. } => 21,
        MergeStateOf::CheckingBase { .. } => 20,
        MergeStateOf::ListingTargets { .. } => 19,
        MergeStateOf::ReadingAttachment { .. } => 18,
        MergeStateOf::CheckingSourceStatus { .. } => 17,
        MergeStateOf::CheckingSourceBookmark { .. } => 16,
        MergeStateOf::CheckingTargetBookmark { .. } => 15,
        MergeStateOf::CheckingTargetStatus { .. } => 14,
        MergeStateOf::Quoting { .. } => 13,
        MergeStateOf::RunningHooks { .. } => 12,
        MergeStateOf::Announcing { .. } => 11,
        MergeStateOf::Operating { .. } => 10,
        MergeStateOf::CheckingConflicts { .. } => 9,
        MergeStateOf::Undoing { .. } => 8,
        MergeStateOf::FollowingUp { done, .. } => if done == 0 {
            7
        } else {
            6
        },
        MergeStateOf::Notifying { .. } => 5,
        MergeStateOf::CleaningUp { .. } => 4,
        MergeStateOf::ReadingMode { .. } => 3,
        MergeStateOf::QueryingMux { .. } => 2,
        MergeStateOf::Navigating { .. } => 1,
    }
}

/// Every merge comes to an end, after a fixed number of effects at most.
pub proof fn merge_ends<E>(
    request: MergeRequestView,
    context: MergeContextView,
    replies: Seq<ReplyView<E>>,
)
    requires
        is_run(request, context, replies),
    ensures
        replies.len() <= 24,
        merge_run(request, context, replies) matches Progress::Awaiting(state) ==> replies.len()
            + effects_left(state) <= 24,
    decreases replies.len(),
{
    if replies.len() > 0 {
        merge_ends(request, context, replies.drop_last());
        let state = merge_run(request, context, replies.drop_last())->Awaiting_0;
        invariants_hold(request, context, replies.drop_last());
        assert(effects_left(state) >= 1);
    }
}

/// A branch is merged into the branch that the user named, else into its recorded base if that
/// exists, else into the main branch.
pub proof fn target_follows_the_order_of_choice<E>(
    request: MergeRequestView,
    context: MergeContextView,
    replies: Seq<ReplyView<E>>,
)
    requires
        is_run(request, context, replies),
        merge_run(request, context, replies) matches Progress::Finished(Ok(_)),
    ensures
        merge_run(request, context, replies) matches Progress::Finished(Ok(result))
            && target_chosen(
            request,
            context,
            result.branch_merged,
            result.main_branch,
            history(request, context, replies),
        ),
{
    success_carries_out_the_strategy(request, context, replies);
}

} // verus!
