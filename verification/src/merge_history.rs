//! Merges exchange by exchange: what is asked for next, and what leads to which end.

use crate::effect::{
    answers, CleanupOptions, EffectOf, EffectView, Progress, ReplyOf, ReplyView,
};
use crate::error::{WorkflowErrorOf, WorkflowErrorView};
use crate::merge::{
    merge_after, merge_effect, MergeContextView, MergeRequestView, MergeResultView, MergeStateOf,
    MergeStateView, MergingView, ReadyView, SourceView, Strategy, TargetView,
};
use crate::merge_laws::merging_workflow;
use crate::meta::{MuxMode, WorktreeAttachment};
use crate::paths::PathView;
use crate::run::{stands_at, Exchange};
use crate::text::trimmed;
use crate::workspace::{workspace_named, EntryView};
use vstd::prelude::*;

verus! {

/// Whether a history begins with the first two exchanges of a merge: the main worktree is
/// entered, and a listing of the workspaces says that the name that was asked for stands for the
/// workspace at `path` with `branch`.
pub open spec fn begins_with<E>(
    request: MergeRequestView,
    context: MergeContextView,
    path: PathView,
    branch: Seq<char>,
    past: Seq<Exchange<E>>,
) -> bool {
    &&& past.len() >= 2
    &&& past[0] == (EffectView::EnterMainWorktree, ReplyView::<E>::Done)
    &&& past[1].0 == EffectView::ListWorkspaces { dir: context.execution_dir }
    &&& past[1].1 matches ReplyOf::Workspaces { entries }
    &&& workspace_named(entries, request.name) == Some((path, branch))
}

/// Whether the first three exchanges find the workspace to merge: it answers to the name that was
/// asked for, it is not the main one, and its handle is the name of its directory.
pub open spec fn opened<E>(
    request: MergeRequestView,
    context: MergeContextView,
    source: SourceView,
    past: Seq<Exchange<E>>,
) -> bool {
    &&& begins_with(request, context, source.path, source.branch, past)
    &&& stands_at(
        past,
        2,
        (EffectOf::IsMainWorktree { path: source.path }, ReplyOf::Flag { value: false }),
    )
    &&& source.path.file_name_text() == Some(source.handle)
}

/// Whether the exchanges up to position `n` find the target branch: the one that the user named,
/// else the recorded base if there is one and it exists, else the main branch.
pub open spec fn aimed<E>(
    request: MergeRequestView,
    context: MergeContextView,
    branch: Seq<char>,
    target_branch: Seq<char>,
    n: int,
    past: Seq<Exchange<E>>,
) -> bool {
    let here = context.execution_dir;
    match request.into_branch {
        Some(named) => n == 3 && target_branch == named,
        None => {
            &&& past.len() > 3
            &&& past[3].0 == EffectView::BranchBase { branch, dir: here }
            &&& match past[3].1 {
                ReplyOf::Name { value: None } => n == 4 && target_branch == context.main_branch,
                ReplyOf::Name { value: Some(base) } => {
                    &&& n == 5
                    &&& past.len() > 4
                    &&& past[4].0 == EffectView::BranchExists { branch: base, dir: here }
                    &&& target_branch == if past[4].1 == (ReplyView::<E>::Flag { value: true }) {
                        base
                    } else {
                        context.main_branch
                    }
                },
                _ => false,
            }
        },
    }
}

/// Whether by a listing of the workspaces the one at `path` is the first that holds `branch`, or
/// none does and `path` is the main worktree.
pub open spec fn held_by(
    context: MergeContextView,
    entries: Seq<EntryView>,
    branch: Seq<char>,
    path: PathView,
) -> bool {
    ||| exists|i: int|
        #![trigger entries[i]]
        {
            &&& 0 <= i < entries.len()
            &&& entries[i].branch_or_bookmark == Some(branch)
            &&& entries[i].path == path
            &&& forall|j: int|
                0 <= j < i ==> (#[trigger] entries[j]).branch_or_bookmark != Some(branch)
        }
    ||| {
        &&& path == context.main_worktree_root
        &&& forall|i: int|
            0 <= i < entries.len() ==> (#[trigger] entries[i]).branch_or_bookmark != Some(branch)
    }
}

/// Whether a listing of the workspaces at position `n` finds the target workspace. Its window is
/// called like the main branch if it is the main one, else like its directory.
pub open spec fn placed<E>(
    context: MergeContextView,
    target: TargetView,
    n: int,
    past: Seq<Exchange<E>>,
) -> bool {
    &&& 0 <= n < past.len()
    &&& past[n].0 == EffectView::ListWorkspaces { dir: context.execution_dir }
    &&& past[n].1 matches ReplyOf::Workspaces { entries }
    &&& held_by(context, entries, target.branch, target.path)
    &&& if target.path.key() == context.main_worktree_root.key() {
        target.window == context.main_branch
    } else {
        target.path.file_name_text() == Some(target.window)
    }
}

/// Whether the exchange at position `i` reads how the workspace is attached.
pub open spec fn attached<E>(
    context: MergeContextView,
    merging: MergingView,
    i: int,
    past: Seq<Exchange<E>>,
) -> bool {
    &&& 0 <= i < past.len()
    &&& past[i].0 == EffectView::ReadMeta {
        handle: merging.source.handle,
        key: "attachment"@,
        dir: context.execution_dir,
    }
    &&& past[i].1 matches ReplyOf::Name { value }
    &&& merging.attachment == match value {
        None => WorktreeAttachment::Legacy,
        Some(text) => if text == "headless"@ {
            WorktreeAttachment::Headless
        } else if text == "multiplexer"@ {
            WorktreeAttachment::Multiplexer
        } else {
            WorktreeAttachment::Unknown
        },
    }
}

/// Whether the exchanges up to position `n + 1` find the two sides of a merge.
pub open spec fn sides_found<E>(
    request: MergeRequestView,
    context: MergeContextView,
    merging: MergingView,
    n: int,
    past: Seq<Exchange<E>>,
) -> bool {
    &&& opened(request, context, merging.source, past)
    &&& aimed(request, context, merging.source.branch, merging.target.branch, n, past)
    &&& placed(context, merging.target, n, past)
    &&& attached(context, merging, n + 1, past)
}

/// The position of the first exchange that looks up a bookmark to merge, where `n` is that of the
/// second listing of the workspaces.
pub open spec fn lookups_at(request: MergeRequestView, n: int) -> int {
    if request.keep {
        n + 2
    } else {
        n + 3
    }
}

/// Whether the uncommitted changes of the workspace to merge do not stand in the way: it is kept,
/// or an exchange finds that it has none, or that it has some, which are to be ignored.
pub open spec fn admitted<E>(
    request: MergeRequestView,
    merging: MergingView,
    n: int,
    past: Seq<Exchange<E>>,
) -> bool {
    request.keep || {
        &&& past.len() > n + 2
        &&& past[n + 2].0 == EffectView::Status { path: merging.source.path }
        &&& past[n + 2].1 matches ReplyOf::Flag { value: dirty }
        &&& dirty ==> request.ignore_uncommitted
    }
}

/// Whether the two sides of a merge are found, differ, and nothing uncommitted stands in the way.
pub open spec fn admissible<E>(
    request: MergeRequestView,
    context: MergeContextView,
    merging: MergingView,
    n: int,
    past: Seq<Exchange<E>>,
) -> bool {
    &&& sides_found(request, context, merging, n, past)
    &&& admitted(request, merging, n, past)
    &&& merging.source.branch != merging.target.branch
}

/// The exchange that finds out that `branch` exists.
pub open spec fn exists_exchange<E>(context: MergeContextView, branch: Seq<char>) -> Exchange<E> {
    (
        EffectOf::BranchExists { branch, dir: context.execution_dir },
        ReplyOf::Flag { value: true },
    )
}

/// The exchange that finds out that the workspace at `path` has no uncommitted changes.
pub open spec fn clean_exchange<E>(path: PathView) -> Exchange<E> {
    (EffectOf::Status { path }, ReplyOf::Flag { value: false })
}

/// Whether from position `c` on both branches are found to exist, the target workspace is found
/// to be clean, and the revsets are made of the quoted names of the branches.
pub open spec fn checked<E>(
    context: MergeContextView,
    ready: ReadyView,
    c: int,
    past: Seq<Exchange<E>>,
) -> bool {
    let merging = ready.merging;
    &&& stands_at(past, c, exists_exchange(context, merging.source.branch))
    &&& stands_at(past, c + 1, exists_exchange(context, merging.target.branch))
    &&& stands_at(past, c + 2, clean_exchange(merging.target.path))
    &&& past.len() > c + 3
    &&& past[c + 3].0 == EffectView::QuoteBookmarks {
        feature: merging.source.branch,
        target: merging.target.branch,
    }
    &&& past[c + 3].1 matches ReplyOf::Quoted { feature, target }
    &&& ready.feature == "bookmarks(exact:"@ + feature + ")"@
    &&& ready.onto == "bookmarks(exact:"@ + target + ")"@
}

/// The hooks that precede a merge.
pub open spec fn hooks(request: MergeRequestView, merging: MergingView) -> EffectView {
    EffectOf::RunPreMergeHooks {
        handle: merging.source.handle,
        branch: merging.source.branch,
        target: merging.target.branch,
        path: merging.source.path,
        skip_verify: request.skip_verify,
        no_hooks: request.no_hooks,
    }
}

/// The line that announces a merge that rebases.
pub open spec fn announcement(merging: MergingView) -> EffectView {
    EffectOf::Print {
        text: "Rebasing '"@ + merging.source.branch + "' onto '"@ + merging.target.branch
            + "'..."@,
    }
}

/// The position of the operation of the strategy, where `n` is that of the second listing of the
/// workspaces.
pub open spec fn operation_at(request: MergeRequestView, n: int) -> int {
    if request.rebase {
        lookups_at(request, n) + 6
    } else {
        lookups_at(request, n) + 5
    }
}

/// Whether a merge has come to the operation of its strategy: it is admissible and checked, the
/// hooks have run, and it is announced if it rebases.
pub open spec fn approved<E>(
    request: MergeRequestView,
    context: MergeContextView,
    ready: ReadyView,
    n: int,
    past: Seq<Exchange<E>>,
) -> bool {
    let c = lookups_at(request, n);
    &&& admissible(request, context, ready.merging, n, past)
    &&& checked(context, ready, c, past)
    &&& stands_at(past, c + 4, (hooks(request, ready.merging), ReplyOf::Done))
    &&& request.rebase ==> stands_at(past, c + 5, (announcement(ready.merging), ReplyOf::Done))
}

/// A command that is run in `dir`.
pub open spec fn run_in(dir: PathView, args: Seq<Seq<char>>) -> EffectView {
    EffectOf::RunJj { dir, args }
}

/// The workspace in which the strategy operates: a rebase in the one that is merged, the others
/// in the target.
pub open spec fn place(request: MergeRequestView, ready: ReadyView) -> PathView {
    if request.rebase {
        ready.merging.source.path
    } else {
        ready.merging.target.path
    }
}

/// The operation of the strategy that was asked for.
pub open spec fn operation(request: MergeRequestView, ready: ReadyView) -> EffectView {
    if request.rebase {
        run_in(
            ready.merging.source.path,
            seq![
                "--no-pager"@,
                "--color=never"@,
                "rebase"@,
                "--ignore-immutable"@,
                "-d"@,
                ready.onto,
            ],
        )
    } else if request.squash {
        run_in(
            ready.merging.target.path,
            seq![
                "--no-pager"@,
                "--color=never"@,
                "squash"@,
                "--ignore-immutable"@,
                "--from"@,
                "(::"@ + ready.feature + " ~ ::"@ + ready.onto + ")"@,
                "--into"@,
                ready.onto,
                "--use-destination-message"@,
            ],
        )
    } else {
        run_in(
            ready.merging.target.path,
            seq![
                "--no-pager"@,
                "--color=never"@,
                "new"@,
                ready.onto,
                ready.feature,
                "-m"@,
                "Merge branch '"@ + ready.merging.source.branch + "' into "@
                    + ready.merging.target.branch,
            ],
        )
    }
}

/// The revset that the conflict check looks at: the target head after a squash, else the commit
/// of the working copy.
pub open spec fn affected(request: MergeRequestView, ready: ReadyView) -> Seq<char> {
    if request.squash && !request.rebase {
        ready.onto
    } else {
        "@"@
    }
}

/// The conflict check of the strategy that was asked for.
pub open spec fn check(request: MergeRequestView, ready: ReadyView) -> EffectView {
    run_in(
        place(request, ready),
        seq![
            "--no-pager"@,
            "--color=never"@,
            "--ignore-working-copy"@,
            "log"@,
            "--no-graph"@,
            "-r"@,
            affected(request, ready),
            "-T"@,
            "if(conflict,\"1\",\"0\")"@,
        ],
    )
}

/// The undoing of the operation.
pub open spec fn undo(request: MergeRequestView, ready: ReadyView) -> EffectView {
    run_in(place(request, ready), seq!["--no-pager"@, "--color=never"@, "undo"@])
}

/// The command that moves the target bookmark onto `revset`.
pub open spec fn bookmark_move(ready: ReadyView, revset: Seq<char>) -> EffectView {
    run_in(
        ready.merging.target.path,
        seq![
            "--no-pager"@,
            "--color=never"@,
            "bookmark"@,
            "set"@,
            ready.merging.target.branch,
            "-r"@,
            revset,
        ],
    )
}

/// The command that makes a new commit on top of the target.
pub open spec fn new_commit(ready: ReadyView) -> EffectView {
    run_in(
        ready.merging.target.path,
        seq!["--no-pager"@, "--color=never"@, "new"@, ready.onto],
    )
}

/// How many commands follow the conflict check.
pub open spec fn rest_len(request: MergeRequestView) -> int {
    if request.rebase {
        2
    } else {
        1
    }
}

/// The commands that follow the conflict check: a rebase moves the target bookmark onto the
/// branch and makes a new commit on top of it, a squash makes a new commit on top of the target,
/// and a merge commit gets the target bookmark.
pub open spec fn rest(request: MergeRequestView, ready: ReadyView, i: int) -> EffectView {
    if request.rebase {
        if i == 0 {
            bookmark_move(ready, ready.feature)
        } else {
            new_commit(ready)
        }
    } else if request.squash {
        new_commit(ready)
    } else {
        bookmark_move(ready, "@"@)
    }
}

/// Whether a command succeeded.
pub open spec fn succeeded<E>(reply: ReplyView<E>) -> bool {
    reply matches ReplyOf::Output { success, .. } && success
}

/// Whether a command succeeded and printed `text`, but for white space around it.
pub open spec fn printed<E>(reply: ReplyView<E>, text: Seq<char>) -> bool {
    reply matches ReplyOf::Output { success, stdout, .. } && success && trimmed(stdout) == text
}

/// Whether from position `o` on the operation, the conflict check and `done` of the commands that
/// follow it were run, and all went well.
pub open spec fn operated<E>(
    request: MergeRequestView,
    ready: ReadyView,
    o: int,
    done: int,
    past: Seq<Exchange<E>>,
) -> bool {
    &&& past.len() >= o + 2 + done
    &&& past[o].0 == operation(request, ready)
    &&& succeeded(past[o].1)
    &&& past[o + 1].0 == check(request, ready)
    &&& succeeded(past[o + 1].1)
    &&& !printed(past[o + 1].1, "1"@)
    &&& forall|i: int|
        #![trigger past[o + 2 + i]]
        0 <= i < done ==> past[o + 2 + i].0 == rest(request, ready, i) && succeeded(
            past[o + 2 + i].1,
        )
}

/// The position after the last command, where `n` is that of the second listing of the
/// workspaces.
pub open spec fn commands_end(request: MergeRequestView, n: int) -> int {
    operation_at(request, n) + 2 + rest_len(request)
}

/// Whether a merge has run all its commands, and all went well.
pub open spec fn accomplished<E>(
    request: MergeRequestView,
    context: MergeContextView,
    ready: ReadyView,
    n: int,
    past: Seq<Exchange<E>>,
) -> bool {
    &&& approved(request, context, ready, n, past)
    &&& operated(request, ready, operation_at(request, n), rest_len(request), past)
}

/// The notification of a merge that is done.
pub open spec fn notice(merging: MergingView) -> EffectView {
    EffectOf::Notify {
        text: "Merged '"@ + merging.source.branch + "' into '"@ + merging.target.branch + "'"@,
    }
}

/// The position at which the cleanup begins.
pub open spec fn cleanup_at(request: MergeRequestView, n: int) -> int {
    if request.notification {
        commands_end(request, n) + 1
    } else {
        commands_end(request, n)
    }
}

/// Whether the user was notified if that was asked for.
pub open spec fn notified<E>(
    request: MergeRequestView,
    merging: MergingView,
    n: int,
    past: Seq<Exchange<E>>,
) -> bool {
    request.notification ==> stands_at(
        past,
        commands_end(request, n),
        (notice(merging), ReplyOf::Done),
    )
}

/// The cleanup of the workspace that was merged.
pub open spec fn cleanup(request: MergeRequestView, merging: MergingView) -> EffectView {
    EffectOf::Cleanup {
        branch: merging.source.branch,
        handle: merging.source.handle,
        path: merging.source.path,
        options: CleanupOptions {
            force: true,
            keep_branch: false,
            no_hooks: request.no_hooks,
            show_hook_output: true,
        },
    }
}

/// Whether the exchange at position `i` reads the mode in which the workspace was opened.
pub open spec fn mode_read<E>(
    context: MergeContextView,
    merging: MergingView,
    mode: MuxMode,
    i: int,
    past: Seq<Exchange<E>>,
) -> bool {
    &&& 0 <= i < past.len()
    &&& past[i].0 == EffectView::ReadMeta {
        handle: merging.source.handle,
        key: "mode"@,
        dir: context.execution_dir,
    }
    &&& past[i].1 matches ReplyOf::Name { value }
    &&& mode == if value == Some("session"@) {
        MuxMode::Session
    } else {
        MuxMode::Window
    }
}

/// A merge rebases whenever that is asked for, squashes where only that is, and else makes a merge
/// commit.
pub proof fn strategy_follows_the_request(request: MergeRequestView)
    ensures
        request.rebase ==> request.chosen_strategy() == Strategy::Rebase,
        !request.rebase && request.squash ==> request.chosen_strategy() == Strategy::Squash,
        !request.rebase && !request.squash ==> request.chosen_strategy() == Strategy::MergeCommit,
{
}

/// The commands of a merge are those listed above.
proof fn commands_are_as_listed(
    request: MergeRequestView,
    context: MergeContextView,
    ready: ReadyView,
    done: usize,
)
    ensures
        merge_effect(request, context, MergeStateOf::Operating { ready }) == operation(
            request,
            ready,
        ),
        merge_effect(request, context, MergeStateOf::CheckingConflicts { ready }) == check(
            request,
            ready,
        ),
        merge_effect(request, context, MergeStateOf::Undoing { ready }) == undo(request, ready),
        crate::merge::follow_ups_of(request.chosen_strategy(), ready).len() == rest_len(request),
        done < rest_len(request) ==> merge_effect(
            request,
            context,
            MergeStateOf::FollowingUp { ready, done },
        ) == rest(request, ready, done as int),
{
    let strategy = request.chosen_strategy();
    assert(crate::jj::jj_line(crate::merge::operation_of(strategy, ready)) =~= operation(
        request,
        ready,
    )->args);
    assert(crate::jj::conflict_check_line(crate::merge::affected_by(strategy, ready)) =~= check(
        request,
        ready,
    )->args);
    assert(crate::jj::jj_line(seq!["undo"@]) =~= undo(request, ready)->args);
    if done < rest_len(request) {
        assert(crate::jj::jj_line(crate::merge::follow_ups_of(strategy, ready)[done as int])
            =~= rest(request, ready, done as int)->args);
    }
}

/// What is known of the two sides stays known.
proof fn sides_stay<E>(
    request: MergeRequestView,
    context: MergeContextView,
    merging: MergingView,
    n: int,
    past: Seq<Exchange<E>>,
    exchange: Exchange<E>,
)
    ensures
        opened(request, context, merging.source, past) ==> opened(
            request,
            context,
            merging.source,
            past.push(exchange),
        ),
        aimed(request, context, merging.source.branch, merging.target.branch, n, past) ==> aimed(
            request,
            context,
            merging.source.branch,
            merging.target.branch,
            n,
            past.push(exchange),
        ),
        placed(context, merging.target, n, past) ==> placed(
            context,
            merging.target,
            n,
            past.push(exchange),
        ),
        attached(context, merging, n + 1, past) ==> attached(
            context,
            merging,
            n + 1,
            past.push(exchange),
        ),
        admitted(request, merging, n, past) && n >= 0 ==> admitted(
            request,
            merging,
            n,
            past.push(exchange),
        ),
{
}

proof fn approval_stays<E>(
    request: MergeRequestView,
    context: MergeContextView,
    ready: ReadyView,
    n: int,
    past: Seq<Exchange<E>>,
    exchange: Exchange<E>,
)
    requires
        approved(request, context, ready, n, past),
    ensures
        approved(request, context, ready, n, past.push(exchange)),
{
    sides_stay(request, context, ready.merging, n, past, exchange);
}

proof fn accomplishment_stays<E>(
    request: MergeRequestView,
    context: MergeContextView,
    ready: ReadyView,
    n: int,
    past: Seq<Exchange<E>>,
    exchange: Exchange<E>,
)
    requires
        accomplished(request, context, ready, n, past),
    ensures
        accomplished(request, context, ready, n, past.push(exchange)),
{
    approval_stays(request, context, ready, n, past, exchange);
}

/// A branch is held by the workspace that the search for it finds, else by the main one.
proof fn target_is_held(
    context: MergeContextView,
    entries: Seq<EntryView>,
    branch: Seq<char>,
)
    ensures
        held_by(context, entries, branch, crate::merge::target_path(context, entries, branch)),
{
    let wanted = crate::workspace::has_branch(branch);
    crate::workspace::first_where_is_first(entries, wanted);
    if let Some(found) = crate::workspace::first_where(entries, wanted) {
        let i = choose|i: int|
            #![trigger entries[i]]
            0 <= i < entries.len() && entries[i] == found && wanted(found) && forall|j: int|
                0 <= j < i ==> !wanted(#[trigger] entries[j]);
        assert(entries[i].path == found.path);
        assert forall|j: int| 0 <= j < i implies (#[trigger] entries[j]).branch_or_bookmark != Some(
            branch,
        ) by {
            assert(!wanted(entries[j]));
        }
    } else {
        assert forall|i: int| 0 <= i < entries.len() implies (#[trigger] entries[
            i
        ]).branch_or_bookmark != Some(branch) by {
            assert(!wanted(entries[i]));
        }
    }
}

/// What a merge has found out before it runs commands.
spec fn found_so_far<E>(
    request: MergeRequestView,
    context: MergeContextView,
    state: MergeStateView,
    n: int,
    past: Seq<Exchange<E>>,
) -> bool {
    let c = lookups_at(request, n);
    match state {
        MergeStateOf::EnteringMainWorktree => past.len() == 0,
        MergeStateOf::ListingSources => {
            &&& past.len() == 1
            &&& past[0] == (EffectView::EnterMainWorktree, ReplyView::<E>::Done)
        },
        MergeStateOf::CheckingMainWorktree { path, branch } => {
            &&& past.len() == 2
            &&& begins_with(request, context, path, branch, past)
        },
        MergeStateOf::ReadingBase { source } => {
            &&& past.len() == 3
            &&& opened(request, context, source, past)
            &&& request.into_branch is None
        },
        MergeStateOf::CheckingBase { source, base } => {
            &&& past.len() == 4
            &&& opened(request, context, source, past)
            &&& request.into_branch is None
            &&& past[3] == (
                EffectView::BranchBase { branch: source.branch, dir: context.execution_dir },
                ReplyView::<E>::Name { value: Some(base) },
            )
        },
        MergeStateOf::ListingTargets { source, target_branch } => {
            &&& past.len() == n
            &&& opened(request, context, source, past)
            &&& aimed(request, context, source.branch, target_branch, n, past)
        },
        MergeStateOf::ReadingAttachment { source, target } => {
            &&& past.len() == n + 1
            &&& opened(request, context, source, past)
            &&& aimed(request, context, source.branch, target.branch, n, past)
            &&& placed(context, target, n, past)
        },
        MergeStateOf::CheckingSourceStatus { merging } => {
            &&& past.len() == n + 2
            &&& sides_found(request, context, merging, n, past)
            &&& !request.keep
        },
        MergeStateOf::CheckingSourceBookmark { merging } => {
            &&& past.len() == c
            &&& admissible(request, context, merging, n, past)
        },
        MergeStateOf::CheckingTargetBookmark { merging } => {
            &&& past.len() == c + 1
            &&& admissible(request, context, merging, n, past)
            &&& stands_at(past, c, exists_exchange(context, merging.source.branch))
        },
        MergeStateOf::CheckingTargetStatus { merging } => {
            &&& past.len() == c + 2
            &&& admissible(request, context, merging, n, past)
            &&& stands_at(past, c, exists_exchange(context, merging.source.branch))
            &&& stands_at(past, c + 1, exists_exchange(context, merging.target.branch))
        },
        MergeStateOf::Quoting { merging } => {
            &&& past.len() == c + 3
            &&& admissible(request, context, merging, n, past)
            &&& stands_at(past, c, exists_exchange(context, merging.source.branch))
            &&& stands_at(past, c + 1, exists_exchange(context, merging.target.branch))
            &&& stands_at(past, c + 2, clean_exchange(merging.target.path))
        },
        MergeStateOf::RunningHooks { ready } => {
            &&& past.len() == c + 4
            &&& admissible(request, context, ready.merging, n, past)
            &&& checked(context, ready, c, past)
        },
        MergeStateOf::Announcing { ready } => {
            &&& past.len() == c + 5
            &&& admissible(request, context, ready.merging, n, past)
            &&& checked(context, ready, c, past)
            &&& stands_at(past, c + 4, (hooks(request, ready.merging), ReplyOf::Done))
            &&& request.rebase
        },
        MergeStateOf::Operating { ready } => {
            &&& past.len() == operation_at(request, n)
            &&& approved(request, context, ready, n, past)
        },
        _ => true,
    }
}

/// What a merge has done since it began to run commands.
spec fn done_so_far<E>(
    request: MergeRequestView,
    context: MergeContextView,
    state: MergeStateView,
    n: int,
    ready: ReadyView,
    past: Seq<Exchange<E>>,
) -> bool {
    let o = operation_at(request, n);
    let t = cleanup_at(request, n);
    match state {
        MergeStateOf::CheckingConflicts { ready: found } => {
            &&& ready == found
            &&& past.len() == o + 1
            &&& approved(request, context, ready, n, past)
            &&& past[o].0 == operation(request, ready)
            &&& succeeded(past[o].1)
        },
        MergeStateOf::Undoing { ready: found } => {
            &&& ready == found
            &&& past.len() == o + 2
            &&& approved(request, context, ready, n, past)
            &&& past[o].0 == operation(request, ready)
            &&& succeeded(past[o].1)
            &&& past[o + 1].0 == check(request, ready)
            &&& printed(past[o + 1].1, "1"@)
        },
        MergeStateOf::FollowingUp { ready: found, done } => {
            &&& ready == found
            &&& past.len() == o + 2 + done
            &&& approved(request, context, ready, n, past)
            &&& operated(request, ready, o, done as int, past)
            &&& done < rest_len(request)
        },
        MergeStateOf::Notifying { merging } => {
            &&& ready.merging == merging
            &&& past.len() == commands_end(request, n)
            &&& accomplished(request, context, ready, n, past)
            &&& request.notification
        },
        MergeStateOf::CleaningUp { merging } => {
            &&& ready.merging == merging
            &&& past.len() == t
            &&& accomplished(request, context, ready, n, past)
            &&& notified(request, merging, n, past)
            &&& !request.keep
        },
        MergeStateOf::ReadingMode { merging, scheduled } => {
            &&& ready.merging == merging
            &&& past.len() == t + 1
            &&& accomplished(request, context, ready, n, past)
            &&& notified(request, merging, n, past)
            &&& !request.keep
            &&& stands_at(past, t, (cleanup(request, merging), ReplyOf::Flag { value: scheduled }))
        },
        MergeStateOf::QueryingMux { merging, scheduled, mode } => {
            &&& ready.merging == merging
            &&& past.len() == t + 2
            &&& accomplished(request, context, ready, n, past)
            &&& notified(request, merging, n, past)
            &&& !request.keep
            &&& stands_at(past, t, (cleanup(request, merging), ReplyOf::Flag { value: scheduled }))
            &&& mode_read(context, merging, mode, t + 1, past)
        },
        MergeStateOf::Navigating { merging, scheduled, mode } => {
            &&& ready.merging == merging
            &&& past.len() == t + 3
            &&& accomplished(request, context, ready, n, past)
            &&& notified(request, merging, n, past)
            &&& !request.keep
            &&& stands_at(past, t, (cleanup(request, merging), ReplyOf::Flag { value: scheduled }))
            &&& mode_read(context, merging, mode, t + 1, past)
            &&& stands_at(
                past,
                t + 2,
                (
                    EffectOf::ManagesMux { attachment: merging.attachment },
                    ReplyOf::Flag { value: true },
                ),
            )
        },
        _ => true,
    }
}

#[verifier::rlimit(60)]
proof fn finding_step<E>(
    request: MergeRequestView,
    context: MergeContextView,
    state: MergeStateView,
    reply: ReplyView<E>,
    n: int,
    past: Seq<Exchange<E>>,
) -> (m: int)
    requires
        answers(merge_effect(request, context, state), reply),
        found_so_far(request, context, state, n, past),
    ensures
        merge_after(request, context, state, reply) matches Progress::Awaiting(next)
            ==> found_so_far(
            request,
            context,
            next,
            m,
            past.push((merge_effect(request, context, state), reply)),
        ),
        !(state is EnteringMainWorktree) && !(state is ListingSources) && !(
        state is CheckingMainWorktree) && !(state is ReadingBase) && !(state is CheckingBase) ==> m
            == n,
{
    let exchange = (merge_effect(request, context, state), reply);
    let now = past.push(exchange);
    match state {
        MergeStateOf::CheckingMainWorktree { .. } => 3,
        MergeStateOf::ReadingBase { .. } => 4,
        MergeStateOf::CheckingBase { .. } => 5,
        MergeStateOf::ListingTargets { source, target_branch } => {
            if let ReplyOf::Workspaces { entries } = reply {
                target_is_held(context, entries, target_branch);
            }
            n
        },
        MergeStateOf::CheckingSourceStatus { merging } => {
            sides_stay(request, context, merging, n, past, exchange);
            n
        },
        MergeStateOf::CheckingSourceBookmark { merging } => {
            sides_stay(request, context, merging, n, past, exchange);
            n
        },
        MergeStateOf::CheckingTargetBookmark { merging } => {
            sides_stay(request, context, merging, n, past, exchange);
            n
        },
        MergeStateOf::CheckingTargetStatus { merging } => {
            sides_stay(request, context, merging, n, past, exchange);
            n
        },
        MergeStateOf::Quoting { merging } => {
            sides_stay(request, context, merging, n, past, exchange);
            n
        },
        MergeStateOf::RunningHooks { ready } => {
            sides_stay(request, context, ready.merging, n, past, exchange);
            n
        },
        MergeStateOf::Announcing { ready } => {
            sides_stay(request, context, ready.merging, n, past, exchange);
            n
        },
        _ => n,
    }
}

/// The follow-up at `done` adds itself to the commands that went well.
proof fn follow_up_adds<E>(
    request: MergeRequestView,
    context: MergeContextView,
    ready: ReadyView,
    n: int,
    done: usize,
    past: Seq<Exchange<E>>,
    reply: ReplyView<E>,
)
    requires
        done_so_far(
            request,
            context,
            MergeStateOf::FollowingUp { ready, done },
            n,
            ready,
            past,
        ),
        succeeded(reply),
    ensures
        operated(
            request,
            ready,
            operation_at(request, n),
            done + 1,
            past.push((rest(request, ready, done as int), reply)),
        ),
{
    let o = operation_at(request, n);
    let now = past.push((rest(request, ready, done as int), reply));
    assert forall|i: int| #![trigger now[o + 2 + i]] 0 <= i < done + 1 implies now[o + 2 + i].0
        == rest(request, ready, i) && succeeded(now[o + 2 + i].1) by {
        if i < done {
            assert(now[o + 2 + i] == past[o + 2 + i]);
        }
    }
}

#[verifier::rlimit(60)]
proof fn doing_step<E>(
    request: MergeRequestView,
    context: MergeContextView,
    state: MergeStateView,
    reply: ReplyView<E>,
    n: int,
    ready: ReadyView,
    past: Seq<Exchange<E>>,
) -> (found: ReadyView)
    requires
        answers(merge_effect(request, context, state), reply),
        found_so_far(request, context, state, n, past),
        done_so_far(request, context, state, n, ready, past),
    ensures
        merge_after(request, context, state, reply) matches Progress::Awaiting(next)
            ==> done_so_far(
            request,
            context,
            next,
            n,
            found,
            past.push((merge_effect(request, context, state), reply)),
        ),
{
    let exchange = (merge_effect(request, context, state), reply);
    let now = past.push(exchange);
    match state {
        MergeStateOf::Operating { ready: cleared } => {
            commands_are_as_listed(request, context, cleared, 0);
            approval_stays(request, context, cleared, n, past, exchange);
            cleared
        },
        MergeStateOf::CheckingConflicts { .. } => {
            commands_are_as_listed(request, context, ready, 0);
            approval_stays(request, context, ready, n, past, exchange);
            ready
        },
        MergeStateOf::FollowingUp { done, .. } => {
            commands_are_as_listed(request, context, ready, done);
            approval_stays(request, context, ready, n, past, exchange);
            if succeeded(reply) {
                follow_up_adds(request, context, ready, n, done, past, reply);
            }
            ready
        },
        MergeStateOf::Notifying { .. } => {
            accomplishment_stays(request, context, ready, n, past, exchange);
            ready
        },
        MergeStateOf::CleaningUp { .. } => {
            accomplishment_stays(request, context, ready, n, past, exchange);
            ready
        },
        MergeStateOf::ReadingMode { .. } => {
            accomplishment_stays(request, context, ready, n, past, exchange);
            reveal_strlit("session");
            reveal_strlit("window");
            ready
        },
        MergeStateOf::QueryingMux { .. } => {
            accomplishment_stays(request, context, ready, n, past, exchange);
            ready
        },
        _ => ready,
    }
}

proof fn so_far_holds<E>(
    request: MergeRequestView,
    context: MergeContextView,
    replies: Seq<ReplyView<E>>,
) -> (known: (int, ReadyView))
    requires
        merging_workflow(request, context).is_run(replies),
    ensures
        merging_workflow(request, context).standing(replies) matches Progress::Awaiting(state) ==> {
            let past = merging_workflow(request, context).history(replies);
            &&& found_so_far(request, context, state, known.0, past)
            &&& done_so_far(request, context, state, known.0, known.1, past)
        },
    decreases replies.len(),
{
    let flow = merging_workflow::<E>(request, context);
    if replies.len() > 0 {
        let (n, ready) = so_far_holds(request, context, replies.drop_last());
        let state = flow.standing(replies.drop_last())->Awaiting_0;
        let past = flow.history(replies.drop_last());
        let reply = replies.last();
        assert(flow.history(replies) == past.push((merge_effect(request, context, state), reply)));
        assert(flow.standing(replies) == merge_after(request, context, state, reply));
        let m = finding_step(request, context, state, reply, n, past);
        let found = doing_step(request, context, state, reply, n, ready, past);
        (m, found)
    } else {
        (0, arbitrary())
    }
}

/// Whether a merge that has run all its commands ended with `result`. It is kept, or cleaned up;
/// where the cleanup began, the mode of the workspace is read and, if its windows are managed,
/// the window of the target is gone to and the other one closed. A failure of either is reported,
/// and does not undo the merge.
pub open spec fn ended_with<E>(
    request: MergeRequestView,
    context: MergeContextView,
    ready: ReadyView,
    n: int,
    result: MergeResultView<E>,
    past: Seq<Exchange<E>>,
) -> bool {
    let merging = ready.merging;
    let t = cleanup_at(request, n);
    &&& accomplished(request, context, ready, n, past)
    &&& notified(request, merging, n, past)
    &&& result.branch_merged == merging.source.branch
    &&& result.main_branch == merging.target.branch
    &&& !result.had_staged_changes
    &&& if request.keep {
        &&& past.len() == t
        &&& !result.cleanup_scheduled
        &&& result.cleanup_error is None
    } else {
        &&& past.len() > t
        &&& past[t].0 == cleanup(request, merging)
        &&& match past[t].1 {
            ReplyOf::Failed { cause } => {
                &&& past.len() == t + 1
                &&& !result.cleanup_scheduled
                &&& result.cleanup_error == Some(cause)
            },
            ReplyOf::Flag { value: scheduled } => {
                &&& result.cleanup_scheduled == scheduled
                &&& past.len() > t + 2
                &&& past[t + 2].0 == EffectView::ManagesMux { attachment: merging.attachment }
                &&& if past[t + 2].1 == (ReplyView::<E>::Flag { value: true }) {
                    &&& past.len() == t + 4
                    &&& past[t + 3].0 matches EffectOf::NavigateAndClose { window, handle, mode }
                    &&& mode_read(context, merging, mode, t + 1, past)
                    &&& window == merging.target.window
                    &&& handle == merging.source.handle
                    &&& result.cleanup_error == match past[t + 3].1 {
                        ReplyOf::Failed { cause } => Some(cause),
                        _ => None,
                    }
                } else {
                    &&& past.len() == t + 3
                    &&& past[t + 1].0 == EffectView::ReadMeta {
                        handle: merging.source.handle,
                        key: "mode"@,
                        dir: context.execution_dir,
                    }
                    &&& result.cleanup_error is None
                }
            },
            _ => false,
        }
    }
}

/// A merge that succeeds has taken every step of the strategy that was asked for, each in its
/// place and with the outcome that it needs, and no other step.
pub proof fn success_takes_every_step<E>(
    request: MergeRequestView,
    context: MergeContextView,
    result: MergeResultView<E>,
    replies: Seq<ReplyView<E>>,
)
    requires
        merging_workflow(request, context).is_run(replies),
        merging_workflow(request, context).standing(replies) == Progress::<
            MergeStateView,
            Result<MergeResultView<E>, WorkflowErrorView<E>>,
        >::Finished(Ok(result)),
    ensures
        exists|ready: ReadyView, n: int|
            #[trigger] ended_with(
                request,
                context,
                ready,
                n,
                result,
                merging_workflow(request, context).history(replies),
            ),
{
    let flow = merging_workflow::<E>(request, context);
    let (n, ready) = so_far_holds(request, context, replies.drop_last());
    let state = flow.standing(replies.drop_last())->Awaiting_0;
    let before = flow.history(replies.drop_last());
    let reply = replies.last();
    let exchange = (merge_effect(request, context, state), reply);
    let past = flow.history(replies);
    assert(past == before.push(exchange));
    assert(flow.standing(replies) == merge_after(request, context, state, reply));
    match state {
        MergeStateOf::FollowingUp { done, .. } => {
            commands_are_as_listed(request, context, ready, done);
            approval_stays(request, context, ready, n, before, exchange);
            follow_up_adds(request, context, ready, n, done, before, reply);
            assert(ended_with(request, context, ready, n, result, past));
        },
        MergeStateOf::Notifying { .. } => {
            accomplishment_stays(request, context, ready, n, before, exchange);
            assert(ended_with(request, context, ready, n, result, past));
        },
        MergeStateOf::CleaningUp { .. } => {
            accomplishment_stays(request, context, ready, n, before, exchange);
            assert(ended_with(request, context, ready, n, result, past));
        },
        MergeStateOf::QueryingMux { mode, .. } => {
            accomplishment_stays(request, context, ready, n, before, exchange);
            assert(mode_read(context, ready.merging, mode, cleanup_at(request, n) + 1, past));
            assert(ended_with(request, context, ready, n, result, past));
        },
        MergeStateOf::Navigating { mode, .. } => {
            accomplishment_stays(request, context, ready, n, before, exchange);
            assert(mode_read(context, ready.merging, mode, cleanup_at(request, n) + 1, past));
            assert(ended_with(request, context, ready, n, result, past));
        },
        _ => {},
    }
}

/// At most one workspace holds a branch by a listing.
proof fn holder_is_unique(
    context: MergeContextView,
    entries: Seq<EntryView>,
    branch: Seq<char>,
    a: PathView,
    b: PathView,
)
    requires
        held_by(context, entries, branch, a),
        held_by(context, entries, branch, b),
    ensures
        a == b,
{
    if exists|i: int|
        0 <= i < entries.len() && (#[trigger] entries[i]).branch_or_bookmark == Some(branch) {
        let i = choose|i: int|
            #![trigger entries[i]]
            {
                &&& 0 <= i < entries.len()
                &&& entries[i].branch_or_bookmark == Some(branch)
                &&& entries[i].path == a
                &&& forall|j: int|
                    0 <= j < i ==> (#[trigger] entries[j]).branch_or_bookmark != Some(branch)
            };
        let k = choose|k: int|
            #![trigger entries[k]]
            {
                &&& 0 <= k < entries.len()
                &&& entries[k].branch_or_bookmark == Some(branch)
                &&& entries[k].path == b
                &&& forall|j: int|
                    0 <= j < k ==> (#[trigger] entries[j]).branch_or_bookmark != Some(branch)
            };
        assert(i == k);
    }
}

/// What a history settles, it settles in one way.
proof fn approval_is_unique<E>(
    request: MergeRequestView,
    context: MergeContextView,
    a: ReadyView,
    n: int,
    b: ReadyView,
    m: int,
    past: Seq<Exchange<E>>,
)
    requires
        approved(request, context, a, n, past),
        approved(request, context, b, m, past),
    ensures
        a == b,
        n == m,
{
    assert(a.merging.source == b.merging.source);
    assert(n == m);
    if let ReplyOf::Workspaces { entries } = past[n].1 {
        holder_is_unique(
            context,
            entries,
            a.merging.target.branch,
            a.merging.target.path,
            b.merging.target.path,
        );
    }
    assert(a.merging.target == b.merging.target);
    assert(a.merging == b.merging);
}

/// A merge that has come to its commands runs the operation of the strategy next; once that
/// went well, the conflict check; on a conflict the undoing; and without one the commands that
/// follow, one after the other.
#[verifier::rlimit(60)]
pub proof fn approved_merge_runs_its_commands<E>(
    request: MergeRequestView,
    context: MergeContextView,
    ready: ReadyView,
    n: int,
    done: int,
    replies: Seq<ReplyView<E>>,
)
    requires
        merging_workflow(request, context).is_run(replies),
        approved(
            request,
            context,
            ready,
            n,
            merging_workflow(request, context).history(replies),
        ),
    ensures
        ({
            let flow = merging_workflow::<E>(request, context);
            let past = flow.history(replies);
            let next = flow.asks(replies);
            let o = operation_at(request, n);
            &&& past.len() == o ==> next == Some(operation(request, ready))
            &&& past.len() == o + 1 && succeeded(past[o].1) ==> next == Some(check(request, ready))
            &&& past.len() == o + 2 && succeeded(past[o].1) && printed(past[o + 1].1, "1"@) ==> next
                == Some(undo(request, ready))
            &&& past.len() == o + 2 + done && operated(request, ready, o, done, past) && 0 <= done
                < rest_len(request) ==> next == Some(rest(request, ready, done))
            &&& past.len() == commands_end(request, n) && accomplished(
                request,
                context,
                ready,
                n,
                past,
            ) && request.notification ==> next == Some(notice(ready.merging))
            &&& past.len() == cleanup_at(request, n) && accomplished(
                request,
                context,
                ready,
                n,
                past,
            ) && notified(request, ready.merging, n, past) && !request.keep ==> next == Some(
                cleanup(request, ready.merging),
            )
        }),
{
    let flow = merging_workflow::<E>(request, context);
    let past = flow.history(replies);
    let (k, known) = so_far_holds(request, context, replies.drop_last());
    let state = flow.standing(replies.drop_last())->Awaiting_0;
    let before = flow.history(replies.drop_last());
    let reply = replies.last();
    let exchange = (merge_effect(request, context, state), reply);
    assert(past == before.push(exchange));
    assert(flow.standing(replies) == merge_after(request, context, state, reply));
    match state {
        MergeStateOf::EnteringMainWorktree => {},
        MergeStateOf::ListingSources => {},
        MergeStateOf::CheckingMainWorktree { .. } => {},
        MergeStateOf::ReadingBase { .. } => {},
        MergeStateOf::CheckingBase { .. } => {},
        MergeStateOf::ListingTargets { .. } => {
            assert(n == k);
        },
        MergeStateOf::ReadingAttachment { .. } => {
            assert(n == k);
        },
        MergeStateOf::CheckingSourceStatus { .. } => {
            assert(n == k);
        },
        MergeStateOf::CheckingSourceBookmark { .. } => {
            assert(n == k);
        },
        MergeStateOf::CheckingTargetBookmark { .. } => {
            assert(n == k);
        },
        MergeStateOf::CheckingTargetStatus { .. } => {
            assert(n == k);
        },
        MergeStateOf::Quoting { .. } => {
            assert(n == k);
        },
        MergeStateOf::RunningHooks { ready: cleared } => {
            sides_stay(request, context, cleared.merging, k, before, exchange);
            assert(n == k);
            if reply is Done && !request.rebase {
                approval_is_unique(request, context, ready, n, cleared, k, past);
                commands_are_as_listed(request, context, ready, 0);
            }
        },
        MergeStateOf::Announcing { ready: cleared } => {
            sides_stay(request, context, cleared.merging, k, before, exchange);
            approval_is_unique(request, context, ready, n, cleared, k, past);
            commands_are_as_listed(request, context, ready, 0);
        },
        MergeStateOf::Operating { ready: cleared } => {
            approval_stays(request, context, cleared, k, before, exchange);
            approval_is_unique(request, context, ready, n, cleared, k, past);
            commands_are_as_listed(request, context, ready, 0);
        },
        _ => {
            approval_stays(request, context, known, k, before, exchange);
            approval_is_unique(request, context, ready, n, known, k, past);
            commands_are_as_listed(request, context, ready, 0);
            commands_are_as_listed(request, context, ready, 1);
            if let MergeStateOf::FollowingUp { done: d, .. } = state {
                commands_are_as_listed(request, context, ready, d);
                if succeeded(reply) {
                    follow_up_adds(request, context, ready, n, d, before, reply);
                }
                assert(past[operation_at(request, n) + 2 + d] == exchange);
            }
        },
    }
}

/// Every bookmark that a merge moves is the target branch: a `bookmark set` runs in the target
/// workspace and names the target branch, onto the branch that was merged by a rebase, else onto
/// the commit of the working copy.
pub proof fn only_the_target_bookmark_moves<E>(
    request: MergeRequestView,
    context: MergeContextView,
    dir: PathView,
    args: Seq<Seq<char>>,
    replies: Seq<ReplyView<E>>,
)
    requires
        merging_workflow(request, context).is_run(replies),
        merging_workflow(request, context).asks(replies) == Some(EffectView::RunJj { dir, args }),
        args.len() > 3,
        args[2] == "bookmark"@,
    ensures
        ({
            let past = merging_workflow::<E>(request, context).history(replies);
            exists|ready: ReadyView, n: int|
                #![trigger approved(request, context, ready, n, past)]
                {
                    &&& approved(request, context, ready, n, past)
                    &&& !request.squash || request.rebase
                    &&& dir == ready.merging.target.path
                    &&& args == seq![
                        "--no-pager"@,
                        "--color=never"@,
                        "bookmark"@,
                        "set"@,
                        ready.merging.target.branch,
                        "-r"@,
                        if request.rebase {
                            ready.feature
                        } else {
                            "@"@
                        },
                    ]
                }
        }),
{
    let flow = merging_workflow::<E>(request, context);
    let past = flow.history(replies);
    let (n, ready) = so_far_holds(request, context, replies);
    let state = flow.standing(replies)->Awaiting_0;
    reveal_strlit("bookmark");
    reveal_strlit("rebase");
    reveal_strlit("squash");
    reveal_strlit("new");
    reveal_strlit("undo");
    reveal_strlit("--ignore-working-copy");
    assert("bookmark"@.len() == 8);
    match state {
        MergeStateOf::Operating { ready: cleared } => {
            commands_are_as_listed(request, context, cleared, 0);
        },
        MergeStateOf::CheckingConflicts { .. } => {
            commands_are_as_listed(request, context, ready, 0);
        },
        MergeStateOf::Undoing { .. } => {
            commands_are_as_listed(request, context, ready, 0);
        },
        MergeStateOf::FollowingUp { done, .. } => {
            commands_are_as_listed(request, context, ready, done);
            assert(approved(request, context, ready, n, past));
        },
        _ => {},
    }
}

/// Once the conflict check has found no conflict, a rebase moves the target bookmark onto the
/// branch that was merged, then makes a new commit on the target; a squash makes a new commit on
/// the target; and a merge commit gets the target bookmark.
#[verifier::rlimit(60)]
pub proof fn target_is_brought_up_to_date<E>(
    request: MergeRequestView,
    context: MergeContextView,
    ready: ReadyView,
    n: int,
    replies: Seq<ReplyView<E>>,
)
    requires
        merging_workflow(request, context).is_run(replies),
        approved(
            request,
            context,
            ready,
            n,
            merging_workflow(request, context).history(replies),
        ),
        merging_workflow::<E>(request, context).history(replies).len() >= operation_at(request, n)
            + 2,
        ({
            let conflict_check = merging_workflow::<E>(request, context).history(
                replies,
            )[operation_at(request, n) + 1].1;
            succeeded(conflict_check) && !printed(conflict_check, "1"@)
        }),
    ensures
        ({
            let flow = merging_workflow::<E>(request, context);
            let past = flow.history(replies);
            let o = operation_at(request, n);
            let target = ready.merging.target;
            let bookmark_set = |revset: Seq<char>|
                seq![
                    "--no-pager"@,
                    "--color=never"@,
                    "bookmark"@,
                    "set"@,
                    target.branch,
                    "-r"@,
                    revset,
                ];
            let new = seq!["--no-pager"@, "--color=never"@, "new"@, ready.onto];
            &&& past.len() == o + 2 ==> flow.asks(replies) == Some(
                EffectView::RunJj {
                    dir: target.path,
                    args: if request.rebase {
                        bookmark_set(ready.feature)
                    } else if request.squash {
                        new
                    } else {
                        bookmark_set("@"@)
                    },
                },
            )
            &&& past.len() == o + 3 && request.rebase && succeeded(past[o + 2].1) ==> flow.asks(
                replies,
            ) == Some(EffectView::RunJj { dir: target.path, args: new })
        }),
{
    let flow = merging_workflow::<E>(request, context);
    let past = flow.history(replies);
    let o = operation_at(request, n);
    let (k, known) = so_far_holds(request, context, replies.drop_last());
    let state = flow.standing(replies.drop_last())->Awaiting_0;
    let before = flow.history(replies.drop_last());
    let reply = replies.last();
    let exchange = (merge_effect(request, context, state), reply);
    assert(past == before.push(exchange));
    assert(flow.standing(replies) == merge_after(request, context, state, reply));
    match state {
        MergeStateOf::EnteringMainWorktree => {},
        MergeStateOf::ListingSources => {},
        MergeStateOf::CheckingMainWorktree { .. } => {},
        MergeStateOf::ReadingBase { .. } => {},
        MergeStateOf::CheckingBase { .. } => {},
        MergeStateOf::Operating { ready: cleared } => {
            approval_stays(request, context, cleared, k, before, exchange);
            approval_is_unique(request, context, ready, n, cleared, k, past);
        },
        MergeStateOf::CheckingConflicts { .. } => {
            approval_stays(request, context, known, k, before, exchange);
            approval_is_unique(request, context, ready, n, known, k, past);
            commands_are_as_listed(request, context, ready, 0);
            assert(past[o + 1] == exchange);
        },
        MergeStateOf::Undoing { .. } => {
            approval_stays(request, context, known, k, before, exchange);
            approval_is_unique(request, context, ready, n, known, k, past);
            assert(past[o + 1] == before[o + 1]);
        },
        MergeStateOf::FollowingUp { done, .. } => {
            approval_stays(request, context, known, k, before, exchange);
            approval_is_unique(request, context, ready, n, known, k, past);
            commands_are_as_listed(request, context, ready, done);
            commands_are_as_listed(request, context, ready, 1);
            assert(past[o + 2 + done] == exchange);
        },
        MergeStateOf::Notifying { .. } => {
            approval_stays(request, context, known, k, before, exchange);
            approval_is_unique(request, context, ready, n, known, k, past);
        },
        MergeStateOf::CleaningUp { .. } => {
            approval_stays(request, context, known, k, before, exchange);
            approval_is_unique(request, context, ready, n, known, k, past);
        },
        MergeStateOf::ReadingMode { .. } => {
            approval_stays(request, context, known, k, before, exchange);
            approval_is_unique(request, context, ready, n, known, k, past);
        },
        MergeStateOf::QueryingMux { .. } => {
            approval_stays(request, context, known, k, before, exchange);
            approval_is_unique(request, context, ready, n, known, k, past);
        },
        MergeStateOf::Navigating { .. } => {
            approval_stays(request, context, known, k, before, exchange);
            approval_is_unique(request, context, ready, n, known, k, past);
        },
        _ => {
            assert(n == k);
        },
    }
}

/// How the command of the last exchange is named in messages, where the operation stands at
/// position `o`: the conflict check by what it looks at, the others by their arguments.
pub open spec fn named_in_messages(
    request: MergeRequestView,
    ready: ReadyView,
    o: int,
    len: int,
    args: Seq<Seq<char>>,
) -> Seq<char> {
    if len == o + 2 {
        "jj log -r "@ + affected(request, ready)
    } else {
        "jj "@ + crate::text::joined(args.skip(2), " "@)
    }
}

/// Whether the last exchange is a command of the merge, in its place.
pub open spec fn ends_in_command<E>(
    request: MergeRequestView,
    context: MergeContextView,
    ready: ReadyView,
    n: int,
    past: Seq<Exchange<E>>,
) -> bool {
    let o = operation_at(request, n);
    let effect = past.last().0;
    &&& approved(request, context, ready, n, past)
    &&& past.len() > o
    &&& past.len() == o + 1 ==> effect == operation(request, ready)
    &&& past.len() == o + 2 ==> effect == check(request, ready)
    &&& past.len() > o + 2 ==> {
        &&& past.len() <= o + 2 + rest_len(request)
        &&& operated(request, ready, o, past.len() - o - 3, past)
        &&& effect == rest(request, ready, past.len() - o - 3)
    }
}

/// Whether a merge that failed with `error` had the reason for it that the history shows.
pub open spec fn reason_for<E>(
    request: MergeRequestView,
    context: MergeContextView,
    error: WorkflowErrorView<E>,
    past: Seq<Exchange<E>>,
) -> bool {
    let here = context.execution_dir;
    let len = past.len() as int;
    let (effect, reply) = past.last();
    match error {
        WorkflowErrorOf::External { cause } => {
            &&& reply == ReplyView::<E>::Failed { cause }
            &&& match effect {
                EffectOf::EnterMainWorktree => len == 1,
                EffectOf::ListWorkspaces { .. } => len > 3,
                EffectOf::Status { .. } => true,
                EffectOf::BranchExists { .. } => len > 5,
                EffectOf::RunPreMergeHooks { .. } => true,
                _ => false,
            }
        },
        WorkflowErrorOf::Context { context: text, cause } => {
            &&& reply == ReplyView::<E>::Failed { cause }
            &&& exists|ready: ReadyView, n: int|
                {
                    &&& #[trigger] ends_in_command(request, context, ready, n, past)
                    &&& text == "Failed to execute "@ + named_in_messages(
                        request,
                        ready,
                        operation_at(request, n),
                        len,
                        effect->args,
                    )
                }
        },
        WorkflowErrorOf::CommandFailed { command, stderr } => {
            &&& reply matches ReplyOf::Output { success, stderr: said, .. }
            &&& !success
            &&& said == stderr
            &&& exists|ready: ReadyView, n: int|
                {
                    &&& #[trigger] ends_in_command(request, context, ready, n, past)
                    &&& command == named_in_messages(
                        request,
                        ready,
                        operation_at(request, n),
                        len,
                        effect->args,
                    )
                }
        },
        WorkflowErrorOf::WorktreeNotFound { name } => {
            &&& name == request.name
            &&& len == 2
            &&& effect == EffectView::ListWorkspaces { dir: here }
            &&& match reply {
                ReplyOf::Workspaces { entries } => workspace_named(entries, name) is None,
                ReplyOf::Failed { .. } => true,
                _ => false,
            }
        },
        WorkflowErrorOf::InMainWorkspace { branch, root } => {
            &&& len == 3
            &&& effect matches EffectOf::IsMainWorktree { path }
            &&& reply == ReplyView::<E>::Flag { value: true }
            &&& begins_with(request, context, path, branch, past)
            &&& root == context.main_worktree_root.text
        },
        WorkflowErrorOf::NoHandle { path: text } => {
            &&& len == 3
            &&& effect matches EffectOf::IsMainWorktree { path }
            &&& reply == ReplyView::<E>::Flag { value: false }
            &&& path.file_name_text() is None
            &&& text == path.text
        },
        WorkflowErrorOf::InvalidTargetPath => {
            &&& len > 3
            &&& effect == EffectView::ListWorkspaces { dir: here }
            &&& reply matches ReplyOf::Workspaces { entries }
            &&& exists|source: SourceView, target: Seq<char>, path: PathView|
                {
                    &&& #[trigger] aimed(request, context, source.branch, target, len - 1, past)
                    &&& opened(request, context, source, past)
                    &&& #[trigger] held_by(context, entries, target, path)
                    &&& path.key() != context.main_worktree_root.key()
                    &&& path.file_name_text() is None
                }
        },
        WorkflowErrorOf::SourceDirty { branch } => exists|merging: MergingView, n: int|
            {
                &&& #[trigger] sides_found(request, context, merging, n, past)
                &&& len == n + 3
                &&& effect == EffectView::Status { path: merging.source.path }
                &&& reply == ReplyView::<E>::Flag { value: true }
                &&& !request.keep
                &&& !request.ignore_uncommitted
                &&& branch == merging.source.branch
            },
        WorkflowErrorOf::MergeIntoItself { branch } => exists|merging: MergingView, n: int|
            {
                &&& #[trigger] sides_found(request, context, merging, n, past)
                &&& admitted(request, merging, n, past)
                &&& len == lookups_at(request, n)
                &&& branch == merging.source.branch
                &&& branch == merging.target.branch
            },
        WorkflowErrorOf::NoBookmark { branch } => exists|merging: MergingView, n: int|
            {
                let c = lookups_at(request, n);
                &&& #[trigger] admissible(request, context, merging, n, past)
                &&& effect == EffectView::BranchExists { branch, dir: here }
                &&& reply == ReplyView::<E>::Flag { value: false }
                &&& {
                    ||| len == c + 1 && branch == merging.source.branch
                    ||| len == c + 2 && branch == merging.target.branch && stands_at(
                        past,
                        c,
                        exists_exchange(context, merging.source.branch),
                    )
                }
            },
        WorkflowErrorOf::TargetDirty { path } => exists|merging: MergingView, n: int|
            {
                let c = lookups_at(request, n);
                &&& #[trigger] admissible(request, context, merging, n, past)
                &&& len == c + 3
                &&& stands_at(past, c, exists_exchange(context, merging.source.branch))
                &&& stands_at(past, c + 1, exists_exchange(context, merging.target.branch))
                &&& effect == EffectView::Status { path: merging.target.path }
                &&& reply == ReplyView::<E>::Flag { value: true }
                &&& path == merging.target.path.text
            },
        WorkflowErrorOf::MergeConflict { branch, target, workspace } => exists|
            ready: ReadyView,
            n: int,
        |
            {
                let o = operation_at(request, n);
                &&& #[trigger] approved(request, context, ready, n, past)
                &&& len == o + 3
                &&& past[o].0 == operation(request, ready)
                &&& succeeded(past[o].1)
                &&& past[o + 1].0 == check(request, ready)
                &&& printed(past[o + 1].1, "1"@)
                &&& effect == undo(request, ready)
                &&& branch == ready.merging.source.branch
                &&& target == ready.merging.target.branch
                &&& workspace == place(request, ready).text
            },
        _ => false,
    }
}

proof fn check_is_named(revset: Seq<char>)
    ensures
        "Failed to execute jj log -r "@ + revset == "Failed to execute "@ + ("jj log -r "@ + revset),
{
    reveal_strlit("Failed to execute jj log -r ");
    reveal_strlit("Failed to execute ");
    reveal_strlit("jj log -r ");
    assert("Failed to execute jj log -r "@ =~= "Failed to execute "@ + "jj log -r "@);
    assert("Failed to execute jj log -r "@ + revset =~= "Failed to execute "@ + ("jj log -r "@
        + revset));
}

/// A merge fails for the reason that its error names, and only for that.
#[verifier::rlimit(60)]
pub proof fn failures_have_their_reasons<E>(
    request: MergeRequestView,
    context: MergeContextView,
    replies: Seq<ReplyView<E>>,
)
    requires
        merging_workflow(request, context).is_run(replies),
    ensures
        merging_workflow(request, context).standing(replies) matches Progress::Finished(Err(error))
            ==> reason_for(
            request,
            context,
            error,
            merging_workflow(request, context).history(replies),
        ),
{
    let flow = merging_workflow::<E>(request, context);
    if replies.len() > 0 && flow.standing(replies) is Finished {
        let (n, ready) = so_far_holds(request, context, replies.drop_last());
        let state = flow.standing(replies.drop_last())->Awaiting_0;
        let before = flow.history(replies.drop_last());
        let past = flow.history(replies);
        let reply = replies.last();
        let exchange = (merge_effect(request, context, state), reply);
        assert(past == before.push(exchange));
        assert(past.last() == exchange);
        assert(flow.standing(replies) == merge_after(request, context, state, reply));
        match state {
            MergeStateOf::ListingTargets { source, target_branch } => {
                if let ReplyOf::Workspaces { entries } = reply {
                    let path = crate::merge::target_path(context, entries, target_branch);
                    target_is_held(context, entries, target_branch);
                    assert(held_by(context, entries, target_branch, path));
                    assert(aimed(
                        request,
                        context,
                        source.branch,
                        target_branch,
                        past.len() as int - 1,
                        past,
                    ));
                    assert(opened(request, context, source, past));
                }
            },
            MergeStateOf::ReadingAttachment { source, target } => {
                if let ReplyOf::Name { value } = reply {
                    let merging = MergingView {
                        source,
                        target,
                        attachment: crate::meta::attachment_of(value),
                    };
                    assert(sides_found(request, context, merging, n, past));
                }
            },
            MergeStateOf::CheckingSourceStatus { merging } => {
                sides_stay(request, context, merging, n, before, exchange);
                assert(sides_found(request, context, merging, n, past));
            },
            MergeStateOf::CheckingSourceBookmark { merging } => {
                sides_stay(request, context, merging, n, before, exchange);
                assert(admissible(request, context, merging, n, past));
            },
            MergeStateOf::CheckingTargetBookmark { merging } => {
                sides_stay(request, context, merging, n, before, exchange);
                assert(admissible(request, context, merging, n, past));
            },
            MergeStateOf::CheckingTargetStatus { merging } => {
                sides_stay(request, context, merging, n, before, exchange);
                assert(admissible(request, context, merging, n, past));
            },
            MergeStateOf::Operating { ready: cleared } => {
                approval_stays(request, context, cleared, n, before, exchange);
                commands_are_as_listed(request, context, cleared, 0);
                assert(ends_in_command(request, context, cleared, n, past));
                assert(exchange.0->args.skip(2) =~= crate::merge::operation_of(
                    request.chosen_strategy(),
                    cleared,
                ));
            },
            MergeStateOf::CheckingConflicts { .. } => {
                approval_stays(request, context, ready, n, before, exchange);
                commands_are_as_listed(request, context, ready, 0);
                assert(ends_in_command(request, context, ready, n, past));
                check_is_named(affected(request, ready));
            },
            MergeStateOf::Undoing { .. } => {
                approval_stays(request, context, ready, n, before, exchange);
                commands_are_as_listed(request, context, ready, 0);
                assert(approved(request, context, ready, n, past));
            },
            MergeStateOf::FollowingUp { done, .. } => {
                approval_stays(request, context, ready, n, before, exchange);
                commands_are_as_listed(request, context, ready, done);
                assert(ends_in_command(request, context, ready, n, past));
                assert(exchange.0->args.skip(2) =~= crate::merge::follow_ups_of(
                    request.chosen_strategy(),
                    ready,
                )[done as int]);
            },
            _ => {},
        }
    }
}

} // verus!
