//! Merging a workspace into its target in a jj repository.
//!
//! Every command is pinned to the workspace whose working-copy commit it must move:
//!
//! - **rebase and fast-forward**: the whole branch is rebased in its own workspace (bookmarks
//!   follow), then the target bookmark moves onto it and the target workspace takes it up;
//! - **squash**: the combined changes of the branch move into the target head commit;
//! - **merge commit**: a commit with two parents is made in the target workspace, and the
//!   target bookmark moves onto it.
//!
//! Conflicts never stop jj half way: they are recorded in the resulting commits. So each
//! strategy checks the affected commit afterwards and, on conflict, undoes its own operation.
//!
//! `--ignore-immutable` is passed to the operations that rewrite history, since a merge is an
//! explicit instruction.

use crate::effect::{CleanupOptions, Effect, EffectOf, Progress, Reply, ReplyOf};
#[allow(unused_imports)]
use crate::effect::{answers, EffectView, ReplyView};
use crate::error::{WorkflowError, WorkflowErrorOf};
#[allow(unused_imports)]
use crate::error::WorkflowErrorView;
use crate::jj::{
    bookmark_revset, conflict_check, conflict_error, jj_arguments, revset_conflicted, run_jj,
};
#[allow(unused_imports)]
use crate::jj::{
    bookmark_revset_text, conflict_check_line, jj_line, reports_conflict, revset_check_error,
    run_jj_error,
};
use crate::meta::{read_attachment, read_mode, MuxMode, WorktreeAttachment};
#[allow(unused_imports)]
use crate::meta::{attachment_of, mode_of};
#[allow(unused_imports)]
use crate::paths::PathView;
use crate::paths::{same_path, WorkspacePath};
use crate::text::{same_text, with_text};
#[allow(unused_imports)]
use crate::text::{opt_text, texts};
#[allow(unused_imports)]
use crate::workspace::{first_where, has_branch, workspace_named, EntryView};
use crate::workspace::{find_by_branch, find_workspace_in, WorkspaceEntry};
use vstd::pervasive::unreached;
use vstd::prelude::*;
use vstd::string::StringExecFns;

verus! {

/// What the user asked for, over texts `S`.
pub struct MergeRequestOf<S> {
    /// The workspace to merge, by handle or branch.
    pub name: S,
    /// The branch to merge into, if the user named one.
    pub into_branch: Option<S>,
    /// Rebase the branch, then fast-forward the target.
    pub rebase: bool,
    /// Squash the branch into the target head.
    pub squash: bool,
    /// Keep the workspace after the merge.
    pub keep: bool,
    /// Merge although the workspace has uncommitted changes.
    pub ignore_uncommitted: bool,
    /// Leave out the verification hooks.
    pub skip_verify: bool,
    /// Leave out all hooks.
    pub no_hooks: bool,
    /// Show a notification when the merge is done.
    pub notification: bool,
}

/// What the user asked for.
pub type MergeRequest = MergeRequestOf<String>;

/// The value of a [`MergeRequest`].
pub type MergeRequestView = MergeRequestOf<Seq<char>>;

impl View for MergeRequestOf<String> {
    type V = MergeRequestView;

    open spec fn view(&self) -> MergeRequestView {
        MergeRequestOf {
            name: self.name@,
            into_branch: opt_text(self.into_branch),
            rebase: self.rebase,
            squash: self.squash,
            keep: self.keep,
            ignore_uncommitted: self.ignore_uncommitted,
            skip_verify: self.skip_verify,
            no_hooks: self.no_hooks,
            notification: self.notification,
        }
    }
}

/// The repository that a merge works on, over paths `P` and texts `S`.
pub struct MergeContextOf<P, S> {
    /// The directory that queries are made from.
    pub execution_dir: P,
    /// The root of the main worktree.
    pub main_worktree_root: P,
    /// The main branch.
    pub main_branch: S,
}

/// The repository that a merge works on.
pub type MergeContext = MergeContextOf<WorkspacePath, String>;

/// The value of a [`MergeContext`].
pub type MergeContextView = MergeContextOf<PathView, Seq<char>>;

impl View for MergeContextOf<WorkspacePath, String> {
    type V = MergeContextView;

    open spec fn view(&self) -> MergeContextView {
        MergeContextOf {
            execution_dir: self.execution_dir@,
            main_worktree_root: self.main_worktree_root@,
            main_branch: self.main_branch@,
        }
    }
}

/// The workspace that is merged.
pub struct SourceOf<P, S> {
    pub path: P,
    pub branch: S,
    pub handle: S,
}

/// Where it is merged to.
pub struct TargetOf<P, S> {
    /// The target branch.
    pub branch: S,
    /// The workspace that holds it.
    pub path: P,
    /// The name of the window of that workspace.
    pub window: S,
}

/// A merge whose two sides are known.
pub struct MergingOf<P, S> {
    pub source: SourceOf<P, S>,
    pub target: TargetOf<P, S>,
    /// How the merged workspace is attached to the multiplexer.
    pub attachment: WorktreeAttachment,
}

/// A merge that nothing speaks against.
pub struct ReadyOf<P, S> {
    pub merging: MergingOf<P, S>,
    /// The revset of the branch to merge.
    pub feature: S,
    /// The revset of the target branch.
    pub onto: S,
}

/// What a merge waits for, over paths `P` and texts `S`.
pub enum MergeStateOf<P, S> {
    EnteringMainWorktree,
    ListingSources,
    CheckingMainWorktree { path: P, branch: S },
    ReadingBase { source: SourceOf<P, S> },
    CheckingBase { source: SourceOf<P, S>, base: S },
    ListingTargets { source: SourceOf<P, S>, target_branch: S },
    ReadingAttachment { source: SourceOf<P, S>, target: TargetOf<P, S> },
    CheckingSourceStatus { merging: MergingOf<P, S> },
    CheckingSourceBookmark { merging: MergingOf<P, S> },
    CheckingTargetBookmark { merging: MergingOf<P, S> },
    CheckingTargetStatus { merging: MergingOf<P, S> },
    Quoting { merging: MergingOf<P, S> },
    RunningHooks { ready: ReadyOf<P, S> },
    Announcing { ready: ReadyOf<P, S> },
    Operating { ready: ReadyOf<P, S> },
    CheckingConflicts { ready: ReadyOf<P, S> },
    Undoing { ready: ReadyOf<P, S> },
    FollowingUp { ready: ReadyOf<P, S>, done: usize },
    Notifying { merging: MergingOf<P, S> },
    CleaningUp { merging: MergingOf<P, S> },
    ReadingMode { merging: MergingOf<P, S>, scheduled: bool },
    QueryingMux { merging: MergingOf<P, S>, scheduled: bool, mode: MuxMode },
    Navigating { merging: MergingOf<P, S>, scheduled: bool, mode: MuxMode },
}

/// What a merge waits for.
pub type MergeState = MergeStateOf<WorkspacePath, String>;

/// The value of a [`MergeState`].
pub type MergeStateView = MergeStateOf<PathView, Seq<char>>;

/// The value of a [`SourceOf`].
pub type SourceView = SourceOf<PathView, Seq<char>>;

/// The value of a [`TargetOf`].
pub type TargetView = TargetOf<PathView, Seq<char>>;

/// The value of a [`MergingOf`].
pub type MergingView = MergingOf<PathView, Seq<char>>;

/// The value of a [`ReadyOf`].
pub type ReadyView = ReadyOf<PathView, Seq<char>>;

type Source = SourceOf<WorkspacePath, String>;

type Target = TargetOf<WorkspacePath, String>;

type Merging = MergingOf<WorkspacePath, String>;

type Ready = ReadyOf<WorkspacePath, String>;

impl View for SourceOf<WorkspacePath, String> {
    type V = SourceView;

    open spec fn view(&self) -> SourceView {
        SourceOf { path: self.path@, branch: self.branch@, handle: self.handle@ }
    }
}

impl View for TargetOf<WorkspacePath, String> {
    type V = TargetView;

    open spec fn view(&self) -> TargetView {
        TargetOf { branch: self.branch@, path: self.path@, window: self.window@ }
    }
}

impl View for MergingOf<WorkspacePath, String> {
    type V = MergingView;

    open spec fn view(&self) -> MergingView {
        MergingOf { source: self.source@, target: self.target@, attachment: self.attachment }
    }
}

impl View for ReadyOf<WorkspacePath, String> {
    type V = ReadyView;

    open spec fn view(&self) -> ReadyView {
        ReadyOf { merging: self.merging@, feature: self.feature@, onto: self.onto@ }
    }
}

impl View for MergeStateOf<WorkspacePath, String> {
    type V = MergeStateView;

    open spec fn view(&self) -> MergeStateView {
        match self {
            MergeStateOf::EnteringMainWorktree => MergeStateOf::EnteringMainWorktree,
            MergeStateOf::ListingSources => MergeStateOf::ListingSources,
            MergeStateOf::CheckingMainWorktree { path, branch } =>
                MergeStateOf::CheckingMainWorktree { path: path@, branch: branch@ },
            MergeStateOf::ReadingBase { source } => MergeStateOf::ReadingBase { source: source@ },
            MergeStateOf::CheckingBase { source, base } => MergeStateOf::CheckingBase {
                source: source@,
                base: base@,
            },
            MergeStateOf::ListingTargets { source, target_branch } => MergeStateOf::ListingTargets {
                source: source@,
                target_branch: target_branch@,
            },
            MergeStateOf::ReadingAttachment { source, target } => MergeStateOf::ReadingAttachment {
                source: source@,
                target: target@,
            },
            MergeStateOf::CheckingSourceStatus { merging } => MergeStateOf::CheckingSourceStatus {
                merging: merging@,
            },
            MergeStateOf::CheckingSourceBookmark { merging } =>
                MergeStateOf::CheckingSourceBookmark { merging: merging@ },
            MergeStateOf::CheckingTargetBookmark { merging } =>
                MergeStateOf::CheckingTargetBookmark { merging: merging@ },
            MergeStateOf::CheckingTargetStatus { merging } => MergeStateOf::CheckingTargetStatus {
                merging: merging@,
            },
            MergeStateOf::Quoting { merging } => MergeStateOf::Quoting { merging: merging@ },
            MergeStateOf::RunningHooks { ready } => MergeStateOf::RunningHooks { ready: ready@ },
            MergeStateOf::Announcing { ready } => MergeStateOf::Announcing { ready: ready@ },
            MergeStateOf::Operating { ready } => MergeStateOf::Operating { ready: ready@ },
            MergeStateOf::CheckingConflicts { ready } => MergeStateOf::CheckingConflicts {
                ready: ready@,
            },
            MergeStateOf::Undoing { ready } => MergeStateOf::Undoing { ready: ready@ },
            MergeStateOf::FollowingUp { ready, done } => MergeStateOf::FollowingUp {
                ready: ready@,
                done: *done,
            },
            MergeStateOf::Notifying { merging } => MergeStateOf::Notifying { merging: merging@ },
            MergeStateOf::CleaningUp { merging } => MergeStateOf::CleaningUp { merging: merging@ },
            MergeStateOf::ReadingMode { merging, scheduled } => MergeStateOf::ReadingMode {
                merging: merging@,
                scheduled: *scheduled,
            },
            MergeStateOf::QueryingMux { merging, scheduled, mode } => MergeStateOf::QueryingMux {
                merging: merging@,
                scheduled: *scheduled,
                mode: *mode,
            },
            MergeStateOf::Navigating { merging, scheduled, mode } => MergeStateOf::Navigating {
                merging: merging@,
                scheduled: *scheduled,
                mode: *mode,
            },
        }
    }
}

/// What a merge did, over texts `S` and foreign errors `E`.
pub struct MergeResultOf<S, E> {
    /// The branch that was merged.
    pub branch_merged: S,
    /// The branch that it was merged into.
    pub main_branch: S,
    /// Whether staged changes were committed first.
    pub had_staged_changes: bool,
    /// Whether the cleanup goes on after the command has ended.
    pub cleanup_scheduled: bool,
    /// Why the cleanup failed, if it did.
    pub cleanup_error: Option<E>,
}

/// What a merge did.
pub type MergeResult<E> = MergeResultOf<String, E>;

/// The value of a [`MergeResult`].
pub type MergeResultView<E> = MergeResultOf<Seq<char>, E>;

impl<E> View for MergeResultOf<String, E> {
    type V = MergeResultView<E>;

    open spec fn view(&self) -> MergeResultView<E> {
        MergeResultOf {
            branch_merged: self.branch_merged@,
            main_branch: self.main_branch@,
            had_staged_changes: self.had_staged_changes,
            cleanup_scheduled: self.cleanup_scheduled,
            cleanup_error: self.cleanup_error,
        }
    }
}

/// Where a merge stands.
pub type MergeProgress<E> = Progress<MergeState, Result<MergeResult<E>, WorkflowError<E>>>;

/// The value of a [`MergeProgress`].
pub type MergeProgressView<E> = Progress<
    MergeStateView,
    Result<MergeResultView<E>, WorkflowErrorView<E>>,
>;

/// The value of a [`MergeProgress`].
pub open spec fn progress_view<E>(progress: MergeProgress<E>) -> MergeProgressView<E> {
    match progress {
        Progress::Awaiting(state) => Progress::Awaiting(state@),
        Progress::Finished(Ok(result)) => Progress::Finished(Ok(result@)),
        Progress::Finished(Err(error)) => Progress::Finished(Err(error@)),
    }
}

/// How the branch gets into the target.
#[derive(Clone, Copy, Debug, PartialEq, Eq, Structural)]
pub enum Strategy {
    Rebase,
    Squash,
    MergeCommit,
}

impl<S> MergeRequestOf<S> {
    /// The strategy that was asked for; rebasing wins over squashing.
    pub open spec fn chosen_strategy(&self) -> Strategy {
        if self.rebase {
            Strategy::Rebase
        } else if self.squash {
            Strategy::Squash
        } else {
            Strategy::MergeCommit
        }
    }

    /// The strategy that was asked for; rebasing wins over squashing.
    pub fn strategy(&self) -> (res: Strategy)
        ensures
            res == self.chosen_strategy(),
    {
        if self.rebase {
            Strategy::Rebase
        } else if self.squash {
            Strategy::Squash
        } else {
            Strategy::MergeCommit
        }
    }
}

/// The workspace that a strategy operates in.
pub open spec fn site_of(strategy: Strategy, ready: ReadyView) -> PathView {
    match strategy {
        Strategy::Rebase => ready.merging.source.path,
        Strategy::Squash => ready.merging.target.path,
        Strategy::MergeCommit => ready.merging.target.path,
    }
}

/// The operation of a strategy.
pub open spec fn operation_of(strategy: Strategy, ready: ReadyView) -> Seq<Seq<char>> {
    match strategy {
        Strategy::Rebase => seq!["rebase"@, "--ignore-immutable"@, "-d"@, ready.onto],
        Strategy::Squash => seq![
            "squash"@,
            "--ignore-immutable"@,
            "--from"@,
            "(::"@ + ready.feature + " ~ ::"@ + ready.onto + ")"@,
            "--into"@,
            ready.onto,
            "--use-destination-message"@,
        ],
        Strategy::MergeCommit => seq![
            "new"@,
            ready.onto,
            ready.feature,
            "-m"@,
            "Merge branch '"@ + ready.merging.source.branch + "' into "@
                + ready.merging.target.branch,
        ],
    }
}

/// The revset whose revision the operation of a strategy may leave conflicted.
pub open spec fn affected_by(strategy: Strategy, ready: ReadyView) -> Seq<char> {
    match strategy {
        Strategy::Rebase => "@"@,
        Strategy::Squash => ready.onto,
        Strategy::MergeCommit => "@"@,
    }
}

/// What a strategy does in the target workspace once its operation has left no conflict.
pub open spec fn follow_ups_of(strategy: Strategy, ready: ReadyView) -> Seq<Seq<Seq<char>>> {
    match strategy {
        Strategy::Rebase => seq![
            seq!["bookmark"@, "set"@, ready.merging.target.branch, "-r"@, ready.feature],
            seq!["new"@, ready.onto],
        ],
        Strategy::Squash => seq![seq!["new"@, ready.onto]],
        Strategy::MergeCommit => seq![
            seq!["bookmark"@, "set"@, ready.merging.target.branch, "-r"@, "@"@],
        ],
    }
}

/// The line that announces a rebase.
pub open spec fn rebase_announcement(branch: Seq<char>, onto: Seq<char>) -> Seq<char> {
    "Rebasing '"@ + branch + "' onto '"@ + onto + "'..."@
}

/// The effect that a merge waits for.
pub open spec fn merge_effect(
    request: MergeRequestView,
    context: MergeContextView,
    state: MergeStateView,
) -> EffectView {
    let here = context.execution_dir;
    let strategy = request.chosen_strategy();
    match state {
        MergeStateOf::EnteringMainWorktree => EffectOf::EnterMainWorktree,
        MergeStateOf::ListingSources => EffectOf::ListWorkspaces { dir: here },
        MergeStateOf::CheckingMainWorktree { path, .. } => EffectOf::IsMainWorktree { path },
        MergeStateOf::ReadingBase { source } => EffectOf::BranchBase {
            branch: source.branch,
            dir: here,
        },
        MergeStateOf::CheckingBase { base, .. } => EffectOf::BranchExists {
            branch: base,
            dir: here,
        },
        MergeStateOf::ListingTargets { .. } => EffectOf::ListWorkspaces { dir: here },
        MergeStateOf::ReadingAttachment { source, .. } => EffectOf::ReadMeta {
            handle: source.handle,
            key: "attachment"@,
            dir: here,
        },
        MergeStateOf::CheckingSourceStatus { merging } => EffectOf::Status {
            path: merging.source.path,
        },
        MergeStateOf::CheckingSourceBookmark { merging } => EffectOf::BranchExists {
            branch: merging.source.branch,
            dir: here,
        },
        MergeStateOf::CheckingTargetBookmark { merging } => EffectOf::BranchExists {
            branch: merging.target.branch,
            dir: here,
        },
        MergeStateOf::CheckingTargetStatus { merging } => EffectOf::Status {
            path: merging.target.path,
        },
        MergeStateOf::Quoting { merging } => EffectOf::QuoteBookmarks {
            feature: merging.source.branch,
            target: merging.target.branch,
        },
        MergeStateOf::RunningHooks { ready } => EffectOf::RunPreMergeHooks {
            handle: ready.merging.source.handle,
            branch: ready.merging.source.branch,
            target: ready.merging.target.branch,
            path: ready.merging.source.path,
            skip_verify: request.skip_verify,
            no_hooks: request.no_hooks,
        },
        MergeStateOf::Announcing { ready } => EffectOf::Print {
            text: rebase_announcement(ready.merging.source.branch, ready.merging.target.branch),
        },
        MergeStateOf::Operating { ready } => EffectOf::RunJj {
            dir: site_of(strategy, ready),
            args: jj_line(operation_of(strategy, ready)),
        },
        MergeStateOf::CheckingConflicts { ready } => EffectOf::RunJj {
            dir: site_of(strategy, ready),
            args: conflict_check_line(affected_by(strategy, ready)),
        },
        MergeStateOf::Undoing { ready } => EffectOf::RunJj {
            dir: site_of(strategy, ready),
            args: jj_line(seq!["undo"@]),
        },
        MergeStateOf::FollowingUp { ready, done } => EffectOf::RunJj {
            dir: ready.merging.target.path,
            args: jj_line(follow_ups_of(strategy, ready)[done as int]),
        },
        MergeStateOf::Notifying { merging } => EffectOf::Notify {
            text: "Merged '"@ + merging.source.branch + "' into '"@ + merging.target.branch + "'"@,
        },
        MergeStateOf::CleaningUp { merging } => EffectOf::Cleanup {
            branch: merging.source.branch,
            handle: merging.source.handle,
            path: merging.source.path,
            options: CleanupOptions {
                force: true,
                keep_branch: false,
                no_hooks: request.no_hooks,
                show_hook_output: true,
            },
        },
        MergeStateOf::ReadingMode { merging, .. } => EffectOf::ReadMeta {
            handle: merging.source.handle,
            key: "mode"@,
            dir: here,
        },
        MergeStateOf::QueryingMux { merging, .. } => EffectOf::ManagesMux {
            attachment: merging.attachment,
        },
        MergeStateOf::Navigating { merging, mode, .. } => EffectOf::NavigateAndClose {
            window: merging.target.window,
            handle: merging.source.handle,
            mode,
        },
    }
}

/// Whether a state can be reached: of the follow-ups of the strategy, one is left to do.
pub open spec fn reachable(request: MergeRequestView, state: MergeStateView) -> bool {
    match state {
        MergeStateOf::FollowingUp { ready, done } => done < follow_ups_of(
            request.chosen_strategy(),
            ready,
        ).len(),
        _ => true,
    }
}

/// A merge that fails.
pub open spec fn failed<E>(error: WorkflowErrorView<E>) -> MergeProgressView<E> {
    Progress::Finished(Err(error))
}

/// A merge that an effect made fail.
pub open spec fn failed_outside<E>(cause: E) -> MergeProgressView<E> {
    failed(WorkflowErrorOf::External { cause })
}

/// After the listing of the workspaces in search of the one to merge.
pub open spec fn after_sources<E>(
    request: MergeRequestView,
    entries: Seq<EntryView>,
) -> MergeProgressView<E> {
    match workspace_named(entries, request.name) {
        Some((path, branch)) => Progress::Awaiting(
            MergeStateOf::CheckingMainWorktree { path, branch },
        ),
        None => failed(WorkflowErrorOf::WorktreeNotFound { name: request.name }),
    }
}

/// Once it is known that the workspace to merge is not the main one: the target is the branch
/// that the user named, else it depends on the recorded base.
pub open spec fn after_linked<E>(
    request: MergeRequestView,
    path: PathView,
    branch: Seq<char>,
) -> MergeProgressView<E> {
    match path.file_name_text() {
        Some(handle) => {
            let source = SourceOf { path, branch, handle };
            match request.into_branch {
                Some(target_branch) => Progress::Awaiting(
                    MergeStateOf::ListingTargets { source, target_branch },
                ),
                None => Progress::Awaiting(MergeStateOf::ReadingBase { source }),
            }
        },
        None => failed(WorkflowErrorOf::NoHandle { path: path.text }),
    }
}

/// The workspace that holds the target branch, else the main one.
pub open spec fn target_path(
    context: MergeContextView,
    entries: Seq<EntryView>,
    target_branch: Seq<char>,
) -> PathView {
    match first_where(entries, has_branch(target_branch)) {
        Some(entry) => entry.path,
        None => context.main_worktree_root,
    }
}

/// The name of the window of the target workspace: the main branch for the main workspace,
/// else the name of its directory.
pub open spec fn target_window(context: MergeContextView, path: PathView) -> Option<Seq<char>> {
    if path.key() == context.main_worktree_root.key() {
        Some(context.main_branch)
    } else {
        path.file_name_text()
    }
}

/// After the listing of the workspaces in search of the one that holds the target branch.
pub open spec fn after_targets<E>(
    context: MergeContextView,
    source: SourceView,
    target_branch: Seq<char>,
    entries: Seq<EntryView>,
) -> MergeProgressView<E> {
    let path = target_path(context, entries, target_branch);
    match target_window(context, path) {
        Some(window) => Progress::Awaiting(
            MergeStateOf::ReadingAttachment {
                source,
                target: TargetOf { branch: target_branch, path, window },
            },
        ),
        None => failed(WorkflowErrorOf::InvalidTargetPath),
    }
}

/// Once the uncommitted changes of the source are accepted or absent.
pub open spec fn after_source_status<E>(merging: MergingView) -> MergeProgressView<E> {
    if merging.source.branch == merging.target.branch {
        failed(WorkflowErrorOf::MergeIntoItself { branch: merging.source.branch })
    } else {
        Progress::Awaiting(MergeStateOf::CheckingSourceBookmark { merging })
    }
}

/// What is reported of a merge.
pub open spec fn merged<E>(
    merging: MergingView,
    scheduled: bool,
    error: Option<E>,
) -> MergeProgressView<E> {
    Progress::Finished(
        Ok(
            MergeResultOf {
                branch_merged: merging.source.branch,
                main_branch: merging.target.branch,
                had_staged_changes: false,
                cleanup_scheduled: scheduled,
                cleanup_error: error,
            },
        ),
    )
}

/// Once the user has been notified, or need not be.
pub open spec fn after_notification<E>(
    request: MergeRequestView,
    merging: MergingView,
) -> MergeProgressView<E> {
    if request.keep {
        merged(merging, false, None)
    } else {
        Progress::Awaiting(MergeStateOf::CleaningUp { merging })
    }
}

/// Once the branch is in the target.
pub open spec fn after_strategy<E>(
    request: MergeRequestView,
    merging: MergingView,
) -> MergeProgressView<E> {
    if request.notification {
        Progress::Awaiting(MergeStateOf::Notifying { merging })
    } else {
        after_notification(request, merging)
    }
}

/// Where a merge stands after the reply to the effect it waited for.
pub open spec fn merge_after<E>(
    request: MergeRequestView,
    context: MergeContextView,
    state: MergeStateView,
    reply: ReplyView<E>,
) -> MergeProgressView<E> {
    let strategy = request.chosen_strategy();
    match state {
        MergeStateOf::EnteringMainWorktree => match reply {
            ReplyOf::Done => Progress::Awaiting(MergeStateOf::ListingSources),
            ReplyOf::Failed { cause } => failed_outside(cause),
            _ => arbitrary(),
        },
        MergeStateOf::ListingSources => match reply {
            ReplyOf::Workspaces { entries } => after_sources(request, entries),
            ReplyOf::Failed { .. } => failed(
                WorkflowErrorOf::WorktreeNotFound { name: request.name },
            ),
            _ => arbitrary(),
        },
        MergeStateOf::CheckingMainWorktree { path, branch } => match reply {
            ReplyOf::Flag { value: true } => failed(
                WorkflowErrorOf::InMainWorkspace { branch, root: context.main_worktree_root.text },
            ),
            ReplyOf::Flag { value: false } => after_linked(request, path, branch),
            _ => arbitrary(),
        },
        MergeStateOf::ReadingBase { source } => match reply {
            ReplyOf::Name { value: Some(base) } => Progress::Awaiting(
                MergeStateOf::CheckingBase { source, base },
            ),
            ReplyOf::Name { value: None } => Progress::Awaiting(
                MergeStateOf::ListingTargets { source, target_branch: context.main_branch },
            ),
            _ => arbitrary(),
        },
        MergeStateOf::CheckingBase { source, base } => match reply {
            ReplyOf::Flag { value: true } => Progress::Awaiting(
                MergeStateOf::ListingTargets { source, target_branch: base },
            ),
            ReplyOf::Flag { value: false } => Progress::Awaiting(
                MergeStateOf::ListingTargets { source, target_branch: context.main_branch },
            ),
            ReplyOf::Failed { .. } => Progress::Awaiting(
                MergeStateOf::ListingTargets { source, target_branch: context.main_branch },
            ),
            _ => arbitrary(),
        },
        MergeStateOf::ListingTargets { source, target_branch } => match reply {
            ReplyOf::Workspaces { entries } => after_targets(
                context,
                source,
                target_branch,
                entries,
            ),
            ReplyOf::Failed { cause } => failed_outside(cause),
            _ => arbitrary(),
        },
        MergeStateOf::ReadingAttachment { source, target } => match reply {
            ReplyOf::Name { value } => {
                let merging = MergingOf { source, target, attachment: attachment_of(value) };
                if request.keep {
                    after_source_status(merging)
                } else {
                    Progress::Awaiting(MergeStateOf::CheckingSourceStatus { merging })
                }
            },
            _ => arbitrary(),
        },
        MergeStateOf::CheckingSourceStatus { merging } => match reply {
            ReplyOf::Flag { value: dirty } => if dirty && !request.ignore_uncommitted {
                failed(WorkflowErrorOf::SourceDirty { branch: merging.source.branch })
            } else {
                after_source_status(merging)
            },
            ReplyOf::Failed { cause } => failed_outside(cause),
            _ => arbitrary(),
        },
        MergeStateOf::CheckingSourceBookmark { merging } => match reply {
            ReplyOf::Flag { value: true } => Progress::Awaiting(
                MergeStateOf::CheckingTargetBookmark { merging },
            ),
            ReplyOf::Flag { value: false } => failed(
                WorkflowErrorOf::NoBookmark { branch: merging.source.branch },
            ),
            ReplyOf::Failed { cause } => failed_outside(cause),
            _ => arbitrary(),
        },
        MergeStateOf::CheckingTargetBookmark { merging } => match reply {
            ReplyOf::Flag { value: true } => Progress::Awaiting(
                MergeStateOf::CheckingTargetStatus { merging },
            ),
            ReplyOf::Flag { value: false } => failed(
                WorkflowErrorOf::NoBookmark { branch: merging.target.branch },
            ),
            ReplyOf::Failed { cause } => failed_outside(cause),
            _ => arbitrary(),
        },
        MergeStateOf::CheckingTargetStatus { merging } => match reply {
            ReplyOf::Flag { value: true } => failed(
                WorkflowErrorOf::TargetDirty { path: merging.target.path.text },
            ),
            ReplyOf::Flag { value: false } => Progress::Awaiting(
                MergeStateOf::Quoting { merging },
            ),
            ReplyOf::Failed { cause } => failed_outside(cause),
            _ => arbitrary(),
        },
        MergeStateOf::Quoting { merging } => match reply {
            ReplyOf::Quoted { feature, target } => Progress::Awaiting(
                MergeStateOf::RunningHooks {
                    ready: ReadyOf {
                        merging,
                        feature: bookmark_revset_text(feature),
                        onto: bookmark_revset_text(target),
                    },
                },
            ),
            _ => arbitrary(),
        },
        MergeStateOf::RunningHooks { ready } => match reply {
            ReplyOf::Done => if strategy is Rebase {
                Progress::Awaiting(MergeStateOf::Announcing { ready })
            } else {
                Progress::Awaiting(MergeStateOf::Operating { ready })
            },
            ReplyOf::Failed { cause } => failed_outside(cause),
            _ => arbitrary(),
        },
        MergeStateOf::Announcing { ready } => Progress::Awaiting(
            MergeStateOf::Operating { ready },
        ),
        MergeStateOf::Operating { ready } => match run_jj_error(
            operation_of(strategy, ready),
            reply,
        ) {
            Some(error) => failed(error),
            None => Progress::Awaiting(MergeStateOf::CheckingConflicts { ready }),
        },
        MergeStateOf::CheckingConflicts { ready } => match revset_check_error(
            affected_by(strategy, ready),
            reply,
        ) {
            Some(error) => failed(error),
            None => if reports_conflict(reply) {
                Progress::Awaiting(MergeStateOf::Undoing { ready })
            } else {
                Progress::Awaiting(MergeStateOf::FollowingUp { ready, done: 0 })
            },
        },
        MergeStateOf::Undoing { ready } => failed(
            WorkflowErrorOf::MergeConflict {
                branch: ready.merging.source.branch,
                target: ready.merging.target.branch,
                workspace: site_of(strategy, ready).text,
            },
        ),
        MergeStateOf::FollowingUp { ready, done } => match run_jj_error(
            follow_ups_of(strategy, ready)[done as int],
            reply,
        ) {
            Some(error) => failed(error),
            None => if done + 1 < follow_ups_of(strategy, ready).len() {
                Progress::Awaiting(MergeStateOf::FollowingUp { ready, done: (done + 1) as usize })
            } else {
                after_strategy(request, ready.merging)
            },
        },
        MergeStateOf::Notifying { merging } => after_notification(request, merging),
        MergeStateOf::CleaningUp { merging } => match reply {
            ReplyOf::Flag { value: scheduled } => Progress::Awaiting(
                MergeStateOf::ReadingMode { merging, scheduled },
            ),
            ReplyOf::Failed { cause } => merged(merging, false, Some(cause)),
            _ => arbitrary(),
        },
        MergeStateOf::ReadingMode { merging, scheduled } => match reply {
            ReplyOf::Name { value } => Progress::Awaiting(
                MergeStateOf::QueryingMux {
                    merging,
                    scheduled,
                    mode: match mode_of(value) {
                        Some(mode) => mode,
                        None => MuxMode::Window,
                    },
                },
            ),
            _ => arbitrary(),
        },
        MergeStateOf::QueryingMux { merging, scheduled, mode } => match reply {
            ReplyOf::Flag { value: true } => Progress::Awaiting(
                MergeStateOf::Navigating { merging, scheduled, mode },
            ),
            ReplyOf::Flag { value: false } => merged(merging, scheduled, None),
            _ => arbitrary(),
        },
        MergeStateOf::Navigating { merging, scheduled, .. } => match reply {
            ReplyOf::Done => merged(merging, scheduled, None),
            ReplyOf::Failed { cause } => merged(merging, scheduled, Some(cause)),
            _ => arbitrary(),
        },
    }
}

/// The state in which a merge begins.
pub fn begin() -> (state: MergeState)
    ensures
        state@ == MergeStateView::EnteringMainWorktree,
{
    MergeStateOf::EnteringMainWorktree
}

fn site<'a>(strategy: Strategy, ready: &'a Ready) -> (res: &'a WorkspacePath)
    ensures
        res@ == site_of(strategy, ready@),
{
    match strategy {
        Strategy::Rebase => &ready.merging.source.path,
        Strategy::Squash => &ready.merging.target.path,
        Strategy::MergeCommit => &ready.merging.target.path,
    }
}

fn operation(strategy: Strategy, ready: &Ready) -> (res: Vec<String>)
    ensures
        texts(res@) == operation_of(strategy, ready@),
{
    let res = match strategy {
        Strategy::Rebase => {
            let args = with_text(Vec::new(), "rebase");
            let args = with_text(args, "--ignore-immutable");
            let args = with_text(args, "-d");
            with_text(args, ready.onto.as_str())
        },
        Strategy::Squash => {
            let from = "(::".to_owned().concat(ready.feature.as_str()).concat(" ~ ::").concat(
                ready.onto.as_str(),
            ).concat(")");
            let args = with_text(Vec::new(), "squash");
            let args = with_text(args, "--ignore-immutable");
            let args = with_text(args, "--from");
            let args = with_text(args, from.as_str());
            let args = with_text(args, "--into");
            let args = with_text(args, ready.onto.as_str());
            with_text(args, "--use-destination-message")
        },
        Strategy::MergeCommit => {
            let message = "Merge branch '".to_owned().concat(
                ready.merging.source.branch.as_str(),
            ).concat("' into ").concat(ready.merging.target.branch.as_str());
            let args = with_text(Vec::new(), "new");
            let args = with_text(args, ready.onto.as_str());
            let args = with_text(args, ready.feature.as_str());
            let args = with_text(args, "-m");
            with_text(args, message.as_str())
        },
    };
    assert(texts(res@) =~= operation_of(strategy, ready@));
    res
}

fn affected(strategy: Strategy, ready: &Ready) -> (res: String)
    ensures
        res@ == affected_by(strategy, ready@),
{
    match strategy {
        Strategy::Rebase => "@".to_owned(),
        Strategy::Squash => ready.onto.clone(),
        Strategy::MergeCommit => "@".to_owned(),
    }
}

fn set_target_bookmark(ready: &Ready, revset: &str) -> (res: Vec<String>)
    ensures
        texts(res@) == seq!["bookmark"@, "set"@, ready@.merging.target.branch, "-r"@, revset@],
{
    let args = with_text(Vec::new(), "bookmark");
    let args = with_text(args, "set");
    let args = with_text(args, ready.merging.target.branch.as_str());
    let args = with_text(args, "-r");
    let args = with_text(args, revset);
    assert(texts(args@) =~= seq![
        "bookmark"@,
        "set"@,
        ready@.merging.target.branch,
        "-r"@,
        revset@,
    ]);
    args
}

fn take_up_target(ready: &Ready) -> (res: Vec<String>)
    ensures
        texts(res@) == seq!["new"@, ready@.onto],
{
    let args = with_text(Vec::new(), "new");
    let args = with_text(args, ready.onto.as_str());
    assert(texts(args@) =~= seq!["new"@, ready@.onto]);
    args
}

fn follow_up_count(strategy: Strategy) -> (res: usize)
    ensures
        forall|ready: ReadyView| res == (#[trigger] follow_ups_of(strategy, ready)).len(),
{
    match strategy {
        Strategy::Rebase => 2,
        Strategy::Squash => 1,
        Strategy::MergeCommit => 1,
    }
}

fn follow_up(strategy: Strategy, ready: &Ready, done: usize) -> (res: Vec<String>)
    requires
        done < follow_ups_of(strategy, ready@).len(),
    ensures
        texts(res@) == follow_ups_of(strategy, ready@)[done as int],
{
    match strategy {
        Strategy::Rebase => if done == 0 {
            set_target_bookmark(ready, ready.feature.as_str())
        } else {
            take_up_target(ready)
        },
        Strategy::Squash => take_up_target(ready),
        Strategy::MergeCommit => set_target_bookmark(ready, "@"),
    }
}

/// The line that announces a rebase.
pub fn rebasing(branch: &str, onto: &str) -> (res: String)
    ensures
        res@ == rebase_announcement(branch@, onto@),
{
    "Rebasing '".to_owned().concat(branch).concat("' onto '").concat(onto).concat("'...")
}

/// The effect that a merge waits for.
pub fn pending_effect(
    request: &MergeRequest,
    context: &MergeContext,
    state: &MergeState,
) -> (res: Effect)
    requires
        reachable(request@, state@),
    ensures
        res@ == merge_effect(request@, context@, state@),
{
    let strategy = request.strategy();
    match state {
        MergeStateOf::EnteringMainWorktree => EffectOf::EnterMainWorktree,
        MergeStateOf::ListingSources => EffectOf::ListWorkspaces {
            dir: context.execution_dir.clone(),
        },
        MergeStateOf::CheckingMainWorktree { path, .. } => EffectOf::IsMainWorktree {
            path: path.clone(),
        },
        MergeStateOf::ReadingBase { source } => EffectOf::BranchBase {
            branch: source.branch.clone(),
            dir: context.execution_dir.clone(),
        },
        MergeStateOf::CheckingBase { base, .. } => EffectOf::BranchExists {
            branch: base.clone(),
            dir: context.execution_dir.clone(),
        },
        MergeStateOf::ListingTargets { .. } => EffectOf::ListWorkspaces {
            dir: context.execution_dir.clone(),
        },
        MergeStateOf::ReadingAttachment { source, .. } => EffectOf::ReadMeta {
            handle: source.handle.clone(),
            key: "attachment".to_owned(),
            dir: context.execution_dir.clone(),
        },
        MergeStateOf::CheckingSourceStatus { merging } => EffectOf::Status {
            path: merging.source.path.clone(),
        },
        MergeStateOf::CheckingSourceBookmark { merging } => EffectOf::BranchExists {
            branch: merging.source.branch.clone(),
            dir: context.execution_dir.clone(),
        },
        MergeStateOf::CheckingTargetBookmark { merging } => EffectOf::BranchExists {
            branch: merging.target.branch.clone(),
            dir: context.execution_dir.clone(),
        },
        MergeStateOf::CheckingTargetStatus { merging } => EffectOf::Status {
            path: merging.target.path.clone(),
        },
        MergeStateOf::Quoting { merging } => EffectOf::QuoteBookmarks {
            feature: merging.source.branch.clone(),
            target: merging.target.branch.clone(),
        },
        MergeStateOf::RunningHooks { ready } => EffectOf::RunPreMergeHooks {
            handle: ready.merging.source.handle.clone(),
            branch: ready.merging.source.branch.clone(),
            target: ready.merging.target.branch.clone(),
            path: ready.merging.source.path.clone(),
            skip_verify: request.skip_verify,
            no_hooks: request.no_hooks,
        },
        MergeStateOf::Announcing { ready } => EffectOf::Print {
            text: rebasing(
                ready.merging.source.branch.as_str(),
                ready.merging.target.branch.as_str(),
            ),
        },
        MergeStateOf::Operating { ready } => EffectOf::RunJj {
            dir: site(strategy, ready).clone(),
            args: jj_arguments(&operation(strategy, ready)),
        },
        MergeStateOf::CheckingConflicts { ready } => EffectOf::RunJj {
            dir: site(strategy, ready).clone(),
            args: conflict_check(affected(strategy, ready).as_str()),
        },
        MergeStateOf::Undoing { ready } => {
            let undo = with_text(Vec::new(), "undo");
            assert(texts(undo@) =~= seq!["undo"@]);
            EffectOf::RunJj { dir: site(strategy, ready).clone(), args: jj_arguments(&undo) }
        },
        MergeStateOf::FollowingUp { ready, done } => EffectOf::RunJj {
            dir: ready.merging.target.path.clone(),
            args: jj_arguments(&follow_up(strategy, ready, *done)),
        },
        MergeStateOf::Notifying { merging } => EffectOf::Notify {
            text: "Merged '".to_owned().concat(merging.source.branch.as_str()).concat(
                "' into '",
            ).concat(merging.target.branch.as_str()).concat("'"),
        },
        MergeStateOf::CleaningUp { merging } => EffectOf::Cleanup {
            branch: merging.source.branch.clone(),
            handle: merging.source.handle.clone(),
            path: merging.source.path.clone(),
            options: CleanupOptions {
                force: true,
                keep_branch: false,
                no_hooks: request.no_hooks,
                show_hook_output: true,
            },
        },
        MergeStateOf::ReadingMode { merging, .. } => EffectOf::ReadMeta {
            handle: merging.source.handle.clone(),
            key: "mode".to_owned(),
            dir: context.execution_dir.clone(),
        },
        MergeStateOf::QueryingMux { merging, .. } => EffectOf::ManagesMux {
            attachment: merging.attachment,
        },
        MergeStateOf::Navigating { merging, mode, .. } => EffectOf::NavigateAndClose {
            window: merging.target.window.clone(),
            handle: merging.source.handle.clone(),
            mode: *mode,
        },
    }
}

fn fail<E>(error: WorkflowError<E>) -> (res: MergeProgress<E>)
    ensures
        progress_view(res) == failed(error@),
{
    Progress::Finished(Err(error))
}

fn fail_outside<E>(cause: E) -> (res: MergeProgress<E>)
    ensures
        progress_view(res) == failed_outside(cause),
{
    fail(WorkflowErrorOf::External { cause })
}

fn not_found<E>(name: &String) -> (res: MergeProgress<E>)
    ensures
        progress_view(res) == failed::<E>(WorkflowErrorOf::WorktreeNotFound { name: name@ }),
{
    fail(WorkflowErrorOf::WorktreeNotFound { name: name.clone() })
}

fn resolve_source<E>(request: &MergeRequest, entries: &Vec<WorkspaceEntry>) -> (res: MergeProgress<
    E,
>)
    ensures
        progress_view(res) == after_sources::<E>(
            request@,
            crate::workspace::entries_view(entries@),
        ),
{
    match find_workspace_in(entries, request.name.as_str()) {
        Ok((path, branch)) => Progress::Awaiting(
            MergeStateOf::CheckingMainWorktree { path, branch },
        ),
        Err(_) => not_found(&request.name),
    }
}

fn name_source<E>(request: &MergeRequest, path: WorkspacePath, branch: String) -> (res:
    MergeProgress<E>)
    ensures
        progress_view(res) == after_linked::<E>(request@, path@, branch@),
{
    match path.file_name_text() {
        Some(handle) => {
            let source = SourceOf { path, branch, handle };
            match &request.into_branch {
                Some(target_branch) => Progress::Awaiting(
                    MergeStateOf::ListingTargets { source, target_branch: target_branch.clone() },
                ),
                None => Progress::Awaiting(MergeStateOf::ReadingBase { source }),
            }
        },
        None => fail(WorkflowErrorOf::NoHandle { path: path.text }),
    }
}

fn resolve_target<E>(
    context: &MergeContext,
    source: Source,
    target_branch: String,
    entries: &Vec<WorkspaceEntry>,
) -> (res: MergeProgress<E>)
    ensures
        progress_view(res) == after_targets::<E>(
            context@,
            source@,
            target_branch@,
            crate::workspace::entries_view(entries@),
        ),
{
    let path = match find_by_branch(entries, target_branch.as_str()) {
        Some(k) => entries[k].path.clone(),
        None => context.main_worktree_root.clone(),
    };
    let window = if same_path(&path, &context.main_worktree_root) {
        Some(context.main_branch.clone())
    } else {
        path.file_name_text()
    };
    match window {
        Some(window) => Progress::Awaiting(
            MergeStateOf::ReadingAttachment {
                source,
                target: TargetOf { branch: target_branch, path, window },
            },
        ),
        None => fail(WorkflowErrorOf::InvalidTargetPath),
    }
}

fn accept_source<E>(merging: Merging) -> (res: MergeProgress<E>)
    ensures
        progress_view(res) == after_source_status::<E>(merging@),
{
    if same_text(merging.source.branch.as_str(), merging.target.branch.as_str()) {
        fail(WorkflowErrorOf::MergeIntoItself { branch: merging.source.branch })
    } else {
        Progress::Awaiting(MergeStateOf::CheckingSourceBookmark { merging })
    }
}

fn report<E>(merging: Merging, scheduled: bool, error: Option<E>) -> (res: MergeProgress<E>)
    ensures
        progress_view(res) == merged(merging@, scheduled, error),
{
    Progress::Finished(
        Ok(
            MergeResultOf {
                branch_merged: merging.source.branch,
                main_branch: merging.target.branch,
                had_staged_changes: false,
                cleanup_scheduled: scheduled,
                cleanup_error: error,
            },
        ),
    )
}

fn clean_up<E>(request: &MergeRequest, merging: Merging) -> (res: MergeProgress<E>)
    ensures
        progress_view(res) == after_notification::<E>(request@, merging@),
{
    if request.keep {
        report(merging, false, None)
    } else {
        Progress::Awaiting(MergeStateOf::CleaningUp { merging })
    }
}

fn notify<E>(request: &MergeRequest, merging: Merging) -> (res: MergeProgress<E>)
    ensures
        progress_view(res) == after_strategy::<E>(request@, merging@),
{
    if request.notification {
        Progress::Awaiting(MergeStateOf::Notifying { merging })
    } else {
        clean_up(request, merging)
    }
}

/// Takes the reply to the effect that a merge waits for, and goes on to the next effect or to
/// the outcome.
#[verifier::rlimit(60)]
pub fn advance<E>(
    request: &MergeRequest,
    context: &MergeContext,
    state: MergeState,
    reply: Reply<E>,
) -> (res: MergeProgress<E>)
    requires
        reachable(request@, state@),
        answers(merge_effect(request@, context@, state@), reply@),
    ensures
        progress_view(res) == merge_after(request@, context@, state@, reply@),
        match res {
            Progress::Awaiting(next) => reachable(request@, next@),
            Progress::Finished(_) => true,
        },
{
    let strategy = request.strategy();
    match state {
        MergeStateOf::EnteringMainWorktree => match reply {
            ReplyOf::Done => Progress::Awaiting(MergeStateOf::ListingSources),
            ReplyOf::Failed { cause } => fail_outside(cause),
            _ => unreached(),
        },
        MergeStateOf::ListingSources => match reply {
            ReplyOf::Workspaces { entries } => resolve_source(request, &entries),
            ReplyOf::Failed { .. } => not_found(&request.name),
            _ => unreached(),
        },
        MergeStateOf::CheckingMainWorktree { path, branch } => match reply {
            ReplyOf::Flag { value } => if value {
                fail(
                    WorkflowErrorOf::InMainWorkspace {
                        branch,
                        root: context.main_worktree_root.text.clone(),
                    },
                )
            } else {
                name_source(request, path, branch)
            },
            _ => unreached(),
        },
        MergeStateOf::ReadingBase { source } => match reply {
            ReplyOf::Name { value } => match value {
                Some(base) => Progress::Awaiting(MergeStateOf::CheckingBase { source, base }),
                None => Progress::Awaiting(
                    MergeStateOf::ListingTargets {
                        source,
                        target_branch: context.main_branch.clone(),
                    },
                ),
            },
            _ => unreached(),
        },
        MergeStateOf::CheckingBase { source, base } => {
            let exists = match reply {
                ReplyOf::Flag { value } => value,
                ReplyOf::Failed { .. } => false,
                _ => unreached(),
            };
            let target_branch = if exists {
                base
            } else {
                context.main_branch.clone()
            };
            Progress::Awaiting(MergeStateOf::ListingTargets { source, target_branch })
        },
        MergeStateOf::ListingTargets { source, target_branch } => match reply {
            ReplyOf::Workspaces { entries } => resolve_target(
                context,
                source,
                target_branch,
                &entries,
            ),
            ReplyOf::Failed { cause } => fail_outside(cause),
            _ => unreached(),
        },
        MergeStateOf::ReadingAttachment { source, target } => match reply {
            ReplyOf::Name { value } => {
                let merging = MergingOf { source, target, attachment: read_attachment(&value) };
                if request.keep {
                    accept_source(merging)
                } else {
                    Progress::Awaiting(MergeStateOf::CheckingSourceStatus { merging })
                }
            },
            _ => unreached(),
        },
        MergeStateOf::CheckingSourceStatus { merging } => match reply {
            ReplyOf::Flag { value } => if value && !request.ignore_uncommitted {
                fail(WorkflowErrorOf::SourceDirty { branch: merging.source.branch })
            } else {
                accept_source(merging)
            },
            ReplyOf::Failed { cause } => fail_outside(cause),
            _ => unreached(),
        },
        MergeStateOf::CheckingSourceBookmark { merging } => match reply {
            ReplyOf::Flag { value } => if value {
                Progress::Awaiting(MergeStateOf::CheckingTargetBookmark { merging })
            } else {
                fail(WorkflowErrorOf::NoBookmark { branch: merging.source.branch })
            },
            ReplyOf::Failed { cause } => fail_outside(cause),
            _ => unreached(),
        },
        MergeStateOf::CheckingTargetBookmark { merging } => match reply {
            ReplyOf::Flag { value } => if value {
                Progress::Awaiting(MergeStateOf::CheckingTargetStatus { merging })
            } else {
                fail(WorkflowErrorOf::NoBookmark { branch: merging.target.branch })
            },
            ReplyOf::Failed { cause } => fail_outside(cause),
            _ => unreached(),
        },
        MergeStateOf::CheckingTargetStatus { merging } => match reply {
            ReplyOf::Flag { value } => if value {
                fail(WorkflowErrorOf::TargetDirty { path: merging.target.path.text })
            } else {
                Progress::Awaiting(MergeStateOf::Quoting { merging })
            },
            ReplyOf::Failed { cause } => fail_outside(cause),
            _ => unreached(),
        },
        MergeStateOf::Quoting { merging } => match reply {
            ReplyOf::Quoted { feature, target } => Progress::Awaiting(
                MergeStateOf::RunningHooks {
                    ready: ReadyOf {
                        merging,
                        feature: bookmark_revset(feature.as_str()),
                        onto: bookmark_revset(target.as_str()),
                    },
                },
            ),
            _ => unreached(),
        },
        MergeStateOf::RunningHooks { ready } => match reply {
            ReplyOf::Done => match strategy {
                Strategy::Rebase => Progress::Awaiting(MergeStateOf::Announcing { ready }),
                _ => Progress::Awaiting(MergeStateOf::Operating { ready }),
            },
            ReplyOf::Failed { cause } => fail_outside(cause),
            _ => unreached(),
        },
        MergeStateOf::Announcing { ready } => Progress::Awaiting(
            MergeStateOf::Operating { ready },
        ),
        MergeStateOf::Operating { ready } => match run_jj(&operation(strategy, &ready), reply) {
            Some(error) => fail(error),
            None => Progress::Awaiting(MergeStateOf::CheckingConflicts { ready }),
        },
        MergeStateOf::CheckingConflicts { ready } => match revset_conflicted(
            affected(strategy, &ready).as_str(),
            reply,
        ) {
            Err(error) => fail(error),
            Ok(conflicted) => if conflicted {
                Progress::Awaiting(MergeStateOf::Undoing { ready })
            } else {
                Progress::Awaiting(MergeStateOf::FollowingUp { ready, done: 0 })
            },
        },
        MergeStateOf::Undoing { ready } => fail(
            conflict_error(
                ready.merging.source.branch.as_str(),
                ready.merging.target.branch.as_str(),
                site(strategy, &ready),
            ),
        ),
        MergeStateOf::FollowingUp { ready, done } => match run_jj(
            &follow_up(strategy, &ready, done),
            reply,
        ) {
            Some(error) => fail(error),
            None => if done + 1 < follow_up_count(strategy) {
                Progress::Awaiting(MergeStateOf::FollowingUp { ready, done: done + 1 })
            } else {
                notify(request, ready.merging)
            },
        },
        MergeStateOf::Notifying { merging } => clean_up(request, merging),
        MergeStateOf::CleaningUp { merging } => match reply {
            ReplyOf::Flag { value } => Progress::Awaiting(
                MergeStateOf::ReadingMode { merging, scheduled: value },
            ),
            ReplyOf::Failed { cause } => report(merging, false, Some(cause)),
            _ => unreached(),
        },
        MergeStateOf::ReadingMode { merging, scheduled } => match reply {
            ReplyOf::Name { value } => {
                let mode = match read_mode(&value) {
                    Some(mode) => mode,
                    None => MuxMode::Window,
                };
                Progress::Awaiting(MergeStateOf::QueryingMux { merging, scheduled, mode })
            },
            _ => unreached(),
        },
        MergeStateOf::QueryingMux { merging, scheduled, mode } => match reply {
            ReplyOf::Flag { value } => if value {
                Progress::Awaiting(MergeStateOf::Navigating { merging, scheduled, mode })
            } else {
                report(merging, scheduled, None)
            },
            _ => unreached(),
        },
        MergeStateOf::Navigating { merging, scheduled, .. } => match reply {
            ReplyOf::Done => report(merging, scheduled, None),
            ReplyOf::Failed { cause } => report(merging, scheduled, Some(cause)),
            _ => unreached(),
        },
    }
}

} // verus!
