//! The values that stand for requests, effects, replies and results: each part of a value is the
//! value of that very part.

use crate::effect::{Effect, EffectOf, EffectView, Progress, Reply, ReplyOf, ReplyView};
use crate::error::{WorkflowError, WorkflowErrorOf, WorkflowErrorView};
use crate::list::JsonWorktree;
use crate::merge::{MergeContext, MergeRequest, MergeResult, MergeState};
use crate::paths::{PartView, PathPart, WorkspacePath};
use crate::rebase::{RebaseRequest, RebaseState};
use crate::set_base::{SetBaseRequest, SetBaseState};
use crate::text::{opt_text, texts};
use crate::workspace::{entries_view, WorkspaceEntry};
use vstd::prelude::*;

verus! {

/// The value of a path shows its text and its components, one by one.
pub proof fn path_value(path: WorkspacePath, i: int)
    requires
        0 <= i < path.parts@.len(),
    ensures
        path@.text == path.text@,
        path@.parts.len() == path.parts@.len(),
        path.parts@[i] is Root <==> path@.parts[i] is Root,
        path.parts@[i] is Current <==> path@.parts[i] is Current,
        path.parts@[i] is Parent <==> path@.parts[i] is Parent,
        path.parts@[i] matches PathPart::Normal(name) ==> {
            &&& path@.parts[i] matches PartView::Normal(value)
            &&& value.bytes == name.bytes@
            &&& value.text == name.text@
        },
{
}

/// The value of a listing of workspaces shows the path and the branch of each, in order.
pub proof fn entries_value(entries: Seq<WorkspaceEntry>, i: int)
    requires
        0 <= i < entries.len(),
    ensures
        entries_view(entries).len() == entries.len(),
        entries_view(entries)[i].path == entries[i].path@,
        entries_view(entries)[i].branch_or_bookmark == opt_text(entries[i].branch_or_bookmark),
{
}

/// The value of a request to merge, and of the repository it works on.
pub proof fn merge_request_value(request: MergeRequest, context: MergeContext)
    ensures
        request@.name == request.name@,
        request@.into_branch == opt_text(request.into_branch),
        request@.rebase == request.rebase,
        request@.squash == request.squash,
        request@.keep == request.keep,
        request@.ignore_uncommitted == request.ignore_uncommitted,
        request@.skip_verify == request.skip_verify,
        request@.no_hooks == request.no_hooks,
        request@.notification == request.notification,
        context@.execution_dir == context.execution_dir@,
        context@.main_worktree_root == context.main_worktree_root@,
        context@.main_branch == context.main_branch@,
{
}

/// The value of what a merge did.
pub proof fn merge_result_value<E>(result: MergeResult<E>)
    ensures
        result@.branch_merged == result.branch_merged@,
        result@.main_branch == result.main_branch@,
        result@.had_staged_changes == result.had_staged_changes,
        result@.cleanup_scheduled == result.cleanup_scheduled,
        result@.cleanup_error == result.cleanup_error,
{
}

/// The values of requests to rebase and to set a base.
pub proof fn request_values(rebase: RebaseRequest, set_base: SetBaseRequest)
    ensures
        rebase@.name == rebase.name@,
        rebase@.cwd == rebase.cwd@,
        rebase@.main_branch == opt_text(rebase.main_branch),
        rebase@.backend == rebase.backend@,
        set_base@.base == set_base.base@,
        set_base@.cwd == set_base.cwd@,
{
}

/// A workflow whose value waits for a reply waits for it itself, and one whose value has ended
/// has ended itself, in the same way.
pub proof fn progress_values<E>(
    merge: MergeState,
    result: MergeResult<E>,
    rebase: RebaseState,
    set_base: SetBaseState,
    error: WorkflowError<E>,
)
    ensures
        crate::merge::progress_view::<E>(Progress::Awaiting(merge)) matches Progress::Awaiting(state)
            && state == merge@,
        crate::merge::progress_view::<E>(Progress::Finished(Ok(result))) matches Progress::Finished(
            Ok(value),
        ) && value == result@,
        crate::merge::progress_view::<E>(Progress::Finished(Err(error))) matches Progress::Finished(
            Err(value),
        ) && value == error@,
        crate::rebase::progress_view::<E>(Progress::Awaiting(rebase)) matches Progress::Awaiting(
            state,
        ) && state == rebase@,
        crate::rebase::progress_view::<E>(Progress::Finished(Err(error))) matches Progress::Finished(
            Err(value),
        ) && value == error@,
        crate::rebase::progress_view::<E>(Progress::Finished(Ok(()))) matches Progress::Finished(
            Ok(_),
        ),
        crate::set_base::progress_view::<E>(Progress::Awaiting(set_base)) matches Progress::Awaiting(
            state,
        ) && state == set_base@,
        crate::set_base::progress_view::<E>(
            Progress::Finished(Err(error)),
        ) matches Progress::Finished(Err(value)) && value == error@,
        crate::set_base::progress_view::<E>(Progress::Finished(Ok(()))) matches Progress::Finished(
            Ok(_),
        ),
{
}

/// The value of an effect is of the same kind, with the values of its parts.
pub proof fn effect_value(effect: Effect)
    ensures
        match effect {
            EffectOf::EnterMainWorktree => effect@ is EnterMainWorktree,
            EffectOf::ListWorkspaces { dir } => effect@ == (EffectView::ListWorkspaces {
                dir: dir@,
            }),
            EffectOf::IsMainWorktree { path } => effect@ == (EffectView::IsMainWorktree {
                path: path@,
            }),
            EffectOf::MainWorktreeRoot { dir } => effect@ == (EffectView::MainWorktreeRoot {
                dir: dir@,
            }),
            EffectOf::DefaultBranch { dir } => effect@ == (EffectView::DefaultBranch {
                dir: dir@,
            }),
            EffectOf::BranchBase { branch, dir } => effect@ == (EffectView::BranchBase {
                branch: branch@,
                dir: dir@,
            }),
            EffectOf::RecordBranchBase { branch, base, dir } => effect@ == (
            EffectView::RecordBranchBase { branch: branch@, base: base@, dir: dir@ }),
            EffectOf::BranchExists { branch, dir } => effect@ == (EffectView::BranchExists {
                branch: branch@,
                dir: dir@,
            }),
            EffectOf::LocalBranchExists { branch, dir } => effect@ == (
            EffectView::LocalBranchExists { branch: branch@, dir: dir@ }),
            EffectOf::CurrentBranch { dir } => effect@ == (EffectView::CurrentBranch {
                dir: dir@,
            }),
            EffectOf::ReadMeta { handle, key, dir } => effect@ == (EffectView::ReadMeta {
                handle: handle@,
                key: key@,
                dir: dir@,
            }),
            EffectOf::Status { path } => effect@ == (EffectView::Status { path: path@ }),
            EffectOf::QuoteBookmarks { feature, target } => effect@ == (
            EffectView::QuoteBookmarks { feature: feature@, target: target@ }),
            EffectOf::RunPreMergeHooks { handle, branch, target, path, skip_verify, no_hooks } =>
                effect@ == (EffectView::RunPreMergeHooks {
                handle: handle@,
                branch: branch@,
                target: target@,
                path: path@,
                skip_verify,
                no_hooks,
            }),
            EffectOf::RunJj { dir, args } => effect@ == (EffectView::RunJj {
                dir: dir@,
                args: texts(args@),
            }),
            EffectOf::RebaseGit { dir, base } => effect@ == (EffectView::RebaseGit {
                dir: dir@,
                base: base@,
            }),
            EffectOf::Print { text } => effect@ == (EffectView::Print { text: text@ }),
            EffectOf::Notify { text } => effect@ == (EffectView::Notify { text: text@ }),
            EffectOf::Cleanup { branch, handle, path, options } => effect@ == (
            EffectView::Cleanup { branch: branch@, handle: handle@, path: path@, options }),
            EffectOf::ManagesMux { attachment } => effect@ == (EffectView::ManagesMux {
                attachment,
            }),
            EffectOf::NavigateAndClose { window, handle, mode } => effect@ == (
            EffectView::NavigateAndClose { window: window@, handle: handle@, mode }),
        },
{
}

/// The value of a reply is of the same kind, with the values of its parts.
pub proof fn reply_value<E>(reply: Reply<E>)
    ensures
        match reply {
            ReplyOf::Done => reply@ is Done,
            ReplyOf::Failed { cause } => reply@ == (ReplyView::<E>::Failed { cause }),
            ReplyOf::Workspaces { entries } => reply@ == (ReplyView::<E>::Workspaces {
                entries: entries_view(entries@),
            }),
            ReplyOf::Flag { value } => reply@ == (ReplyView::<E>::Flag { value }),
            ReplyOf::Name { value } => reply@ == (ReplyView::<E>::Name {
                value: opt_text(value),
            }),
            ReplyOf::Text { value } => reply@ == (ReplyView::<E>::Text { value: value@ }),
            ReplyOf::Path { value } => reply@ == (ReplyView::<E>::Path { value: value@ }),
            ReplyOf::Output { success, stdout, stderr } => reply@ == (ReplyView::<E>::Output {
                success,
                stdout: stdout@,
                stderr: stderr@,
            }),
            ReplyOf::Quoted { feature, target } => reply@ == (ReplyView::<E>::Quoted {
                feature: feature@,
                target: target@,
            }),
        },
{
}

/// The value of an error is of the same kind, with the values of its parts.
pub proof fn error_value<E>(error: WorkflowError<E>)
    ensures
        match error {
            WorkflowErrorOf::External { cause } => error@ == (WorkflowErrorView::<E>::External {
                cause,
            }),
            WorkflowErrorOf::Context { context, cause } => error@ == (
            WorkflowErrorView::<E>::Context { context: context@, cause }),
            WorkflowErrorOf::WorktreeNotFound { name } => error@ == (
            WorkflowErrorView::<E>::WorktreeNotFound { name: name@ }),
            WorkflowErrorOf::InMainWorkspace { branch, root } => error@ == (
            WorkflowErrorView::<E>::InMainWorkspace { branch: branch@, root: root@ }),
            WorkflowErrorOf::NoHandle { path } => error@ == (WorkflowErrorView::<E>::NoHandle {
                path: path@,
            }),
            WorkflowErrorOf::InvalidTargetPath => error@ is InvalidTargetPath,
            WorkflowErrorOf::SourceDirty { branch } => error@ == (
            WorkflowErrorView::<E>::SourceDirty { branch: branch@ }),
            WorkflowErrorOf::MergeIntoItself { branch } => error@ == (
            WorkflowErrorView::<E>::MergeIntoItself { branch: branch@ }),
            WorkflowErrorOf::NoBookmark { branch } => error@ == (
            WorkflowErrorView::<E>::NoBookmark { branch: branch@ }),
            WorkflowErrorOf::TargetDirty { path } => error@ == (
            WorkflowErrorView::<E>::TargetDirty { path: path@ }),
            WorkflowErrorOf::CommandFailed { command, stderr } => error@ == (
            WorkflowErrorView::<E>::CommandFailed { command: command@, stderr: stderr@ }),
            WorkflowErrorOf::MergeConflict { branch, target, workspace } => error@ == (
            WorkflowErrorView::<E>::MergeConflict {
                branch: branch@,
                target: target@,
                workspace: workspace@,
            }),
            WorkflowErrorOf::RebaseOntoItself { branch } => error@ == (
            WorkflowErrorView::<E>::RebaseOntoItself { branch: branch@ }),
            WorkflowErrorOf::NoBaseBranch { branch } => error@ == (
            WorkflowErrorView::<E>::NoBaseBranch { branch: branch@ }),
            WorkflowErrorOf::RebaseConflict { workspace } => error@ == (
            WorkflowErrorView::<E>::RebaseConflict { workspace: workspace@ }),
            WorkflowErrorOf::NoBaseReference { base } => error@ == (
            WorkflowErrorView::<E>::NoBaseReference { base: base@ }),
            WorkflowErrorOf::NotOnBranch => error@ is NotOnBranch,
            WorkflowErrorOf::BaseIsCurrent => error@ is BaseIsCurrent,
        },
{
}

/// The value of an entry of the machine-readable listing.
pub proof fn json_value(entry: JsonWorktree)
    ensures
        entry@.project == entry.project@,
        entry@.project_path == entry.project_path@,
        entry@.handle == entry.handle@,
        entry@.branch == entry.branch@,
        entry@.path == entry.path@,
        entry@.is_main == entry.is_main,
        entry@.mode == entry.mode@,
        entry@.has_uncommitted_changes == entry.has_uncommitted_changes,
        entry@.is_open == entry.is_open,
        entry@.agent_statuses == entry.agent_statuses@,
        entry@.created_at == entry.created_at,
{
}

} // verus!
