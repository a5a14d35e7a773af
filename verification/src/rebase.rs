//! Rebasing a workspace onto its base branch.

use crate::effect::{Effect, EffectOf, Progress, Reply, ReplyOf};
#[allow(unused_imports)]
use crate::effect::{answers, EffectView, ReplyView};
#[allow(unused_imports)]
use crate::error::WorkflowErrorView;
use crate::error::{WorkflowError, WorkflowErrorOf};
use crate::jj::{bookmark_revset, conflict_check, conflict_reported, require_success};
#[allow(unused_imports)]
use crate::jj::{
    bookmark_revset_text, command_error, conflict_check_line, opt_error_view, reports_conflict,
};
use crate::merge::rebasing;
#[allow(unused_imports)]
use crate::merge::rebase_announcement;
#[allow(unused_imports)]
use crate::paths::PathView;
use crate::paths::WorkspacePath;
use crate::text::{same_text, with_text};
#[allow(unused_imports)]
use crate::text::{opt_text, texts};
use crate::workspace::find_workspace_in;
#[allow(unused_imports)]
use crate::workspace::{workspace_named, EntryView};
use crate::workspace::WorkspaceEntry;
use vstd::pervasive::unreached;
use vstd::prelude::*;
use vstd::string::StringExecFns;

verus! {

/// What the user asked for and how the repository is set up, over paths `P` and texts `S`.
pub struct RebaseRequestOf<P, S> {
    /// The workspace to rebase, by handle or branch.
    pub name: S,
    /// The directory the command was given in.
    pub cwd: P,
    /// The main branch, if the configuration names one.
    pub main_branch: Option<S>,
    /// The name of the version control backend.
    pub backend: S,
}

/// What the user asked for and how the repository is set up.
pub type RebaseRequest = RebaseRequestOf<WorkspacePath, String>;

/// The value of a [`RebaseRequest`].
pub type RebaseRequestView = RebaseRequestOf<PathView, Seq<char>>;

impl View for RebaseRequestOf<WorkspacePath, String> {
    type V = RebaseRequestView;

    open spec fn view(&self) -> RebaseRequestView {
        RebaseRequestOf {
            name: self.name@,
            cwd: self.cwd@,
            main_branch: opt_text(self.main_branch),
            backend: self.backend@,
        }
    }
}

/// A rebase whose two sides are known.
pub struct RebasingOf<P, S> {
    /// The workspace to rebase.
    pub path: P,
    /// Its branch.
    pub branch: S,
    /// The branch to rebase onto.
    pub base: S,
}

/// What a rebase waits for, over paths `P` and texts `S`.
pub enum RebaseStateOf<P, S> {
    ListingWorkspaces,
    FindingMainRoot { path: P, branch: S },
    FindingDefaultBranch { path: P, branch: S, root: P },
    ReadingBase { path: P, branch: S, main_branch: S },
    CheckingRecordedBase { path: P, branch: S, main_branch: S, recorded: S },
    CheckingBase { rebasing: RebasingOf<P, S> },
    Announcing { rebasing: RebasingOf<P, S> },
    RebasingJj { rebasing: RebasingOf<P, S> },
    CheckingConflicts { rebasing: RebasingOf<P, S> },
    RebasingGit { rebasing: RebasingOf<P, S> },
    Confirming { rebasing: RebasingOf<P, S> },
}

/// What a rebase waits for.
pub type RebaseState = RebaseStateOf<WorkspacePath, String>;

/// The value of a [`RebaseState`].
pub type RebaseStateView = RebaseStateOf<PathView, Seq<char>>;

/// The value of a [`RebasingOf`].
pub type RebasingView = RebasingOf<PathView, Seq<char>>;

impl View for RebasingOf<WorkspacePath, String> {
    type V = RebasingView;

    open spec fn view(&self) -> RebasingView {
        RebasingOf { path: self.path@, branch: self.branch@, base: self.base@ }
    }
}

impl View for RebaseStateOf<WorkspacePath, String> {
    type V = RebaseStateView;

    open spec fn view(&self) -> RebaseStateView {
        match self {
            RebaseStateOf::ListingWorkspaces => RebaseStateOf::ListingWorkspaces,
            RebaseStateOf::FindingMainRoot { path, branch } => RebaseStateOf::FindingMainRoot {
                path: path@,
                branch: branch@,
            },
            RebaseStateOf::FindingDefaultBranch { path, branch, root } =>
                RebaseStateOf::FindingDefaultBranch {
                path: path@,
                branch: branch@,
                root: root@,
            },
            RebaseStateOf::ReadingBase { path, branch, main_branch } =>
                RebaseStateOf::ReadingBase {
                path: path@,
                branch: branch@,
                main_branch: main_branch@,
            },
            RebaseStateOf::CheckingRecordedBase { path, branch, main_branch, recorded } =>
                RebaseStateOf::CheckingRecordedBase {
                path: path@,
                branch: branch@,
                main_branch: main_branch@,
                recorded: recorded@,
            },
            RebaseStateOf::CheckingBase { rebasing } => RebaseStateOf::CheckingBase {
                rebasing: rebasing@,
            },
            RebaseStateOf::Announcing { rebasing } => RebaseStateOf::Announcing {
                rebasing: rebasing@,
            },
            RebaseStateOf::RebasingJj { rebasing } => RebaseStateOf::RebasingJj {
                rebasing: rebasing@,
            },
            RebaseStateOf::CheckingConflicts { rebasing } => RebaseStateOf::CheckingConflicts {
                rebasing: rebasing@,
            },
            RebaseStateOf::RebasingGit { rebasing } => RebaseStateOf::RebasingGit {
                rebasing: rebasing@,
            },
            RebaseStateOf::Confirming { rebasing } => RebaseStateOf::Confirming {
                rebasing: rebasing@,
            },
        }
    }
}

/// Where a rebase stands.
pub type RebaseProgress<E> = Progress<RebaseState, Result<(), WorkflowError<E>>>;

/// The value of a [`RebaseProgress`].
pub type RebaseProgressView<E> = Progress<RebaseStateView, Result<(), WorkflowErrorView<E>>>;

/// The value of a [`RebaseProgress`].
pub open spec fn progress_view<E>(progress: RebaseProgress<E>) -> RebaseProgressView<E> {
    match progress {
        Progress::Awaiting(state) => Progress::Awaiting(state@),
        Progress::Finished(Ok(_)) => Progress::Finished(Ok(())),
        Progress::Finished(Err(error)) => Progress::Finished(Err(error@)),
    }
}

/// The command that rebases a workspace in a jj repository. The base stands in its revset as a
/// bare name. Conflicts do not stop the command: they are recorded in the rebased commits.
pub open spec fn jj_rebase_line(base: Seq<char>) -> Seq<Seq<char>> {
    seq![
        "--no-pager"@,
        "--color=never"@,
        "--ignore-immutable"@,
        "rebase"@,
        "-d"@,
        bookmark_revset_text(base),
    ]
}

/// What is said of a rebase that git could not complete.
pub open spec fn git_rebase_failure(workspace: Seq<char>) -> Seq<char> {
    "Rebase failed, likely due to conflicts.\n\nPlease resolve them manually inside the worktree at '"@
        + workspace
        + "'.\nThen, run 'git rebase --continue' to proceed or 'git rebase --abort' to cancel."@
}

/// The effect that a rebase waits for.
pub open spec fn rebase_effect(request: RebaseRequestView, state: RebaseStateView) -> EffectView {
    match state {
        RebaseStateOf::ListingWorkspaces => EffectOf::ListWorkspaces { dir: request.cwd },
        RebaseStateOf::FindingMainRoot { path, .. } => EffectOf::MainWorktreeRoot { dir: path },
        RebaseStateOf::FindingDefaultBranch { root, .. } => EffectOf::DefaultBranch { dir: root },
        RebaseStateOf::ReadingBase { path, branch, .. } => EffectOf::BranchBase {
            branch,
            dir: path,
        },
        RebaseStateOf::CheckingRecordedBase { path, recorded, .. } => EffectOf::LocalBranchExists {
            branch: recorded,
            dir: path,
        },
        RebaseStateOf::CheckingBase { rebasing } => EffectOf::LocalBranchExists {
            branch: rebasing.base,
            dir: rebasing.path,
        },
        RebaseStateOf::Announcing { rebasing } => EffectOf::Print {
            text: rebase_announcement(rebasing.branch, rebasing.base),
        },
        RebaseStateOf::RebasingJj { rebasing } => EffectOf::RunJj {
            dir: rebasing.path,
            args: jj_rebase_line(rebasing.base),
        },
        RebaseStateOf::CheckingConflicts { rebasing } => EffectOf::RunJj {
            dir: rebasing.path,
            args: conflict_check_line("@"@),
        },
        RebaseStateOf::RebasingGit { rebasing } => EffectOf::RebaseGit {
            dir: rebasing.path,
            base: rebasing.base,
        },
        RebaseStateOf::Confirming { rebasing } => EffectOf::Print {
            text: "✓ Rebased '"@ + rebasing.branch + "' onto '"@ + rebasing.base + "'"@,
        },
    }
}

/// A rebase that fails.
pub open spec fn failed<E>(error: WorkflowErrorView<E>) -> RebaseProgressView<E> {
    Progress::Finished(Err(error))
}

/// After the listing of the workspaces in search of the one to rebase: the main branch is the
/// configured one, else it has to be found.
pub open spec fn after_listing<E>(
    request: RebaseRequestView,
    entries: Seq<EntryView>,
) -> RebaseProgressView<E> {
    match workspace_named(entries, request.name) {
        Some((path, branch)) => match request.main_branch {
            Some(main_branch) => Progress::Awaiting(
                RebaseStateOf::ReadingBase { path, branch, main_branch },
            ),
            None => Progress::Awaiting(RebaseStateOf::FindingMainRoot { path, branch }),
        },
        None => failed(WorkflowErrorOf::WorktreeNotFound { name: request.name }),
    }
}

/// Once the base is known.
pub open spec fn after_base<E>(rebasing: RebasingView) -> RebaseProgressView<E> {
    if rebasing.branch == rebasing.base {
        failed(WorkflowErrorOf::RebaseOntoItself { branch: rebasing.branch })
    } else {
        Progress::Awaiting(RebaseStateOf::CheckingBase { rebasing })
    }
}

/// What the conflict check after a rebase leads to: nothing, or the error to report.
pub open spec fn rebase_conflict_error<E>(workspace: PathView, reply: ReplyView<E>) -> Option<
    WorkflowErrorView<E>,
> {
    match command_error("jj log"@, "Failed to inspect jj rebase result"@, reply) {
        Some(error) => Some(error),
        None => if reports_conflict(reply) {
            Some(WorkflowErrorOf::RebaseConflict { workspace: workspace.text })
        } else {
            None
        },
    }
}

/// Where a rebase stands after the reply to the effect it waited for.
pub open spec fn rebase_after<E>(
    request: RebaseRequestView,
    state: RebaseStateView,
    reply: ReplyView<E>,
) -> RebaseProgressView<E> {
    match state {
        RebaseStateOf::ListingWorkspaces => match reply {
            ReplyOf::Workspaces { entries } => after_listing(request, entries),
            ReplyOf::Failed { .. } => failed(
                WorkflowErrorOf::WorktreeNotFound { name: request.name },
            ),
            _ => arbitrary(),
        },
        RebaseStateOf::FindingMainRoot { path, branch } => match reply {
            ReplyOf::Path { value } => Progress::Awaiting(
                RebaseStateOf::FindingDefaultBranch { path, branch, root: value },
            ),
            ReplyOf::Failed { cause } => failed(
                WorkflowErrorOf::Context { context: "Could not find the main worktree"@, cause },
            ),
            _ => arbitrary(),
        },
        RebaseStateOf::FindingDefaultBranch { path, branch, .. } => match reply {
            ReplyOf::Text { value } => Progress::Awaiting(
                RebaseStateOf::ReadingBase { path, branch, main_branch: value },
            ),
            ReplyOf::Failed { cause } => failed(
                WorkflowErrorOf::Context { context: "Failed to determine the main branch"@, cause },
            ),
            _ => arbitrary(),
        },
        RebaseStateOf::ReadingBase { path, branch, main_branch } => match reply {
            ReplyOf::Name { value: Some(recorded) } => Progress::Awaiting(
                RebaseStateOf::CheckingRecordedBase { path, branch, main_branch, recorded },
            ),
            ReplyOf::Name { value: None } => after_base(
                RebasingOf { path, branch, base: main_branch },
            ),
            _ => arbitrary(),
        },
        RebaseStateOf::CheckingRecordedBase { path, branch, main_branch, recorded } => match reply {
            ReplyOf::Flag { value: true } => after_base(
                RebasingOf { path, branch, base: recorded },
            ),
            ReplyOf::Flag { value: false } => after_base(
                RebasingOf { path, branch, base: main_branch },
            ),
            ReplyOf::Failed { cause } => failed(WorkflowErrorOf::External { cause }),
            _ => arbitrary(),
        },
        RebaseStateOf::CheckingBase { rebasing } => match reply {
            ReplyOf::Flag { value: true } => Progress::Awaiting(
                RebaseStateOf::Announcing { rebasing },
            ),
            ReplyOf::Flag { value: false } => failed(
                WorkflowErrorOf::NoBaseBranch { branch: rebasing.base },
            ),
            ReplyOf::Failed { cause } => failed(WorkflowErrorOf::External { cause }),
            _ => arbitrary(),
        },
        RebaseStateOf::Announcing { rebasing } => if request.backend == "jj"@ {
            Progress::Awaiting(RebaseStateOf::RebasingJj { rebasing })
        } else {
            Progress::Awaiting(RebaseStateOf::RebasingGit { rebasing })
        },
        RebaseStateOf::RebasingJj { rebasing } => match command_error(
            "jj rebase"@,
            "Failed to execute jj rebase"@,
            reply,
        ) {
            Some(error) => failed(error),
            None => Progress::Awaiting(RebaseStateOf::CheckingConflicts { rebasing }),
        },
        RebaseStateOf::CheckingConflicts { rebasing } => match rebase_conflict_error(
            rebasing.path,
            reply,
        ) {
            Some(error) => failed(error),
            None => Progress::Awaiting(RebaseStateOf::Confirming { rebasing }),
        },
        RebaseStateOf::RebasingGit { rebasing } => match reply {
            ReplyOf::Done => Progress::Awaiting(RebaseStateOf::Confirming { rebasing }),
            ReplyOf::Failed { cause } => failed(
                WorkflowErrorOf::Context {
                    context: git_rebase_failure(rebasing.path.text),
                    cause,
                },
            ),
            _ => arbitrary(),
        },
        RebaseStateOf::Confirming { .. } => Progress::Finished(Ok(())),
    }
}

/// The state in which a rebase begins.
pub fn begin() -> (state: RebaseState)
    ensures
        state@ == RebaseStateView::ListingWorkspaces,
{
    RebaseStateOf::ListingWorkspaces
}

fn jj_rebase(base: &str) -> (res: Vec<String>)
    ensures
        texts(res@) == jj_rebase_line(base@),
{
    let args = with_text(Vec::new(), "--no-pager");
    let args = with_text(args, "--color=never");
    let args = with_text(args, "--ignore-immutable");
    let args = with_text(args, "rebase");
    let args = with_text(args, "-d");
    let args = with_text(args, bookmark_revset(base).as_str());
    assert(texts(args@) =~= jj_rebase_line(base@));
    args
}

/// The effect that a rebase waits for.
pub fn pending_effect(request: &RebaseRequest, state: &RebaseState) -> (res: Effect)
    ensures
        res@ == rebase_effect(request@, state@),
{
    match state {
        RebaseStateOf::ListingWorkspaces => EffectOf::ListWorkspaces { dir: request.cwd.clone() },
        RebaseStateOf::FindingMainRoot { path, .. } => EffectOf::MainWorktreeRoot {
            dir: path.clone(),
        },
        RebaseStateOf::FindingDefaultBranch { root, .. } => EffectOf::DefaultBranch {
            dir: root.clone(),
        },
        RebaseStateOf::ReadingBase { path, branch, .. } => EffectOf::BranchBase {
            branch: branch.clone(),
            dir: path.clone(),
        },
        RebaseStateOf::CheckingRecordedBase { path, recorded, .. } => EffectOf::LocalBranchExists {
            branch: recorded.clone(),
            dir: path.clone(),
        },
        RebaseStateOf::CheckingBase { rebasing } => EffectOf::LocalBranchExists {
            branch: rebasing.base.clone(),
            dir: rebasing.path.clone(),
        },
        RebaseStateOf::Announcing { rebasing: r } => EffectOf::Print {
            text: rebasing(r.branch.as_str(), r.base.as_str()),
        },
        RebaseStateOf::RebasingJj { rebasing } => EffectOf::RunJj {
            dir: rebasing.path.clone(),
            args: jj_rebase(rebasing.base.as_str()),
        },
        RebaseStateOf::CheckingConflicts { rebasing } => EffectOf::RunJj {
            dir: rebasing.path.clone(),
            args: conflict_check("@"),
        },
        RebaseStateOf::RebasingGit { rebasing } => EffectOf::RebaseGit {
            dir: rebasing.path.clone(),
            base: rebasing.base.clone(),
        },
        RebaseStateOf::Confirming { rebasing } => EffectOf::Print {
            text: "✓ Rebased '".to_owned().concat(rebasing.branch.as_str()).concat(
                "' onto '",
            ).concat(rebasing.base.as_str()).concat("'"),
        },
    }
}

/// Reads the result of the conflict check after a rebase.
pub fn check_jj_rebase_conflicts<E>(workspace: &WorkspacePath, reply: Reply<E>) -> (res: Option<
    WorkflowError<E>,
>)
    requires
        reply@ is Output || reply@ is Failed,
    ensures
        opt_error_view(res) == rebase_conflict_error(workspace@, reply@),
{
    let conflicted = match &reply {
        ReplyOf::Output { .. } => conflict_reported(&reply),
        _ => false,
    };
    match require_success(
        "jj log".to_owned(),
        "Failed to inspect jj rebase result".to_owned(),
        reply,
    ) {
        Some(error) => Some(error),
        None => if conflicted {
            Some(WorkflowErrorOf::RebaseConflict { workspace: workspace.text.clone() })
        } else {
            None
        },
    }
}

fn fail<E>(error: WorkflowError<E>) -> (res: RebaseProgress<E>)
    ensures
        progress_view(res) == failed(error@),
{
    Progress::Finished(Err(error))
}

fn fail_in_context<E>(context: &str, cause: E) -> (res: RebaseProgress<E>)
    ensures
        progress_view(res) == failed(WorkflowErrorOf::Context { context: context@, cause }),
{
    fail(WorkflowErrorOf::Context { context: context.to_owned(), cause })
}

fn resolve_workspace<E>(request: &RebaseRequest, entries: &Vec<WorkspaceEntry>) -> (res:
    RebaseProgress<E>)
    ensures
        progress_view(res) == after_listing::<E>(
            request@,
            crate::workspace::entries_view(entries@),
        ),
{
    match find_workspace_in(entries, request.name.as_str()) {
        Ok((path, branch)) => match &request.main_branch {
            Some(main_branch) => Progress::Awaiting(
                RebaseStateOf::ReadingBase { path, branch, main_branch: main_branch.clone() },
            ),
            None => Progress::Awaiting(RebaseStateOf::FindingMainRoot { path, branch }),
        },
        Err(_) => fail(WorkflowErrorOf::WorktreeNotFound { name: request.name.clone() }),
    }
}

fn settle_base<E>(path: WorkspacePath, branch: String, base: String) -> (res: RebaseProgress<E>)
    ensures
        progress_view(res) == after_base::<E>(
            RebasingOf { path: path@, branch: branch@, base: base@ },
        ),
{
    if same_text(branch.as_str(), base.as_str()) {
        fail(WorkflowErrorOf::RebaseOntoItself { branch })
    } else {
        Progress::Awaiting(
            RebaseStateOf::CheckingBase { rebasing: RebasingOf { path, branch, base } },
        )
    }
}

/// Takes the reply to the effect that a rebase waits for, and goes on to the next effect or to
/// the outcome.
#[verifier::rlimit(30)]
pub fn advance<E>(request: &RebaseRequest, state: RebaseState, reply: Reply<E>) -> (res:
    RebaseProgress<E>)
    requires
        answers(rebase_effect(request@, state@), reply@),
    ensures
        progress_view(res) == rebase_after(request@, state@, reply@),
{
    match state {
        RebaseStateOf::ListingWorkspaces => match reply {
            ReplyOf::Workspaces { entries } => resolve_workspace(request, &entries),
            ReplyOf::Failed { .. } => fail(
                WorkflowErrorOf::WorktreeNotFound { name: request.name.clone() },
            ),
            _ => unreached(),
        },
        RebaseStateOf::FindingMainRoot { path, branch } => match reply {
            ReplyOf::Path { value } => Progress::Awaiting(
                RebaseStateOf::FindingDefaultBranch { path, branch, root: value },
            ),
            ReplyOf::Failed { cause } => fail_in_context(
                "Could not find the main worktree",
                cause,
            ),
            _ => unreached(),
        },
        RebaseStateOf::FindingDefaultBranch { path, branch, .. } => match reply {
            ReplyOf::Text { value } => Progress::Awaiting(
                RebaseStateOf::ReadingBase { path, branch, main_branch: value },
            ),
            ReplyOf::Failed { cause } => fail_in_context(
                "Failed to determine the main branch",
                cause,
            ),
            _ => unreached(),
        },
        RebaseStateOf::ReadingBase { path, branch, main_branch } => match reply {
            ReplyOf::Name { value } => match value {
                Some(recorded) => Progress::Awaiting(
                    RebaseStateOf::CheckingRecordedBase { path, branch, main_branch, recorded },
                ),
                None => settle_base(path, branch, main_branch),
            },
            _ => unreached(),
        },
        RebaseStateOf::CheckingRecordedBase { path, branch, main_branch, recorded } => match reply {
            ReplyOf::Flag { value } => if value {
                settle_base(path, branch, recorded)
            } else {
                settle_base(path, branch, main_branch)
            },
            ReplyOf::Failed { cause } => fail(WorkflowErrorOf::External { cause }),
            _ => unreached(),
        },
        RebaseStateOf::CheckingBase { rebasing } => match reply {
            ReplyOf::Flag { value } => if value {
                Progress::Awaiting(RebaseStateOf::Announcing { rebasing })
            } else {
                fail(WorkflowErrorOf::NoBaseBranch { branch: rebasing.base })
            },
            ReplyOf::Failed { cause } => fail(WorkflowErrorOf::External { cause }),
            _ => unreached(),
        },
        RebaseStateOf::Announcing { rebasing } => if same_text(request.backend.as_str(), "jj") {
            Progress::Awaiting(RebaseStateOf::RebasingJj { rebasing })
        } else {
            Progress::Awaiting(RebaseStateOf::RebasingGit { rebasing })
        },
        RebaseStateOf::RebasingJj { rebasing } => match require_success(
            "jj rebase".to_owned(),
            "Failed to execute jj rebase".to_owned(),
            reply,
        ) {
            Some(error) => fail(error),
            None => Progress::Awaiting(RebaseStateOf::CheckingConflicts { rebasing }),
        },
        RebaseStateOf::CheckingConflicts { rebasing } => match check_jj_rebase_conflicts(
            &rebasing.path,
            reply,
        ) {
            Some(error) => fail(error),
            None => Progress::Awaiting(RebaseStateOf::Confirming { rebasing }),
        },
        RebaseStateOf::RebasingGit { rebasing } => match reply {
            ReplyOf::Done => Progress::Awaiting(RebaseStateOf::Confirming { rebasing }),
            ReplyOf::Failed { cause } => {
                let context =
                    "Rebase failed, likely due to conflicts.\n\nPlease resolve them manually inside the worktree at '".to_owned().concat(
                rebasing.path.text.as_str()).concat(
                    "'.\nThen, run 'git rebase --continue' to proceed or 'git rebase --abort' to cancel.",
                );
                fail(WorkflowErrorOf::Context { context, cause })
            },
            _ => unreached(),
        },
        RebaseStateOf::Confirming { .. } => Progress::Finished(Ok(())),
    }
}

} // verus!
