//! Why a workflow ends without doing what was asked.

use crate::text::trim;
use vstd::prelude::*;
use vstd::string::StringExecFns;

verus! {

/// Why a workflow failed, over texts `S` and foreign errors `E`.
pub enum WorkflowErrorOf<S, E> {
    /// An effect failed, and its error says all there is to say.
    External { cause: E },
    /// An effect failed; `context` says what was being done.
    Context { context: S, cause: E },
    /// No workspace answers to the name.
    WorktreeNotFound { name: S },
    /// The branch to merge is checked out in the main workspace.
    InMainWorkspace { branch: S, root: S },
    /// The directory of the workspace has no name that can serve as its handle.
    NoHandle { path: S },
    /// The directory of the target workspace has no name.
    InvalidTargetPath,
    /// The workspace to merge has uncommitted changes.
    SourceDirty { branch: S },
    /// The branch would be merged into itself.
    MergeIntoItself { branch: S },
    /// There is no such bookmark.
    NoBookmark { branch: S },
    /// The target workspace has uncommitted changes.
    TargetDirty { path: S },
    /// A command ended without success.
    CommandFailed { command: S, stderr: S },
    /// The merge produced conflicts and was undone.
    MergeConflict { branch: S, target: S, workspace: S },
    /// The branch would be rebased onto itself.
    RebaseOntoItself { branch: S },
    /// There is no such base branch.
    NoBaseBranch { branch: S },
    /// The rebased commits have conflicts.
    RebaseConflict { workspace: S },
    /// There is nothing of the name that was given as the base.
    NoBaseReference { base: S },
    /// The directory is on no branch.
    NotOnBranch,
    /// The branch would become its own base.
    BaseIsCurrent,
}

/// Why a workflow failed.
pub type WorkflowError<E> = WorkflowErrorOf<String, E>;

/// The value of a [`WorkflowError`].
pub type WorkflowErrorView<E> = WorkflowErrorOf<Seq<char>, E>;

impl<E> View for WorkflowErrorOf<String, E> {
    type V = WorkflowErrorView<E>;

    open spec fn view(&self) -> WorkflowErrorView<E> {
        match self {
            WorkflowErrorOf::External { cause } => WorkflowErrorOf::External { cause: *cause },
            WorkflowErrorOf::Context { context, cause } => WorkflowErrorOf::Context {
                context: context@,
                cause: *cause,
            },
            WorkflowErrorOf::WorktreeNotFound { name } => WorkflowErrorOf::WorktreeNotFound {
                name: name@,
            },
            WorkflowErrorOf::InMainWorkspace { branch, root } => WorkflowErrorOf::InMainWorkspace {
                branch: branch@,
                root: root@,
            },
            WorkflowErrorOf::NoHandle { path } => WorkflowErrorOf::NoHandle { path: path@ },
            WorkflowErrorOf::InvalidTargetPath => WorkflowErrorOf::InvalidTargetPath,
            WorkflowErrorOf::SourceDirty { branch } => WorkflowErrorOf::SourceDirty {
                branch: branch@,
            },
            WorkflowErrorOf::MergeIntoItself { branch } => WorkflowErrorOf::MergeIntoItself {
                branch: branch@,
            },
            WorkflowErrorOf::NoBookmark { branch } => WorkflowErrorOf::NoBookmark {
                branch: branch@,
            },
            WorkflowErrorOf::TargetDirty { path } => WorkflowErrorOf::TargetDirty { path: path@ },
            WorkflowErrorOf::CommandFailed { command, stderr } => WorkflowErrorOf::CommandFailed {
                command: command@,
                stderr: stderr@,
            },
            WorkflowErrorOf::MergeConflict { branch, target, workspace } =>
                WorkflowErrorOf::MergeConflict {
                branch: branch@,
                target: target@,
                workspace: workspace@,
            },
            WorkflowErrorOf::RebaseOntoItself { branch } => WorkflowErrorOf::RebaseOntoItself {
                branch: branch@,
            },
            WorkflowErrorOf::NoBaseBranch { branch } => WorkflowErrorOf::NoBaseBranch {
                branch: branch@,
            },
            WorkflowErrorOf::RebaseConflict { workspace } => WorkflowErrorOf::RebaseConflict {
                workspace: workspace@,
            },
            WorkflowErrorOf::NoBaseReference { base } => WorkflowErrorOf::NoBaseReference {
                base: base@,
            },
            WorkflowErrorOf::NotOnBranch => WorkflowErrorOf::NotOnBranch,
            WorkflowErrorOf::BaseIsCurrent => WorkflowErrorOf::BaseIsCurrent,
        }
    }
}

impl<E> WorkflowErrorOf<Seq<char>, E> {
    /// What the user is told; nothing where the foreign error speaks for itself.
    pub open spec fn text(self) -> Option<Seq<char>> {
        match self {
            WorkflowErrorOf::External { .. } => None,
            WorkflowErrorOf::Context { context, .. } => Some(context),
            WorkflowErrorOf::WorktreeNotFound { name } => Some(
                "Worktree '"@ + name
                    + "' not found. Use 'workmux list' to see available worktrees."@,
            ),
            WorkflowErrorOf::InMainWorkspace { branch, root } => Some(
                "Cannot merge branch '"@ + branch
                    + "' because it is checked out in the main workspace at '"@ + root
                    + "'. Create a linked workspace for '"@ + branch + "' first."@,
            ),
            WorkflowErrorOf::NoHandle { path } => Some(
                "Could not derive handle from workspace path: "@ + path,
            ),
            WorkflowErrorOf::InvalidTargetPath => Some(
                "Invalid workspace path for target branch"@,
            ),
            WorkflowErrorOf::SourceDirty { branch } => Some(
                "Workspace for '"@ + branch
                    + "' has uncommitted changes. Please describe or commit them, or use --ignore-uncommitted."@,
            ),
            WorkflowErrorOf::MergeIntoItself { branch } => Some(
                "Cannot merge branch '"@ + branch + "' into itself."@,
            ),
            WorkflowErrorOf::NoBookmark { branch } => Some(
                "Bookmark '"@ + branch + "' does not exist"@,
            ),
            WorkflowErrorOf::TargetDirty { path } => Some(
                "Target workspace ("@ + path
                    + ") has uncommitted changes. Please commit them before merging."@,
            ),
            WorkflowErrorOf::CommandFailed { command, stderr } => Some(
                command + " failed: "@ + crate::text::trimmed(stderr),
            ),
            WorkflowErrorOf::MergeConflict { branch, target, workspace } => Some(
                "Merge produced conflicts that jj recorded in commits. The operation was undone.\n\nTo resolve, rebase the branch in the workspace at "@
                    + workspace + ":\njj rebase -d "@ + target
                    + " --edit\n\nThen retry the merge of '"@ + branch
                    + "' or complete it with plain jj commands."@,
            ),
            WorkflowErrorOf::RebaseOntoItself { branch } => Some(
                "Cannot rebase branch '"@ + branch + "' onto itself."@,
            ),
            WorkflowErrorOf::NoBaseBranch { branch } => Some(
                "Base branch '"@ + branch + "' does not exist"@,
            ),
            WorkflowErrorOf::RebaseConflict { workspace } => Some(
                "Rebase produced conflicts, recorded in the rebased commits.\n\nResolve them in the workspace at '"@
                    + workspace + "' with 'jj resolve' or 'jj diffedit', then continue."@,
            ),
            WorkflowErrorOf::NoBaseReference { base } => Some(
                "Base reference '"@ + base + "' does not exist"@,
            ),
            WorkflowErrorOf::NotOnBranch => Some("Not on a branch or bookmark"@),
            WorkflowErrorOf::BaseIsCurrent => Some(
                "Cannot set base branch to the current branch"@,
            ),
        }
    }
}

/// `before`, then `middle`, then `after`.
fn around(before: &str, middle: &String, after: &str) -> (res: String)
    ensures
        res@ == before@ + middle@ + after@,
{
    before.to_owned().concat(middle.as_str()).concat(after)
}

impl<E> WorkflowErrorOf<String, E> {
    /// What the user is told; nothing where the foreign error speaks for itself.
    pub fn message(&self) -> (res: Option<String>)
        ensures
            crate::text::opt_text(res) == self@.text(),
    {
        match self {
            WorkflowErrorOf::External { .. } => None,
            WorkflowErrorOf::Context { context, .. } => Some(context.clone()),
            WorkflowErrorOf::WorktreeNotFound { name } => Some(
                around(
                    "Worktree '",
                    name,
                    "' not found. Use 'workmux list' to see available worktrees.",
                ),
            ),
            WorkflowErrorOf::InMainWorkspace { branch, root } => Some(
                around(
                    "Cannot merge branch '",
                    branch,
                    "' because it is checked out in the main workspace at '",
                ).concat(root.as_str()).concat("'. Create a linked workspace for '").concat(
                    branch.as_str(),
                ).concat("' first."),
            ),
            WorkflowErrorOf::NoHandle { path } => Some(
                "Could not derive handle from workspace path: ".to_owned().concat(path.as_str()),
            ),
            WorkflowErrorOf::InvalidTargetPath => Some(
                "Invalid workspace path for target branch".to_owned(),
            ),
            WorkflowErrorOf::SourceDirty { branch } => Some(
                around(
                    "Workspace for '",
                    branch,
                    "' has uncommitted changes. Please describe or commit them, or use --ignore-uncommitted.",
                ),
            ),
            WorkflowErrorOf::MergeIntoItself { branch } => Some(
                around("Cannot merge branch '", branch, "' into itself."),
            ),
            WorkflowErrorOf::NoBookmark { branch } => Some(
                around("Bookmark '", branch, "' does not exist"),
            ),
            WorkflowErrorOf::TargetDirty { path } => Some(
                around(
                    "Target workspace (",
                    path,
                    ") has uncommitted changes. Please commit them before merging.",
                ),
            ),
            WorkflowErrorOf::CommandFailed { command, stderr } => Some(
                command.clone().concat(" failed: ").concat(trim(stderr.as_str()).as_str()),
            ),
            WorkflowErrorOf::MergeConflict { branch, target, workspace } => Some(
                around(
                    "Merge produced conflicts that jj recorded in commits. The operation was undone.\n\nTo resolve, rebase the branch in the workspace at ",
                    workspace,
                    ":\njj rebase -d ",
                ).concat(target.as_str()).concat(" --edit\n\nThen retry the merge of '").concat(
                    branch.as_str(),
                ).concat("' or complete it with plain jj commands."),
            ),
            WorkflowErrorOf::RebaseOntoItself { branch } => Some(
                around("Cannot rebase branch '", branch, "' onto itself."),
            ),
            WorkflowErrorOf::NoBaseBranch { branch } => Some(
                around("Base branch '", branch, "' does not exist"),
            ),
            WorkflowErrorOf::RebaseConflict { workspace } => Some(
                around(
                    "Rebase produced conflicts, recorded in the rebased commits.\n\nResolve them in the workspace at '",
                    workspace,
                    "' with 'jj resolve' or 'jj diffedit', then continue.",
                ),
            ),
            WorkflowErrorOf::NoBaseReference { base } => Some(
                around("Base reference '", base, "' does not exist"),
            ),
            WorkflowErrorOf::NotOnBranch => Some("Not on a branch or bookmark".to_owned()),
            WorkflowErrorOf::BaseIsCurrent => Some(
                "Cannot set base branch to the current branch".to_owned(),
            ),
        }
    }
}

/// What the user is told of each failure names what it is about.
pub proof fn messages_name_their_subjects<E>(
    a: Seq<char>,
    b: Seq<char>,
    c: Seq<char>,
    cause: E,
)
    ensures
        (WorkflowErrorView::<E>::External { cause }).text() is None,
        (WorkflowErrorView::<E>::Context { context: a, cause }).text() == Some(a),
        (WorkflowErrorView::<E>::WorktreeNotFound { name: a }).text() == Some(
            "Worktree '"@ + a + "' not found. Use 'workmux list' to see available worktrees."@,
        ),
        (WorkflowErrorView::<E>::InMainWorkspace { branch: a, root: b }).text() == Some(
            "Cannot merge branch '"@ + a + "' because it is checked out in the main workspace at '"@
                + b + "'. Create a linked workspace for '"@ + a + "' first."@,
        ),
        (WorkflowErrorView::<E>::NoHandle { path: a }).text() == Some(
            "Could not derive handle from workspace path: "@ + a,
        ),
        WorkflowErrorView::<E>::InvalidTargetPath.text() == Some(
            "Invalid workspace path for target branch"@,
        ),
        (WorkflowErrorView::<E>::SourceDirty { branch: a }).text() == Some(
            "Workspace for '"@ + a
                + "' has uncommitted changes. Please describe or commit them, or use --ignore-uncommitted."@,
        ),
        (WorkflowErrorView::<E>::MergeIntoItself { branch: a }).text() == Some(
            "Cannot merge branch '"@ + a + "' into itself."@,
        ),
        (WorkflowErrorView::<E>::NoBookmark { branch: a }).text() == Some(
            "Bookmark '"@ + a + "' does not exist"@,
        ),
        (WorkflowErrorView::<E>::TargetDirty { path: a }).text() == Some(
            "Target workspace ("@ + a
                + ") has uncommitted changes. Please commit them before merging."@,
        ),
        (WorkflowErrorView::<E>::CommandFailed { command: a, stderr: b }).text() == Some(
            a + " failed: "@ + crate::text::trimmed(b),
        ),
        (WorkflowErrorView::<E>::MergeConflict { branch: a, target: b, workspace: c }).text() == Some(
            "Merge produced conflicts that jj recorded in commits. The operation was undone.\n\nTo resolve, rebase the branch in the workspace at "@
                + c + ":\njj rebase -d "@ + b + " --edit\n\nThen retry the merge of '"@ + a
                + "' or complete it with plain jj commands."@,
        ),
        (WorkflowErrorView::<E>::RebaseOntoItself { branch: a }).text() == Some(
            "Cannot rebase branch '"@ + a + "' onto itself."@,
        ),
        (WorkflowErrorView::<E>::NoBaseBranch { branch: a }).text() == Some(
            "Base branch '"@ + a + "' does not exist"@,
        ),
        (WorkflowErrorView::<E>::RebaseConflict { workspace: a }).text() == Some(
            "Rebase produced conflicts, recorded in the rebased commits.\n\nResolve them in the workspace at '"@
                + a + "' with 'jj resolve' or 'jj diffedit', then continue."@,
        ),
        (WorkflowErrorView::<E>::NoBaseReference { base: a }).text() == Some(
            "Base reference '"@ + a + "' does not exist"@,
        ),
        WorkflowErrorView::<E>::NotOnBranch.text() == Some("Not on a branch or bookmark"@),
        WorkflowErrorView::<E>::BaseIsCurrent.text() == Some(
            "Cannot set base branch to the current branch"@,
        ),
{
}

} // verus!
