//! What a workflow asks of the outside, and what it hears back.
//!
//! A workflow never touches the repository or the terminal itself. It names the next
//! [`Effect`]; whoever drives it performs the effect and hands back a [`Reply`].

use crate::meta::{MuxMode, WorktreeAttachment};
use crate::paths::WorkspacePath;
#[allow(unused_imports)]
use crate::paths::PathView;
#[allow(unused_imports)]
use crate::workspace::EntryView;
use crate::workspace::WorkspaceEntry;
use vstd::prelude::*;

verus! {

/// How a merged workspace is cleaned up.
#[derive(Clone, Copy, Debug, PartialEq, Eq, Structural)]
pub struct CleanupOptions {
    pub force: bool,
    pub keep_branch: bool,
    pub no_hooks: bool,
    pub show_hook_output: bool,
}

/// One thing to do or to find out, over paths `P`, texts `S` and argument lists `A`.
pub enum EffectOf<P, S, A> {
    /// Make the main worktree the current directory.
    EnterMainWorktree,
    /// List the workspaces of the repository of `dir`.
    ListWorkspaces { dir: P },
    /// Find out whether `path` is the main worktree.
    IsMainWorktree { path: P },
    /// Find the root of the main worktree of the repository of `dir`.
    MainWorktreeRoot { dir: P },
    /// Find the default branch of the repository of `dir`.
    DefaultBranch { dir: P },
    /// Read the recorded base of a branch.
    BranchBase { branch: S, dir: P },
    /// Record the base of a branch.
    RecordBranchBase { branch: S, base: S, dir: P },
    /// Find out whether a branch or bookmark exists, locally or on a remote.
    BranchExists { branch: S, dir: P },
    /// Find out whether a local branch or bookmark exists.
    LocalBranchExists { branch: S, dir: P },
    /// Find the branch or bookmark that `dir` is on.
    CurrentBranch { dir: P },
    /// Read a metadata value of a workspace.
    ReadMeta { handle: S, key: S, dir: P },
    /// Find out whether the workspace at `path` has uncommitted changes.
    Status { path: P },
    /// Write two bookmark names as string literals of the revset language.
    QuoteBookmarks { feature: S, target: S },
    /// Run the hooks that precede a merge.
    RunPreMergeHooks {
        handle: S,
        branch: S,
        target: S,
        path: P,
        skip_verify: bool,
        no_hooks: bool,
    },
    /// Run `jj` with the arguments `args` in the directory `dir`.
    RunJj { dir: P, args: A },
    /// Rebase the branch that the git worktree `dir` holds onto `base`.
    RebaseGit { dir: P, base: S },
    /// Print a line.
    Print { text: S },
    /// Show a desktop notification.
    Notify { text: S },
    /// Clean up a merged workspace.
    Cleanup { branch: S, handle: S, path: P, options: CleanupOptions },
    /// Find out whether an attachment stands for windows that the workflow manages.
    ManagesMux { attachment: WorktreeAttachment },
    /// Go to the window of the target and close the one of the workspace.
    NavigateAndClose { window: S, handle: S, mode: MuxMode },
}

/// One thing to do or to find out.
pub type Effect = EffectOf<WorkspacePath, String, Vec<String>>;

/// The value of an [`Effect`].
pub type EffectView = EffectOf<PathView, Seq<char>, Seq<Seq<char>>>;

impl View for EffectOf<WorkspacePath, String, Vec<String>> {
    type V = EffectView;

    open spec fn view(&self) -> EffectView {
        match self {
            EffectOf::EnterMainWorktree => EffectOf::EnterMainWorktree,
            EffectOf::ListWorkspaces { dir } => EffectOf::ListWorkspaces { dir: dir@ },
            EffectOf::IsMainWorktree { path } => EffectOf::IsMainWorktree { path: path@ },
            EffectOf::MainWorktreeRoot { dir } => EffectOf::MainWorktreeRoot { dir: dir@ },
            EffectOf::DefaultBranch { dir } => EffectOf::DefaultBranch { dir: dir@ },
            EffectOf::BranchBase { branch, dir } => EffectOf::BranchBase {
                branch: branch@,
                dir: dir@,
            },
            EffectOf::RecordBranchBase { branch, base, dir } => EffectOf::RecordBranchBase {
                branch: branch@,
                base: base@,
                dir: dir@,
            },
            EffectOf::BranchExists { branch, dir } => EffectOf::BranchExists {
                branch: branch@,
                dir: dir@,
            },
            EffectOf::LocalBranchExists { branch, dir } => EffectOf::LocalBranchExists {
                branch: branch@,
                dir: dir@,
            },
            EffectOf::CurrentBranch { dir } => EffectOf::CurrentBranch { dir: dir@ },
            EffectOf::ReadMeta { handle, key, dir } => EffectOf::ReadMeta {
                handle: handle@,
                key: key@,
                dir: dir@,
            },
            EffectOf::Status { path } => EffectOf::Status { path: path@ },
            EffectOf::QuoteBookmarks { feature, target } => EffectOf::QuoteBookmarks {
                feature: feature@,
                target: target@,
            },
            EffectOf::RunPreMergeHooks { handle, branch, target, path, skip_verify, no_hooks } =>
                EffectOf::RunPreMergeHooks {
                handle: handle@,
                branch: branch@,
                target: target@,
                path: path@,
                skip_verify: *skip_verify,
                no_hooks: *no_hooks,
            },
            EffectOf::RunJj { dir, args } => EffectOf::RunJj {
                dir: dir@,
                args: crate::text::texts(args@),
            },
            EffectOf::RebaseGit { dir, base } => EffectOf::RebaseGit { dir: dir@, base: base@ },
            EffectOf::Print { text } => EffectOf::Print { text: text@ },
            EffectOf::Notify { text } => EffectOf::Notify { text: text@ },
            EffectOf::Cleanup { branch, handle, path, options } => EffectOf::Cleanup {
                branch: branch@,
                handle: handle@,
                path: path@,
                options: *options,
            },
            EffectOf::ManagesMux { attachment } => EffectOf::ManagesMux { attachment: *attachment },
            EffectOf::NavigateAndClose { window, handle, mode } => EffectOf::NavigateAndClose {
                window: window@,
                handle: handle@,
                mode: *mode,
            },
        }
    }
}

/// What came of an effect, over paths `P`, texts `S`, workspace lists `W` and foreign errors
/// `E`.
#[allow(inconsistent_fields)]
pub enum ReplyOf<P, S, W, E> {
    /// It was done.
    Done,
    /// It failed.
    Failed { cause: E },
    /// The workspaces.
    Workspaces { entries: W },
    /// Yes or no.
    Flag { value: bool },
    /// A name, if there is one.
    Name { value: Option<S> },
    /// A text.
    Text { value: S },
    /// A path.
    Path { value: P },
    /// What a command printed and whether it succeeded.
    Output { success: bool, stdout: S, stderr: S },
    /// Two quoted names.
    Quoted { feature: S, target: S },
}

/// What came of an effect.
pub type Reply<E> = ReplyOf<WorkspacePath, String, Vec<WorkspaceEntry>, E>;

/// The value of a [`Reply`].
pub type ReplyView<E> = ReplyOf<PathView, Seq<char>, Seq<EntryView>, E>;

impl<E> View for ReplyOf<WorkspacePath, String, Vec<WorkspaceEntry>, E> {
    type V = ReplyView<E>;

    open spec fn view(&self) -> ReplyView<E> {
        match self {
            ReplyOf::Done => ReplyOf::Done,
            ReplyOf::Failed { cause } => ReplyOf::Failed { cause: *cause },
            ReplyOf::Workspaces { entries } => ReplyOf::Workspaces {
                entries: crate::workspace::entries_view(entries@),
            },
            ReplyOf::Flag { value } => ReplyOf::Flag { value: *value },
            ReplyOf::Name { value } => ReplyOf::Name { value: crate::text::opt_text(*value) },
            ReplyOf::Text { value } => ReplyOf::Text { value: value@ },
            ReplyOf::Path { value } => ReplyOf::Path { value: value@ },
            ReplyOf::Output { success, stdout, stderr } => ReplyOf::Output {
                success: *success,
                stdout: stdout@,
                stderr: stderr@,
            },
            ReplyOf::Quoted { feature, target } => ReplyOf::Quoted {
                feature: feature@,
                target: target@,
            },
        }
    }
}

/// Whether a reply is of a kind that the effect can bring.
pub open spec fn answers<P, S, A, W, E>(
    effect: EffectOf<P, S, A>,
    reply: ReplyOf<P, S, W, E>,
) -> bool {
    match effect {
        EffectOf::EnterMainWorktree => reply is Done || reply is Failed,
        EffectOf::ListWorkspaces { .. } => reply is Workspaces || reply is Failed,
        EffectOf::IsMainWorktree { .. } => reply is Flag,
        EffectOf::MainWorktreeRoot { .. } => reply is Path || reply is Failed,
        EffectOf::DefaultBranch { .. } => reply is Text || reply is Failed,
        EffectOf::BranchBase { .. } => reply is Name,
        EffectOf::RecordBranchBase { .. } => reply is Done || reply is Failed,
        EffectOf::BranchExists { .. } => reply is Flag || reply is Failed,
        EffectOf::LocalBranchExists { .. } => reply is Flag || reply is Failed,
        EffectOf::CurrentBranch { .. } => reply is Name || reply is Failed,
        EffectOf::ReadMeta { .. } => reply is Name,
        EffectOf::Status { .. } => reply is Flag || reply is Failed,
        EffectOf::QuoteBookmarks { .. } => reply is Quoted,
        EffectOf::RunPreMergeHooks { .. } => reply is Done || reply is Failed,
        EffectOf::RunJj { .. } => reply is Output || reply is Failed,
        EffectOf::RebaseGit { .. } => reply is Done || reply is Failed,
        EffectOf::Print { .. } => reply is Done,
        EffectOf::Notify { .. } => reply is Done,
        EffectOf::Cleanup { .. } => reply is Flag || reply is Failed,
        EffectOf::ManagesMux { .. } => reply is Flag,
        EffectOf::NavigateAndClose { .. } => reply is Done || reply is Failed,
    }
}

/// Whether `reply` is of a kind that `effect` can bring.
pub fn is_answer<E>(effect: &Effect, reply: &Reply<E>) -> (res: bool)
    ensures
        res == answers(effect@, reply@),
{
    match (effect, reply) {
        (EffectOf::EnterMainWorktree, ReplyOf::Done | ReplyOf::Failed { .. }) => true,
        (EffectOf::ListWorkspaces { .. }, ReplyOf::Workspaces { .. } | ReplyOf::Failed { .. }) => true,
        (EffectOf::IsMainWorktree { .. }, ReplyOf::Flag { .. }) => true,
        (EffectOf::MainWorktreeRoot { .. }, ReplyOf::Path { .. } | ReplyOf::Failed { .. }) => true,
        (EffectOf::DefaultBranch { .. }, ReplyOf::Text { .. } | ReplyOf::Failed { .. }) => true,
        (EffectOf::BranchBase { .. }, ReplyOf::Name { .. }) => true,
        (EffectOf::RecordBranchBase { .. }, ReplyOf::Done | ReplyOf::Failed { .. }) => true,
        (EffectOf::BranchExists { .. }, ReplyOf::Flag { .. } | ReplyOf::Failed { .. }) => true,
        (EffectOf::LocalBranchExists { .. }, ReplyOf::Flag { .. } | ReplyOf::Failed { .. }) => true,
        (EffectOf::CurrentBranch { .. }, ReplyOf::Name { .. } | ReplyOf::Failed { .. }) => true,
        (EffectOf::ReadMeta { .. }, ReplyOf::Name { .. }) => true,
        (EffectOf::Status { .. }, ReplyOf::Flag { .. } | ReplyOf::Failed { .. }) => true,
        (EffectOf::QuoteBookmarks { .. }, ReplyOf::Quoted { .. }) => true,
        (EffectOf::RunPreMergeHooks { .. }, ReplyOf::Done | ReplyOf::Failed { .. }) => true,
        (EffectOf::RunJj { .. }, ReplyOf::Output { .. } | ReplyOf::Failed { .. }) => true,
        (EffectOf::RebaseGit { .. }, ReplyOf::Done | ReplyOf::Failed { .. }) => true,
        (EffectOf::Print { .. }, ReplyOf::Done) => true,
        (EffectOf::Notify { .. }, ReplyOf::Done) => true,
        (EffectOf::Cleanup { .. }, ReplyOf::Flag { .. } | ReplyOf::Failed { .. }) => true,
        (EffectOf::ManagesMux { .. }, ReplyOf::Flag { .. }) => true,
        (EffectOf::NavigateAndClose { .. }, ReplyOf::Done | ReplyOf::Failed { .. }) => true,
        _ => false,
    }
}

/// Where a workflow stands: it waits for a reply in the state `T`, or it has the outcome `O`.
pub enum Progress<T, O> {
    Awaiting(T),
    Finished(O),
}

/// Every effect but a question that always has an answer, and but a message, can fail; and a
/// failure can come of no other effect.
pub proof fn which_effects_can_fail<E>(effect: EffectView, cause: E)
    ensures
        answers(effect, ReplyView::<E>::Failed { cause }) <==> !(effect is IsMainWorktree) && !(
        effect is BranchBase) && !(effect is ReadMeta) && !(effect is QuoteBookmarks) && !(
        effect is Print) && !(effect is Notify) && !(effect is ManagesMux),
{
}

/// What is done is answered by that it was done, a question whether by yes or no, a question for
/// a name by a name or none, and every other question by what it asks for.
pub proof fn effects_are_answered_in_kind<E>(effect: EffectView, reply: ReplyView<E>)
    requires
        !(reply is Failed),
    ensures
        effect is EnterMainWorktree || effect is RecordBranchBase || effect is RunPreMergeHooks
            || effect is RebaseGit || effect is Print || effect is Notify
            || effect is NavigateAndClose ==> (answers(effect, reply) <==> reply is Done),
        effect is IsMainWorktree || effect is BranchExists || effect is LocalBranchExists
            || effect is Status || effect is Cleanup || effect is ManagesMux ==> (answers(
            effect,
            reply,
        ) <==> reply is Flag),
        effect is BranchBase || effect is CurrentBranch || effect is ReadMeta ==> (answers(
            effect,
            reply,
        ) <==> reply is Name),
        effect is ListWorkspaces ==> (answers(effect, reply) <==> reply is Workspaces),
        effect is MainWorktreeRoot ==> (answers(effect, reply) <==> reply is Path),
        effect is DefaultBranch ==> (answers(effect, reply) <==> reply is Text),
        effect is QuoteBookmarks ==> (answers(effect, reply) <==> reply is Quoted),
        effect is RunJj ==> (answers(effect, reply) <==> reply is Output),
{
}

} // verus!
