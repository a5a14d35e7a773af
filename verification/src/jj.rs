//! The `jj` commands that the workflows run, and how their results are read.

use crate::effect::{Reply, ReplyOf};
#[allow(unused_imports)]
use crate::effect::ReplyView;
use crate::error::{WorkflowError, WorkflowErrorOf};
#[allow(unused_imports)]
use crate::error::WorkflowErrorView;
use crate::paths::WorkspacePath;
use crate::text::{join, same_text, trim, with_text};
#[allow(unused_imports)]
use crate::text::{joined, texts, trimmed};
use vstd::pervasive::unreached;
use vstd::prelude::*;
use vstd::string::StringExecFns;

verus! {

/// The revset of exactly the bookmark that `name` stands for: the name as a string literal of the
/// revset language in a merge, the bare name in a rebase.
pub open spec fn bookmark_revset_text(name: Seq<char>) -> Seq<char> {
    "bookmarks(exact:"@ + name + ")"@
}

/// The revset of exactly the bookmark that `name` stands for.
pub fn bookmark_revset(name: &str) -> (res: String)
    ensures
        res@ == bookmark_revset_text(name@),
{
    "bookmarks(exact:".to_owned().concat(name).concat(")")
}

/// The options that every command gets, then `args`.
pub open spec fn jj_line(args: Seq<Seq<char>>) -> Seq<Seq<char>> {
    seq!["--no-pager"@, "--color=never"@] + args
}

/// The arguments of a command: the options that every command gets, then `args`.
pub fn jj_arguments(args: &Vec<String>) -> (res: Vec<String>)
    ensures
        texts(res@) == jj_line(texts(args@)),
{
    let mut res: Vec<String> = Vec::new();
    res.push("--no-pager".to_owned());
    res.push("--color=never".to_owned());
    for i in 0..args.len()
        invariant
            res@.len() == i + 2,
            res@[0]@ == "--no-pager"@,
            res@[1]@ == "--color=never"@,
            forall|j: int| 0 <= j < i ==> (#[trigger] res@[j + 2])@ == args@[j]@,
    {
        res.push(args[i].clone());
    }
    assert forall|j: int| 0 <= j < res@.len() implies texts(res@)[j] == jj_line(texts(args@))[j] by {
        if j >= 2 {
            assert(res@[(j - 2) + 2]@ == args@[j - 2]@);
        }
    }
    assert(texts(res@) =~= jj_line(texts(args@)));
    res
}

/// A command as it is named in messages.
pub open spec fn jj_label(args: Seq<Seq<char>>) -> Seq<char> {
    "jj "@ + joined(args, " "@)
}

/// What a command that has to succeed leads to: nothing, or the error to report.
pub open spec fn command_error<E>(
    label: Seq<char>,
    not_started: Seq<char>,
    reply: ReplyView<E>,
) -> Option<WorkflowErrorView<E>> {
    match reply {
        ReplyOf::Output { success: true, .. } => None,
        ReplyOf::Output { success: false, stderr, .. } => Some(
            WorkflowErrorOf::CommandFailed { command: label, stderr },
        ),
        ReplyOf::Failed { cause } => Some(
            WorkflowErrorOf::Context { context: not_started, cause },
        ),
        _ => arbitrary(),
    }
}

/// The value of an error that may be there.
pub open spec fn opt_error_view<E>(error: Option<WorkflowError<E>>) -> Option<
    WorkflowErrorView<E>,
> {
    match error {
        Some(error) => Some(error@),
        None => None,
    }
}

/// Reads the result of a command that has to succeed. `label` names the command where it ended
/// without success, `not_started` says what failed where it could not be started.
pub fn require_success<E>(label: String, not_started: String, reply: Reply<E>) -> (res: Option<
    WorkflowError<E>,
>)
    requires
        reply@ is Output || reply@ is Failed,
    ensures
        opt_error_view(res) == command_error(label@, not_started@, reply@),
{
    match reply {
        ReplyOf::Output { success, stdout: _, stderr } => {
            if success {
                None
            } else {
                Some(WorkflowErrorOf::CommandFailed { command: label, stderr })
            }
        },
        ReplyOf::Failed { cause } => Some(
            WorkflowErrorOf::Context { context: not_started, cause },
        ),
        _ => unreached(),
    }
}

/// What running `jj` with `args`, requiring success, leads to.
pub open spec fn run_jj_error<E>(args: Seq<Seq<char>>, reply: ReplyView<E>) -> Option<
    WorkflowErrorView<E>,
> {
    command_error(jj_label(args), "Failed to execute "@ + jj_label(args), reply)
}

/// Reads the result of running `jj` with `args`, requiring success.
pub fn run_jj<E>(args: &Vec<String>, reply: Reply<E>) -> (res: Option<WorkflowError<E>>)
    requires
        reply@ is Output || reply@ is Failed,
    ensures
        opt_error_view(res) == run_jj_error(texts(args@), reply@),
{
    let label = "jj ".to_owned().concat(join(args, " ").as_str());
    let not_started = "Failed to execute ".to_owned().concat(label.as_str());
    require_success(label, not_started, reply)
}

/// The command that finds out whether the revision of a revset is conflicted. It leaves the
/// working copy alone, so that it adds nothing to what an undo takes back.
pub open spec fn conflict_check_line(revset: Seq<char>) -> Seq<Seq<char>> {
    seq![
        "--no-pager"@,
        "--color=never"@,
        "--ignore-working-copy"@,
        "log"@,
        "--no-graph"@,
        "-r"@,
        revset,
        "-T"@,
        "if(conflict,\"1\",\"0\")"@,
    ]
}

/// The arguments of the command that finds out whether the revision of `revset` is conflicted.
pub fn conflict_check(revset: &str) -> (res: Vec<String>)
    ensures
        texts(res@) == conflict_check_line(revset@),
{
    let res = with_text(Vec::new(), "--no-pager");
    let res = with_text(res, "--color=never");
    let res = with_text(res, "--ignore-working-copy");
    let res = with_text(res, "log");
    let res = with_text(res, "--no-graph");
    let res = with_text(res, "-r");
    let res = with_text(res, revset);
    let res = with_text(res, "-T");
    let res = with_text(res, "if(conflict,\"1\",\"0\")");
    assert(texts(res@) =~= conflict_check_line(revset@));
    res
}

/// A conflict check never takes up changes of the working copy: it adds no operation to what
/// an undo takes back.
pub proof fn conflict_check_leaves_the_working_copy(revset: Seq<char>)
    ensures
        conflict_check_line(revset).contains("--ignore-working-copy"@),
{
    assert(conflict_check_line(revset)[2] == "--ignore-working-copy"@);
}

/// Whether the output of a conflict check reports a conflict.
pub open spec fn reports_conflict<E>(reply: ReplyView<E>) -> bool {
    match reply {
        ReplyOf::Output { stdout, .. } => trimmed(stdout) == "1"@,
        _ => arbitrary(),
    }
}

/// Whether the output of a conflict check reports a conflict.
pub fn conflict_reported<E>(reply: &Reply<E>) -> (res: bool)
    requires
        reply@ is Output,
    ensures
        res == reports_conflict(reply@),
{
    match reply {
        ReplyOf::Output { success: _, stdout, stderr: _ } => same_text(
            trim(stdout.as_str()).as_str(),
            "1",
        ),
        _ => unreached(),
    }
}

/// What a conflict check on `revset` leads to if it could not be carried out.
pub open spec fn revset_check_error<E>(revset: Seq<char>, reply: ReplyView<E>) -> Option<
    WorkflowErrorView<E>,
> {
    command_error(
        "jj log -r "@ + revset,
        "Failed to execute jj log -r "@ + revset,
        reply,
    )
}

/// Reads the result of a conflict check on `revset`.
pub fn revset_conflicted<E>(revset: &str, reply: Reply<E>) -> (res: Result<bool, WorkflowError<E>>)
    requires
        reply@ is Output || reply@ is Failed,
    ensures
        match res {
            Ok(conflicted) => revset_check_error(revset@, reply@) is None && conflicted
                == reports_conflict(reply@),
            Err(error) => revset_check_error(revset@, reply@) == Some(error@),
        },
{
    let conflicted = match &reply {
        ReplyOf::Output { .. } => conflict_reported(&reply),
        _ => false,
    };
    let label = "jj log -r ".to_owned().concat(revset);
    let not_started = "Failed to execute jj log -r ".to_owned().concat(revset);
    match require_success(label, not_started, reply) {
        Some(error) => Err(error),
        None => Ok(conflicted),
    }
}

/// The error that reports a merge that was undone because of conflicts.
pub fn conflict_error<E>(branch: &str, target: &str, workspace: &WorkspacePath) -> (res:
    WorkflowError<E>)
    ensures
        res@ == (WorkflowErrorOf::<Seq<char>, E>::MergeConflict {
            branch: branch@,
            target: target@,
            workspace: workspace@.text,
        }),
{
    WorkflowErrorOf::MergeConflict {
        branch: branch.to_owned(),
        target: target.to_owned(),
        workspace: workspace.text.clone(),
    }
}

/// A bookmark is named exactly in the revset that stands for it.
pub proof fn revset_names_the_bookmark(name: Seq<char>)
    ensures
        bookmark_revset_text(name) == "bookmarks(exact:"@ + name + ")"@,
{
}

/// Every command begins with the options that keep a pager and colours away, followed by its own
/// arguments, and is named in messages by those.
pub proof fn commands_begin_with_the_options(args: Seq<Seq<char>>, i: int)
    requires
        0 <= i < args.len(),
    ensures
        jj_line(args).len() == args.len() + 2,
        jj_line(args)[0] == "--no-pager"@,
        jj_line(args)[1] == "--color=never"@,
        jj_line(args)[i + 2] == args[i],
        jj_label(args) == "jj "@ + joined(args, " "@),
{
}

/// A command that has to succeed leads to no error exactly if it does. Where it ends without
/// success, the error holds how it is named and what it said; where it could not be started, why.
pub proof fn only_a_success_is_no_error<E>(
    label: Seq<char>,
    not_started: Seq<char>,
    success: bool,
    stdout: Seq<char>,
    stderr: Seq<char>,
    cause: E,
)
    ensures
        command_error(
            label,
            not_started,
            ReplyView::<E>::Output { success, stdout, stderr },
        ) is None <==> success,
        !success ==> command_error(
            label,
            not_started,
            ReplyView::<E>::Output { success, stdout, stderr },
        ) == Some(WorkflowErrorView::<E>::CommandFailed { command: label, stderr }),
        command_error(label, not_started, ReplyView::<E>::Failed { cause }) == Some(
            WorkflowErrorView::<E>::Context { context: not_started, cause },
        ),
{
}

/// How a command and a conflict check that fail are named.
pub proof fn failing_commands_are_named<E>(
    args: Seq<Seq<char>>,
    revset: Seq<char>,
    stdout: Seq<char>,
    stderr: Seq<char>,
    cause: E,
)
    ensures
        run_jj_error(args, ReplyView::<E>::Output { success: false, stdout, stderr }) == Some(
            WorkflowErrorView::<E>::CommandFailed {
                command: "jj "@ + joined(args, " "@),
                stderr,
            },
        ),
        run_jj_error(args, ReplyView::<E>::Failed { cause }) == Some(
            WorkflowErrorView::<E>::Context {
                context: "Failed to execute "@ + ("jj "@ + joined(args, " "@)),
                cause,
            },
        ),
        run_jj_error(args, ReplyView::<E>::Output { success: true, stdout, stderr }) is None,
        revset_check_error(
            revset,
            ReplyView::<E>::Output { success: false, stdout, stderr },
        ) == Some(
            WorkflowErrorView::<E>::CommandFailed { command: "jj log -r "@ + revset, stderr },
        ),
        revset_check_error(revset, ReplyView::<E>::Failed { cause }) == Some(
            WorkflowErrorView::<E>::Context {
                context: "Failed to execute jj log -r "@ + revset,
                cause,
            },
        ),
        revset_check_error(
            revset,
            ReplyView::<E>::Output { success: true, stdout, stderr },
        ) is None,
{
}

/// A conflict check reports a conflict exactly if it printed a one, but for white space.
pub proof fn conflict_is_reported_by_a_one<E>(
    success: bool,
    stdout: Seq<char>,
    stderr: Seq<char>,
)
    ensures
        reports_conflict(ReplyView::<E>::Output { success, stdout, stderr }) <==> trimmed(stdout)
            == "1"@,
{
}

} // verus!
