use std::path::{Component, Path};
use workmux::effect::{is_answer, Effect, EffectOf, Progress, Reply, ReplyOf};
use workmux::merge::{
    advance, begin, pending_effect, MergeContext, MergeContextOf, MergeRequest, MergeRequestOf,
    MergeResult,
};
use workmux::meta::{MuxMode, WorktreeAttachment};
use workmux::paths::{PathName, PathPart, WorkspacePath};
use workmux::workspace::WorkspaceEntry;

fn path(text: &str) -> WorkspacePath {
    let parts = Path::new(text)
        .components()
        .map(|part| match part {
            Component::RootDir => PathPart::Root,
            Component::CurDir => PathPart::Current,
            Component::ParentDir => PathPart::Parent,
            Component::Normal(name) => PathPart::Normal(PathName {
                bytes: name.as_encoded_bytes().to_vec(),
                text: name.to_string_lossy().into_owned(),
            }),
            Component::Prefix(_) => unreachable!(),
        })
        .collect();
    WorkspacePath { text: text.to_string(), parts }
}

fn request() -> MergeRequest {
    MergeRequestOf {
        name: "feature-wt".to_string(),
        into_branch: None,
        rebase: false,
        squash: false,
        keep: false,
        ignore_uncommitted: false,
        skip_verify: false,
        no_hooks: false,
        notification: false,
    }
}

fn context() -> MergeContext {
    MergeContextOf {
        execution_dir: path("/repo"),
        main_worktree_root: path("/repo"),
        main_branch: "main".to_string(),
    }
}

fn entry(text: &str, branch: Option<&str>) -> WorkspaceEntry {
    WorkspaceEntry { path: path(text), branch_or_bookmark: branch.map(str::to_string) }
}

fn workspaces() -> Reply<String> {
    ReplyOf::Workspaces {
        entries: vec![
            entry("/repo", Some("main")),
            entry("/w/feature-wt", Some("feature")),
            entry("/w/dev-wt", Some("dev")),
        ],
    }
}

fn yes() -> Reply<String> {
    ReplyOf::Flag { value: true }
}

fn no() -> Reply<String> {
    ReplyOf::Flag { value: false }
}

fn name(value: Option<&str>) -> Reply<String> {
    ReplyOf::Name { value: value.map(str::to_string) }
}

fn failed() -> Reply<String> {
    ReplyOf::Failed { cause: "broken".to_string() }
}

fn output(success: bool, stdout: &str, stderr: &str) -> Reply<String> {
    ReplyOf::Output { success, stdout: stdout.to_string(), stderr: stderr.to_string() }
}

fn quoted() -> Reply<String> {
    ReplyOf::Quoted { feature: "\"f\"".to_string(), target: "\"t\"".to_string() }
}

fn describe(effect: &Effect) -> String {
    match effect {
        EffectOf::EnterMainWorktree => "enter main".to_string(),
        EffectOf::ListWorkspaces { dir } => format!("list {}", dir.text),
        EffectOf::IsMainWorktree { path } => format!("is main {}", path.text),
        EffectOf::BranchBase { branch, dir } => format!("base {} {}", branch, dir.text),
        EffectOf::BranchExists { branch, dir } => format!("exists {} {}", branch, dir.text),
        EffectOf::ReadMeta { handle, key, dir } => format!("meta {handle} {key} {}", dir.text),
        EffectOf::Status { path } => format!("status {}", path.text),
        EffectOf::QuoteBookmarks { feature, target } => format!("quote {feature} {target}"),
        EffectOf::RunPreMergeHooks { handle, branch, target, path, skip_verify, no_hooks } => {
            format!("hooks {handle} {branch} {target} {} {skip_verify} {no_hooks}", path.text)
        }
        EffectOf::RunJj { dir, args } => format!("{}$ jj {}", dir.text, args.join("|")),
        EffectOf::Print { text } => format!("print {text}"),
        EffectOf::Notify { text } => format!("notify {text}"),
        EffectOf::Cleanup { branch, handle, path, options } => format!(
            "cleanup {branch} {handle} {} {} {} {} {}",
            path.text,
            options.force,
            options.keep_branch,
            options.no_hooks,
            options.show_hook_output
        ),
        EffectOf::ManagesMux { attachment } => format!("manages {attachment:?}"),
        EffectOf::NavigateAndClose { window, handle, mode } => {
            format!("navigate {window} {handle} {mode:?}")
        }
        _ => unreachable!(),
    }
}

type Script = Vec<(&'static str, Reply<String>)>;

/// Plays a merge: each effect must be the expected one. Returns what came of it, an error as
/// its message.
fn play(
    request: &MergeRequest,
    context: &MergeContext,
    script: Script,
) -> Result<MergeResult<String>, String> {
    let mut state = begin();
    let mut script = script.into_iter();
    loop {
        let effect = pending_effect(request, context, &state);
        let (expected, reply) = match script.next() {
            Some(step) => step,
            None => panic!("unexpected: {}", describe(&effect)),
        };
        assert_eq!(describe(&effect), expected);
        assert!(is_answer(&effect, &reply));
        match advance(request, context, state, reply) {
            Progress::Awaiting(next) => state = next,
            Progress::Finished(outcome) => {
                assert_eq!(script.len(), 0);
                return outcome.map_err(|error| {
                    error.message().unwrap_or_else(|| "external".to_string())
                });
            }
        }
    }
}

/// The steps up to the target workspace, for a target that the user did not name and that no
/// base is recorded for.
fn opening() -> Script {
    vec![
        ("enter main", ReplyOf::Done),
        ("list /repo", workspaces()),
        ("is main /w/feature-wt", no()),
        ("base feature /repo", name(None)),
        ("list /repo", workspaces()),
    ]
}

/// The steps up to the strategy, with the main branch as the target.
fn vetting() -> Script {
    let mut script = opening();
    script.extend([
        ("meta feature-wt attachment /repo", name(Some("multiplexer"))),
        ("status /w/feature-wt", no()),
        ("exists feature /repo", yes()),
        ("exists main /repo", yes()),
        ("status /repo", no()),
        ("quote feature main", quoted()),
        ("hooks feature-wt feature main /w/feature-wt false false", ReplyOf::Done),
    ]);
    script
}

const NEW: &str = "/repo$ jj --no-pager|--color=never|new|bookmarks(exact:\"t\")|bookmarks(exact:\"f\")|-m|Merge branch 'feature' into main";
const CHECK: &str = "/repo$ jj --no-pager|--color=never|--ignore-working-copy|log|--no-graph|-r|@|-T|if(conflict,\"1\",\"0\")";
const SET: &str = "/repo$ jj --no-pager|--color=never|bookmark|set|main|-r|@";
const UNDO: &str = "/repo$ jj --no-pager|--color=never|undo";
const SQUASH: &str = "/repo$ jj --no-pager|--color=never|squash|--ignore-immutable|--from|(::bookmarks(exact:\"f\") ~ ::bookmarks(exact:\"t\"))|--into|bookmarks(exact:\"t\")|--use-destination-message";
const SQUASH_CHECK: &str = "/repo$ jj --no-pager|--color=never|--ignore-working-copy|log|--no-graph|-r|bookmarks(exact:\"t\")|-T|if(conflict,\"1\",\"0\")";
const TAKE_UP: &str = "/repo$ jj --no-pager|--color=never|new|bookmarks(exact:\"t\")";
const REBASE: &str = "/w/feature-wt$ jj --no-pager|--color=never|rebase|--ignore-immutable|-d|bookmarks(exact:\"t\")";
const REBASE_CHECK: &str = "/w/feature-wt$ jj --no-pager|--color=never|--ignore-working-copy|log|--no-graph|-r|@|-T|if(conflict,\"1\",\"0\")";
const REBASE_UNDO: &str = "/w/feature-wt$ jj --no-pager|--color=never|undo";
const FORWARD: &str =
    "/repo$ jj --no-pager|--color=never|bookmark|set|main|-r|bookmarks(exact:\"f\")";

fn cleaning(mode: Option<&str>) -> Script {
    vec![
        ("cleanup feature feature-wt /w/feature-wt true false false true", yes()),
        ("meta feature-wt mode /repo", name(mode)),
        ("manages Multiplexer", yes()),
    ]
}

#[test]
fn merge_commit_is_made_in_the_target_workspace() {
    let mut script = vetting();
    script.extend([
        (NEW, output(true, "", "")),
        (CHECK, output(true, "0\n", "")),
        (SET, output(true, "", "")),
    ]);
    script.extend(cleaning(None));
    script.push(("navigate main feature-wt Window", ReplyOf::Done));
    let result = play(&request(), &context(), script).ok().unwrap();
    assert_eq!(result.branch_merged, "feature");
    assert_eq!(result.main_branch, "main");
    assert!(!result.had_staged_changes);
    assert!(result.cleanup_scheduled);
    assert_eq!(result.cleanup_error, None);
}

#[test]
fn squash_goes_into_the_target_head() {
    let request = MergeRequestOf { squash: true, ..request() };
    let mut script = vetting();
    script.extend([
        (SQUASH, output(true, "", "")),
        (SQUASH_CHECK, output(true, "0", "")),
        (TAKE_UP, output(true, "", "")),
    ]);
    script.extend(cleaning(Some("session")));
    script.push(("navigate main feature-wt Session", failed()));
    let result = play(&request, &context(), script).ok().unwrap();
    assert!(result.cleanup_scheduled);
    assert_eq!(result.cleanup_error, Some("broken".to_string()));
}

#[test]
fn rebase_wins_over_squash_and_fast_forwards() {
    let request = MergeRequestOf { rebase: true, squash: true, ..request() };
    let mut script = vetting();
    script.extend([
        ("print Rebasing 'feature' onto 'main'...", ReplyOf::Done),
        (REBASE, output(true, "", "")),
        (REBASE_CHECK, output(true, "0", "")),
        (FORWARD, output(true, "", "")),
        (TAKE_UP, output(true, "", "")),
        ("cleanup feature feature-wt /w/feature-wt true false false true", no()),
        ("meta feature-wt mode /repo", name(Some("window"))),
        ("manages Multiplexer", no()),
    ]);
    let result = play(&request, &context(), script).ok().unwrap();
    assert!(!result.cleanup_scheduled);
    assert_eq!(result.cleanup_error, None);
}

#[test]
fn conflicts_are_undone() {
    let conflict = |workspace: &str| {
        format!(
            "Merge produced conflicts that jj recorded in commits. The operation was undone.\n\nTo resolve, rebase the branch in the workspace at {workspace}:\njj rebase -d main --edit\n\nThen retry the merge of 'feature' or complete it with plain jj commands."
        )
    };
    let mut script = vetting();
    script.extend([
        (NEW, output(true, "", "")),
        (CHECK, output(true, " 1\n", "")),
        (UNDO, output(true, "", "")),
    ]);
    assert_eq!(play(&request(), &context(), script).err(), Some(conflict("/repo")));

    let squash = MergeRequestOf { squash: true, ..request() };
    let mut script = vetting();
    script.extend([
        (SQUASH, output(true, "", "")),
        (SQUASH_CHECK, output(true, "1", "")),
        (UNDO, output(false, "", "no")),
    ]);
    assert_eq!(play(&squash, &context(), script).err(), Some(conflict("/repo")));

    let rebase = MergeRequestOf { rebase: true, ..request() };
    let mut script = vetting();
    script.extend([
        ("print Rebasing 'feature' onto 'main'...", ReplyOf::Done),
        (REBASE, output(true, "", "")),
        (REBASE_CHECK, output(true, "1", "")),
        (REBASE_UNDO, failed()),
    ]);
    assert_eq!(play(&rebase, &context(), script).err(), Some(conflict("/w/feature-wt")));
}

#[test]
fn a_failing_command_ends_the_merge() {
    let mut script = vetting();
    script.push((NEW, output(false, "", " no such revision \n")));
    assert_eq!(
        play(&request(), &context(), script).err().unwrap(),
        "jj new bookmarks(exact:\"t\") bookmarks(exact:\"f\") -m Merge branch 'feature' into main failed: no such revision"
    );

    let mut script = vetting();
    script.extend([(NEW, output(true, "", "")), (CHECK, output(false, "1", "bad"))]);
    assert_eq!(
        play(&request(), &context(), script).err().unwrap(),
        "jj log -r @ failed: bad"
    );

    let mut script = vetting();
    script.extend([(NEW, output(true, "", "")), (CHECK, failed())]);
    assert_eq!(
        play(&request(), &context(), script).err().unwrap(),
        "Failed to execute jj log -r @"
    );

    let mut script = vetting();
    script.extend([
        (NEW, output(true, "", "")),
        (CHECK, output(true, "0", "")),
        (SET, failed()),
    ]);
    assert_eq!(
        play(&request(), &context(), script).err().unwrap(),
        "Failed to execute jj bookmark set main -r @"
    );
}

#[test]
fn a_kept_workspace_is_not_cleaned_up() {
    let request = MergeRequestOf { keep: true, notification: true, ..request() };
    let mut script = opening();
    script.extend([
        ("meta feature-wt attachment /repo", name(None)),
        ("exists feature /repo", yes()),
        ("exists main /repo", yes()),
        ("status /repo", no()),
        ("quote feature main", quoted()),
        ("hooks feature-wt feature main /w/feature-wt false false", ReplyOf::Done),
        (NEW, output(true, "", "")),
        (CHECK, output(true, "0", "")),
        (SET, output(true, "", "")),
        ("notify Merged 'feature' into 'main'", ReplyOf::Done),
    ]);
    let result = play(&request, &context(), script).ok().unwrap();
    assert_eq!(result.branch_merged, "feature");
    assert!(!result.cleanup_scheduled);
    assert_eq!(result.cleanup_error, None);
}

#[test]
fn the_named_target_is_looked_for_in_its_workspace() {
    let request = MergeRequestOf {
        into_branch: Some("dev".to_string()),
        ignore_uncommitted: true,
        skip_verify: true,
        no_hooks: true,
        ..request()
    };
    let script = vec![
        ("enter main", ReplyOf::Done),
        ("list /repo", workspaces()),
        ("is main /w/feature-wt", no()),
        ("list /repo", workspaces()),
        ("meta feature-wt attachment /repo", name(Some("other"))),
        ("status /w/feature-wt", yes()),
        ("exists feature /repo", yes()),
        ("exists dev /repo", yes()),
        ("status /w/dev-wt", no()),
        ("quote feature dev", quoted()),
        ("hooks feature-wt feature dev /w/feature-wt true true", ReplyOf::Done),
        (
            "/w/dev-wt$ jj --no-pager|--color=never|new|bookmarks(exact:\"t\")|bookmarks(exact:\"f\")|-m|Merge branch 'feature' into dev",
            output(true, "", ""),
        ),
        (
            "/w/dev-wt$ jj --no-pager|--color=never|--ignore-working-copy|log|--no-graph|-r|@|-T|if(conflict,\"1\",\"0\")",
            output(true, "0", ""),
        ),
        ("/w/dev-wt$ jj --no-pager|--color=never|bookmark|set|dev|-r|@", output(true, "", "")),
        ("cleanup feature feature-wt /w/feature-wt true false true true", no()),
        ("meta feature-wt mode /repo", name(Some("odd"))),
        ("manages Unknown", yes()),
        ("navigate dev-wt feature-wt Window", ReplyOf::Done),
    ];
    assert_eq!(play(&request, &context(), script).ok().unwrap().main_branch, "dev");
}

#[test]
fn the_target_is_the_recorded_base_if_it_exists() {
    for (lookup, target) in [(yes(), "dev"), (no(), "main"), (failed(), "main")] {
        let mut script = vec![
            ("enter main", ReplyOf::Done),
            ("list /repo", workspaces()),
            ("is main /w/feature-wt", no()),
            ("base feature /repo", name(Some("dev"))),
            ("exists dev /repo", lookup),
            ("list /repo", workspaces()),
            ("meta feature-wt attachment /repo", name(None)),
            ("status /w/feature-wt", no()),
            ("exists feature /repo", yes()),
        ];
        script.push(if target == "dev" {
            ("exists dev /repo", no())
        } else {
            ("exists main /repo", no())
        });
        assert_eq!(
            play(&request(), &context(), script).err(),
            Some(format!("Bookmark '{target}' does not exist"))
        );
    }
}

#[test]
fn a_target_that_no_workspace_holds_is_merged_in_the_main_one() {
    let request = MergeRequestOf { into_branch: Some("release".to_string()), ..request() };
    let script = vec![
        ("enter main", ReplyOf::Done),
        ("list /repo", workspaces()),
        ("is main /w/feature-wt", no()),
        ("list /repo", workspaces()),
        ("meta feature-wt attachment /repo", name(None)),
        ("status /w/feature-wt", no()),
        ("exists feature /repo", yes()),
        ("exists release /repo", yes()),
        ("status /repo", yes()),
    ];
    assert_eq!(
        play(&request, &context(), script).err().unwrap(),
        "Target workspace (/repo) has uncommitted changes. Please commit them before merging."
    );
}

#[test]
fn merges_are_refused_with_a_reason() {
    let not_found =
        "Worktree 'feature-wt' not found. Use 'workmux list' to see available worktrees.";
    for listing in [failed(), ReplyOf::Workspaces { entries: Vec::new() }] {
        let script = vec![("enter main", ReplyOf::Done), ("list /repo", listing)];
        assert_eq!(play(&request(), &context(), script).err().unwrap(), not_found);
    }

    let script = vec![
        ("enter main", ReplyOf::Done),
        ("list /repo", workspaces()),
        ("is main /w/feature-wt", yes()),
    ];
    assert_eq!(
        play(&request(), &context(), script).err().unwrap(),
        "Cannot merge branch 'feature' because it is checked out in the main workspace at '/repo'. Create a linked workspace for 'feature' first."
    );

    let root = MergeRequestOf { name: "top".to_string(), ..request() };
    let script = vec![
        ("enter main", ReplyOf::Done),
        ("list /repo", ReplyOf::Workspaces { entries: vec![entry("/", Some("top"))] }),
        ("is main /", no()),
    ];
    assert_eq!(
        play(&root, &context(), script).err().unwrap(),
        "Could not derive handle from workspace path: /"
    );

    let into = MergeRequestOf { into_branch: Some("top".to_string()), ..request() };
    let script = vec![
        ("enter main", ReplyOf::Done),
        ("list /repo", workspaces()),
        ("is main /w/feature-wt", no()),
        ("list /repo", ReplyOf::Workspaces { entries: vec![entry("/", Some("top"))] }),
    ];
    assert_eq!(
        play(&into, &context(), script).err().unwrap(),
        "Invalid workspace path for target branch"
    );

    let mut script = opening();
    script.extend([
        ("meta feature-wt attachment /repo", name(None)),
        ("status /w/feature-wt", yes()),
    ]);
    assert_eq!(
        play(&request(), &context(), script).err().unwrap(),
        "Workspace for 'feature' has uncommitted changes. Please describe or commit them, or use --ignore-uncommitted."
    );

    let itself = MergeRequestOf { into_branch: Some("feature".to_string()), ..request() };
    let script = vec![
        ("enter main", ReplyOf::Done),
        ("list /repo", workspaces()),
        ("is main /w/feature-wt", no()),
        ("list /repo", workspaces()),
        ("meta feature-wt attachment /repo", name(None)),
        ("status /w/feature-wt", no()),
    ];
    assert_eq!(
        play(&itself, &context(), script).err().unwrap(),
        "Cannot merge branch 'feature' into itself."
    );

    let mut script = opening();
    script.extend([
        ("meta feature-wt attachment /repo", name(None)),
        ("status /w/feature-wt", no()),
        ("exists feature /repo", no()),
    ]);
    assert_eq!(
        play(&request(), &context(), script).err().unwrap(),
        "Bookmark 'feature' does not exist"
    );
}

#[test]
fn failures_outside_end_the_merge() {
    let fallible = ["enter", "list", "status", "exists", "hooks"];
    let mut count = 0;
    for last in 1..=vetting().len() {
        let mut script = vetting();
        script.truncate(last);
        let (effect, _) = script.pop().unwrap();
        // A workspace listing that fails at first counts as a workspace that is not found.
        if last != 2 && fallible.iter().any(|kind| effect.starts_with(kind)) {
            script.push((effect, failed()));
            assert_eq!(play(&request(), &context(), script).err().unwrap(), "external");
            count += 1;
        }
    }
    assert_eq!(count, 7);
}

#[test]
fn a_failed_cleanup_is_reported_in_the_result() {
    let mut script = vetting();
    script.extend([
        (NEW, output(true, "", "")),
        (CHECK, output(true, "0", "")),
        (SET, output(true, "", "")),
        ("cleanup feature feature-wt /w/feature-wt true false false true", failed()),
    ]);
    let result = play(&request(), &context(), script).ok().unwrap();
    assert!(!result.cleanup_scheduled);
    assert_eq!(result.cleanup_error, Some("broken".to_string()));
}

#[test]
fn replies_of_the_wrong_kind_are_told_apart() {
    let effect: Effect = EffectOf::ManagesMux { attachment: WorktreeAttachment::Headless };
    assert!(is_answer(&effect, &yes()));
    assert!(!is_answer(&effect, &failed()));
    let effect: Effect = EffectOf::NavigateAndClose {
        window: "w".to_string(),
        handle: "h".to_string(),
        mode: MuxMode::Session,
    };
    assert!(is_answer(&effect, &failed()));
    assert!(!is_answer(&effect, &yes()));
}
