use std::path::{Component, Path};
use workmux::effect::{is_answer, Effect, EffectOf, Progress, Reply, ReplyOf};
use workmux::paths::{PathName, PathPart, WorkspacePath};
use workmux::rebase::{self, RebaseRequest, RebaseRequestOf};
use workmux::set_base::{self, SetBaseRequest, SetBaseRequestOf};
use workmux::workspace::WorkspaceEntry;

fn path(text: &str) -> WorkspacePath {
    let parts = Path::new(text)
        .components()
        .map(|part| match part {
            Component::RootDir => PathPart::Root,
            Component::CurDir => PathPart::Current,
            Component::ParentDir => PathPart::Parent,
            Component::Normal(name) => PathPart::Normal(PathName {
                bytes: name.as_encoded_bytes().to_vec(),
                text: name.to_string_lossy().into_owned(),
            }),
            Component::Prefix(_) => unreachable!(),
        })
        .collect();
    WorkspacePath { text: text.to_string(), parts }
}

fn workspaces() -> Reply<String> {
    ReplyOf::Workspaces {
        entries: vec![WorkspaceEntry {
            path: path("/w/f"),
            branch_or_bookmark: Some("feature".to_string()),
        }],
    }
}

fn yes() -> Reply<String> {
    ReplyOf::Flag { value: true }
}

fn no() -> Reply<String> {
    ReplyOf::Flag { value: false }
}

fn name(value: Option<&str>) -> Reply<String> {
    ReplyOf::Name { value: value.map(str::to_string) }
}

fn failed() -> Reply<String> {
    ReplyOf::Failed { cause: "broken".to_string() }
}

fn output(success: bool, stdout: &str, stderr: &str) -> Reply<String> {
    ReplyOf::Output { success, stdout: stdout.to_string(), stderr: stderr.to_string() }
}

fn describe(effect: &Effect) -> String {
    match effect {
        EffectOf::ListWorkspaces { dir } => format!("list {}", dir.text),
        EffectOf::MainWorktreeRoot { dir } => format!("root {}", dir.text),
        EffectOf::DefaultBranch { dir } => format!("default {}", dir.text),
        EffectOf::BranchBase { branch, dir } => format!("base {} {}", branch, dir.text),
        EffectOf::RecordBranchBase { branch, base, dir } => {
            format!("record {branch} {base} {}", dir.text)
        }
        EffectOf::BranchExists { branch, dir } => format!("exists {} {}", branch, dir.text),
        EffectOf::LocalBranchExists { branch, dir } => format!("local {} {}", branch, dir.text),
        EffectOf::CurrentBranch { dir } => format!("current {}", dir.text),
        EffectOf::RunJj { dir, args } => format!("{}$ jj {}", dir.text, args.join("|")),
        EffectOf::RebaseGit { dir, base } => format!("git {} {}", dir.text, base),
        EffectOf::Print { text } => format!("print {text}"),
        _ => unreachable!(),
    }
}

type Script = Vec<(&'static str, Reply<String>)>;

fn request(backend: &str, main_branch: Option<&str>) -> RebaseRequest {
    RebaseRequestOf {
        name: "f".to_string(),
        cwd: path("/here"),
        main_branch: main_branch.map(str::to_string),
        backend: backend.to_string(),
    }
}

fn play(request: &RebaseRequest, script: Script) -> Result<(), String> {
    let mut state = rebase::begin();
    let mut script = script.into_iter();
    loop {
        let effect = rebase::pending_effect(request, &state);
        let (expected, reply) = script.next().unwrap();
        assert_eq!(describe(&effect), expected);
        assert!(is_answer(&effect, &reply));
        match rebase::advance(request, state, reply) {
            Progress::Awaiting(next) => state = next,
            Progress::Finished(outcome) => {
                assert_eq!(script.len(), 0);
                return outcome.map_err(|error| {
                    error.message().unwrap_or_else(|| "external".to_string())
                });
            }
        }
    }
}

fn play_set_base(base: &str, script: Script) -> Result<(), String> {
    let request: SetBaseRequest = SetBaseRequestOf { base: base.to_string(), cwd: path("/here") };
    let mut state = set_base::begin();
    let mut script = script.into_iter();
    loop {
        let effect = set_base::pending_effect(&request, &state);
        let (expected, reply) = script.next().unwrap();
        assert_eq!(describe(&effect), expected);
        assert!(is_answer(&effect, &reply));
        match set_base::advance(&request, state, reply) {
            Progress::Awaiting(next) => state = next,
            Progress::Finished(outcome) => {
                assert_eq!(script.len(), 0);
                return outcome.map_err(|error| {
                    error.message().unwrap_or_else(|| "external".to_string())
                });
            }
        }
    }
}

const JJ: &str =
    "/w/f$ jj --no-pager|--color=never|--ignore-immutable|rebase|-d|bookmarks(exact:main)";
const CHECK: &str = "/w/f$ jj --no-pager|--color=never|--ignore-working-copy|log|--no-graph|-r|@|-T|if(conflict,\"1\",\"0\")";

fn onto_main() -> Script {
    vec![
        ("list /here", workspaces()),
        ("base feature /w/f", name(None)),
        ("local main /w/f", yes()),
        ("print Rebasing 'feature' onto 'main'...", ReplyOf::Done),
    ]
}

#[test]
fn jj_rebase_is_checked_for_conflicts() {
    let request = request("jj", Some("main"));
    let mut script = onto_main();
    script.extend([
        (JJ, output(true, "", "")),
        (CHECK, output(true, "0\n", "")),
        ("print ✓ Rebased 'feature' onto 'main'", ReplyOf::Done),
    ]);
    assert_eq!(play(&request, script), Ok(()));

    let mut script = onto_main();
    script.extend([(JJ, output(true, "", "")), (CHECK, output(true, "1\n", ""))]);
    assert_eq!(
        play(&request, script).unwrap_err(),
        "Rebase produced conflicts, recorded in the rebased commits.\n\nResolve them in the workspace at '/w/f' with 'jj resolve' or 'jj diffedit', then continue."
    );
}

#[test]
fn failures_of_jj_are_reported() {
    let request = request("jj", Some("main"));
    let mut script = onto_main();
    script.push((JJ, output(false, "", "no\n")));
    assert_eq!(play(&request, script).unwrap_err(), "jj rebase failed: no");
    let mut script = onto_main();
    script.push((JJ, failed()));
    assert_eq!(play(&request, script).unwrap_err(), "Failed to execute jj rebase");
    let mut script = onto_main();
    script.extend([(JJ, output(true, "", "")), (CHECK, output(false, "1", " no"))]);
    assert_eq!(play(&request, script).unwrap_err(), "jj log failed: no");
    let mut script = onto_main();
    script.extend([(JJ, output(true, "", "")), (CHECK, failed())]);
    assert_eq!(play(&request, script).unwrap_err(), "Failed to inspect jj rebase result");
}

#[test]
fn git_rebases_by_its_own_means() {
    let request = request("git", Some("main"));
    let mut script = onto_main();
    script.extend([
        ("git /w/f main", ReplyOf::Done),
        ("print ✓ Rebased 'feature' onto 'main'", ReplyOf::Done),
    ]);
    assert_eq!(play(&request, script), Ok(()));

    let mut script = onto_main();
    script.push(("git /w/f main", failed()));
    assert_eq!(
        play(&request, script).unwrap_err(),
        "Rebase failed, likely due to conflicts.\n\nPlease resolve them manually inside the worktree at '/w/f'.\nThen, run 'git rebase --continue' to proceed or 'git rebase --abort' to cancel."
    );
}

#[test]
fn the_main_branch_is_found_where_none_is_configured() {
    let request = request("git", None);
    let script = vec![
        ("list /here", workspaces()),
        ("root /w/f", ReplyOf::Path { value: path("/repo") }),
        ("default /repo", ReplyOf::Text { value: "trunk".to_string() }),
        ("base feature /w/f", name(None)),
        ("local trunk /w/f", no()),
    ];
    assert_eq!(play(&request, script).unwrap_err(), "Base branch 'trunk' does not exist");
    let script = vec![("list /here", workspaces()), ("root /w/f", failed())];
    assert_eq!(play(&request, script).unwrap_err(), "Could not find the main worktree");
    let script = vec![
        ("list /here", workspaces()),
        ("root /w/f", ReplyOf::Path { value: path("/repo") }),
        ("default /repo", failed()),
    ];
    assert_eq!(play(&request, script).unwrap_err(), "Failed to determine the main branch");
}

#[test]
fn the_base_is_the_recorded_one_if_it_exists() {
    let request = request("git", Some("main"));
    let start = || vec![("list /here", workspaces()), ("base feature /w/f", name(Some("dev")))];
    let mut script = start();
    script.extend([("local dev /w/f", yes()), ("local dev /w/f", failed())]);
    assert_eq!(play(&request, script).unwrap_err(), "external");
    let mut script = start();
    script.extend([("local dev /w/f", no()), ("local main /w/f", no())]);
    assert_eq!(play(&request, script).unwrap_err(), "Base branch 'main' does not exist");
    let mut script = start();
    script.push(("local dev /w/f", failed()));
    assert_eq!(play(&request, script).unwrap_err(), "external");
}

#[test]
fn rebases_are_refused_with_a_reason() {
    let not_found = "Worktree 'f' not found. Use 'workmux list' to see available worktrees.";
    let onto_itself = request("jj", Some("feature"));
    for listing in [failed(), ReplyOf::Workspaces { entries: Vec::new() }] {
        assert_eq!(play(&onto_itself, vec![("list /here", listing)]).unwrap_err(), not_found);
    }
    let script = vec![("list /here", workspaces()), ("base feature /w/f", name(None))];
    assert_eq!(
        play(&onto_itself, script).unwrap_err(),
        "Cannot rebase branch 'feature' onto itself."
    );
}

#[test]
fn a_base_is_recorded_for_the_current_branch() {
    let script = vec![
        ("exists dev /here", yes()),
        ("current /here", name(Some("feature"))),
        ("record feature dev /here", ReplyOf::Done),
        ("print Set base branch for 'feature' to 'dev'", ReplyOf::Done),
    ];
    assert_eq!(play_set_base("dev", script), Ok(()));
}

#[test]
fn a_base_is_refused_with_a_reason() {
    assert_eq!(
        play_set_base("dev", vec![("exists dev /here", no())]).unwrap_err(),
        "Base reference 'dev' does not exist"
    );
    assert_eq!(play_set_base("dev", vec![("exists dev /here", failed())]).unwrap_err(), "external");
    let script = vec![("exists dev /here", yes()), ("current /here", name(None))];
    assert_eq!(play_set_base("dev", script).unwrap_err(), "Not on a branch or bookmark");
    let script = vec![("exists dev /here", yes()), ("current /here", failed())];
    assert_eq!(play_set_base("dev", script).unwrap_err(), "external");
    let script = vec![("exists dev /here", yes()), ("current /here", name(Some("dev")))];
    assert_eq!(
        play_set_base("dev", script).unwrap_err(),
        "Cannot set base branch to the current branch"
    );
    let script = vec![
        ("exists dev /here", yes()),
        ("current /here", name(Some("feature"))),
        ("record feature dev /here", failed()),
    ];
    assert_eq!(
        play_set_base("dev", script).unwrap_err(),
        "Failed to set base branch for 'feature'"
    );
}
