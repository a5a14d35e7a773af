use std::path::{Component, Path};
use workmux::paths::{PathName, PathPart, WorkspacePath};
use workmux::workspace::{find_workspace_in, WorkspaceEntry};

fn path(text: &str) -> WorkspacePath {
    let parts = Path::new(text)
        .components()
        .map(|part| match part {
            Component::RootDir => PathPart::Root,
            Component::CurDir => PathPart::Current,
            Component::ParentDir => PathPart::Parent,
            Component::Normal(name) => PathPart::Normal(PathName {
                bytes: name.as_encoded_bytes().to_vec(),
                text: name.to_string_lossy().into_owned(),
            }),
            Component::Prefix(_) => unreachable!(),
        })
        .collect();
    WorkspacePath { text: text.to_string(), parts }
}

fn entry(text: &str, branch: Option<&str>) -> WorkspaceEntry {
    WorkspaceEntry { path: path(text), branch_or_bookmark: branch.map(str::to_string) }
}

fn find(entries: &Vec<WorkspaceEntry>, name: &str) -> Option<(String, String)> {
    find_workspace_in(entries, name).ok().map(|(path, branch)| (path.text, branch))
}

/// The lookup by way of the standard library.
fn find_directly(entries: &[WorkspaceEntry], name: &str) -> Option<(String, String)> {
    let has_handle = |entry: &&WorkspaceEntry| {
        Path::new(&entry.path.text).file_name().is_some_and(|file| file.to_string_lossy() == name)
    };
    let has_branch =
        |entry: &&WorkspaceEntry| entry.branch_or_bookmark.as_deref() == Some(name);
    let entry = entries.iter().find(has_handle).or_else(|| entries.iter().find(has_branch))?;
    let branch = entry.branch_or_bookmark.clone();
    Some((entry.path.text.clone(), branch.unwrap_or_else(|| "(detached)".to_string())))
}

#[test]
fn find_workspace_matches_git_find_worktree_for_git_repo() {
    let worktree_path = "/tmp/repo/feature-wt".to_string();
    let entries = vec![entry("/tmp/repo", Some("main")), entry(&worktree_path, Some("feature"))];

    // By handle.
    assert_eq!(
        find(&entries, "feature-wt").unwrap(),
        (worktree_path.clone(), "feature".to_string())
    );
    // By branch.
    assert_eq!(find(&entries, "feature").unwrap(), (worktree_path.clone(), "feature".to_string()));
    // Unknown name errors like the git free function.
    assert!(find_workspace_in(&entries, "nope").is_err());

    let direct = find_directly(&entries, "feature-wt").unwrap();
    assert_eq!(direct, (worktree_path, "feature".to_string()));
}

#[test]
fn the_error_names_what_was_looked_for() {
    let entries = vec![entry("/repo", Some("main"))];
    assert_eq!(find_workspace_in(&entries, "nope").err().unwrap().name, "nope");
    assert_eq!(find_workspace_in(&Vec::new(), "main").err().unwrap().name, "main");
}

#[test]
fn a_handle_comes_before_a_branch() {
    let entries = vec![
        entry("/w/one", Some("two")),
        entry("/w/two", Some("three")),
        entry("/x/two", Some("four")),
    ];
    assert_eq!(find(&entries, "two"), Some(("/w/two".to_string(), "three".to_string())));
    assert_eq!(find(&entries, "four"), Some(("/x/two".to_string(), "four".to_string())));
}

#[test]
fn a_workspace_without_branch_is_detached() {
    let entries = vec![entry("/w/one", None), entry("/", Some("root"))];
    assert_eq!(find(&entries, "one"), Some(("/w/one".to_string(), "(detached)".to_string())));
    assert_eq!(find(&entries, "(detached)"), None);
    assert_eq!(find(&entries, "root"), Some(("/".to_string(), "root".to_string())));
}

#[test]
fn lookups_agree_with_the_standard_library() {
    let entries = vec![
        entry("/w/one", Some("two")),
        entry("/w/two/", None),
        entry("/", Some("three")),
        entry("/x/two", Some("one")),
        entry("/x/..", Some("four")),
    ];
    for name in ["one", "two", "three", "four", "five", "", "..", "(detached)"] {
        assert_eq!(find(&entries, name), find_directly(&entries, name), "{name}");
    }
}
