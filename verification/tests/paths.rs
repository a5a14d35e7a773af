use std::collections::BTreeSet;
use std::path::{Component, Path, PathBuf};
use workmux::order::Placement;
use workmux::paths::{place_path, same_path, PathName, PathPart, WorkspacePath};
use workmux::relative::{path_label, seen_path};
use workmux::roots::discover_project_roots;

fn path(text: &str) -> WorkspacePath {
    let parts = Path::new(text)
        .components()
        .map(|part| match part {
            Component::RootDir => PathPart::Root,
            Component::CurDir => PathPart::Current,
            Component::ParentDir => PathPart::Parent,
            Component::Normal(name) => PathPart::Normal(PathName {
                bytes: name.as_encoded_bytes().to_vec(),
                text: name.to_string_lossy().into_owned(),
            }),
            Component::Prefix(_) => unreachable!(),
        })
        .collect();
    WorkspacePath { text: text.to_string(), parts }
}

fn odd(bytes: &[u8]) -> PathPart {
    PathPart::Normal(PathName {
        bytes: bytes.to_vec(),
        text: String::from_utf8_lossy(bytes).into_owned(),
    })
}

const SAMPLES: [&str; 16] = [
    "", "/", ".", "..", "./a", "a", "a/b", "a.b", "/a", "/a/b", "/a-b", "/a/../b", "../a", "/..",
    "/é", "a/",
];

#[test]
fn paths_are_placed_like_std() {
    for a in SAMPLES {
        for b in SAMPLES {
            let expected = match Path::new(a).partial_cmp(Path::new(b)).unwrap() {
                std::cmp::Ordering::Less => Placement::Before,
                std::cmp::Ordering::Equal => Placement::Same,
                std::cmp::Ordering::Greater => Placement::After,
            };
            assert_eq!(place_path(&path(a), &path(b)), expected, "{a:?} {b:?}");
            assert_eq!(same_path(&path(a), &path(b)), Path::new(a) == Path::new(b));
        }
    }
}

#[test]
fn file_names_are_those_of_std() {
    for a in SAMPLES {
        let expected = Path::new(a).file_name().and_then(|name| name.to_str());
        assert_eq!(path(a).file_name_text().as_deref(), expected);
        assert_eq!(path(a).is_absolute(), Path::new(a).is_absolute());
        assert!(path(a).is_well_formed());
    }
}

#[test]
fn a_name_that_is_not_utf8_is_no_text() {
    let odd = WorkspacePath {
        text: "/\u{fffd}".to_string(),
        parts: vec![PathPart::Root, odd(&[0xff])],
    };
    assert_eq!(odd.file_name_text(), None);
    assert_eq!(odd.file_name().unwrap().text, "\u{fffd}");
}

#[test]
fn components_in_the_wrong_place_are_no_path() {
    let parts = vec![PathPart::Parent, PathPart::Root];
    assert!(!WorkspacePath { text: String::new(), parts }.is_well_formed());
    let parts = vec![PathPart::Parent, PathPart::Current];
    assert!(!WorkspacePath { text: String::new(), parts }.is_well_formed());
    assert!(!WorkspacePath { text: String::new(), parts: vec![odd(&[])] }.is_well_formed());
}

/// The label by way of `pathdiff` and the standard library.
fn expected_label(path: &str, cwd: &str) -> String {
    pathdiff::diff_paths(path, cwd)
        .map(|p| {
            let s = p.display().to_string();
            if s.is_empty() || s == "." {
                "(here)".to_string()
            } else {
                s
            }
        })
        .unwrap_or_else(|| Path::new(path).display().to_string())
}

#[test]
fn labels_are_relative_to_the_current_directory() {
    assert_eq!(path_label(&path("/w/a"), &path("/w/a")), "(here)");
    assert_eq!(path_label(&path("/w/a/"), &path("/w/a")), "(here)");
    assert_eq!(path_label(&path("/w/b"), &path("/w/a")), "../b");
    assert_eq!(path_label(&path("/w/a/c"), &path("/w/a")), "c");
    assert_eq!(path_label(&path("/w"), &path("/w/a/c")), "../..");
    assert_eq!(path_label(&path("w/b"), &path("/w/a")), "w/b");
    assert_eq!(path_label(&path("/w/b"), &path("/w/../x")), "/w/b");
    assert_eq!(path_label(&path("/w/b"), &path("/x/../y")), "../../../w/b");
    assert_eq!(path_label(&path("/w/b"), &path("/../x")), "/w/b");
}

#[test]
fn labels_agree_with_pathdiff() {
    for p in SAMPLES {
        for cwd in SAMPLES {
            if Path::new(cwd).is_absolute() {
                assert_eq!(path_label(&path(p), &path(cwd)), expected_label(p, cwd), "{p} {cwd}");
            }
        }
    }
}

#[test]
fn names_that_look_alike_are_told_apart() {
    let cwd = WorkspacePath {
        text: "/\u{fffd}".to_string(),
        parts: vec![PathPart::Root, odd(&[0xff])],
    };
    let other = WorkspacePath {
        text: "/\u{fffd}".to_string(),
        parts: vec![PathPart::Root, odd(&[0xfe])],
    };
    assert_eq!(path_label(&cwd, &cwd), "(here)");
    assert_eq!(path_label(&other, &cwd), "../\u{fffd}");
    assert_eq!(seen_path(&other, &cwd), Some(vec!["..".to_string(), "\u{fffd}".to_string()]));
}

#[test]
fn roots_come_in_order_and_once() {
    let found = ["/p/b", "/p/a", "/p/b/", "/p", "/p/a/x", "/p/a"];
    let expected: BTreeSet<PathBuf> = found.iter().map(PathBuf::from).collect();
    let roots = discover_project_roots(
        found.iter().map(|text| Some(path(text))).chain([None]).collect(),
    );
    let roots: Vec<PathBuf> = roots.into_iter().map(|root| PathBuf::from(root.text)).collect();
    assert_eq!(roots, expected.into_iter().collect::<Vec<_>>());
    assert_eq!(roots.len(), 4);
    assert!(discover_project_roots(vec![None, None]).is_empty());
}
