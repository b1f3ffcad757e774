use ws_ide::shell_rpc::DirItem;
use ws_ide::tree::{
    build_comprehensive_file_tree, build_directory_tree, get_repo_structure, join_path,
    next_directory, Listings, TreeNode, DEFAULT_MAX_DEPTH, FILES_SHOWN, FILE_LIMIT,
};

fn dir(name: &str) -> DirItem {
    DirItem { name: name.to_string(), is_dir: true }
}

fn file(name: &str) -> DirItem {
    DirItem { name: name.to_string(), is_dir: false }
}

fn empty() -> TreeNode {
    TreeNode { dirs: vec![], files: vec![] }
}

fn pair(a: &str, b: &str) -> (String, String) {
    (a.to_string(), b.to_string())
}

#[test]
fn tree_limits() {
    assert_eq!(DEFAULT_MAX_DEPTH, 3);
    assert_eq!(FILE_LIMIT, 15);
    assert_eq!(FILES_SHOWN, 10);
}

#[test]
fn join_path_puts_a_slash_between() {
    assert_eq!(join_path("/home", "a b"), "/home/a b");
    assert_eq!(join_path("", "x"), "/x");
}

#[test]
fn tree_without_listing_is_empty() {
    let l = Listings::new();
    assert_eq!(build_comprehensive_file_tree(&l, "/home"), empty());
}

#[test]
fn new_project_is_an_empty_directory_in_the_tree() {
    let mut l = Listings::new();
    l.insert("/home", vec![dir("myApp")]);
    l.insert("/home/myApp", vec![]);
    let repo = get_repo_structure("/", &l);
    assert_eq!(repo.current_directory, "/home");
    assert_eq!(
        repo.structure,
        TreeNode { dirs: vec![("myApp".to_string(), empty())], files: vec![] }
    );
}

#[test]
fn repo_structure_starts_at_the_working_directory() {
    let mut l = Listings::new();
    l.insert("/srv", vec![file("a.txt")]);
    let repo = get_repo_structure("/srv", &l);
    assert_eq!(repo.current_directory, "/srv");
    assert_eq!(
        repo.structure,
        TreeNode { dirs: vec![], files: vec![pair("/srv/a.txt", "a.txt")] }
    );
}

#[test]
fn entries_are_sorted_and_listed_once() {
    let mut l = Listings::new();
    l.insert(
        "/home",
        vec![file("b.txt"), dir("zeta"), file("a.txt"), dir("alpha"), file("b.txt"), dir("zeta")],
    );
    let tree = build_comprehensive_file_tree(&l, "/home");
    assert_eq!(
        tree,
        TreeNode {
            dirs: vec![("alpha".to_string(), empty()), ("zeta".to_string(), empty())],
            files: vec![pair("/home/a.txt", "a.txt"), pair("/home/b.txt", "b.txt")],
        }
    );
}

#[test]
fn subdirectories_are_built_from_their_listings() {
    let mut l = Listings::new();
    l.insert("/home", vec![dir("app"), file("README")]);
    l.insert("/home/app", vec![dir("src"), file("Cargo.toml")]);
    l.insert("/home/app/src", vec![file("main.rs")]);
    let tree = build_comprehensive_file_tree(&l, "/home");
    let src = TreeNode { dirs: vec![], files: vec![pair("/home/app/src/main.rs", "main.rs")] };
    let app = TreeNode {
        dirs: vec![("src".to_string(), src)],
        files: vec![pair("/home/app/Cargo.toml", "Cargo.toml")],
    };
    assert_eq!(
        tree,
        TreeNode { dirs: vec![("app".to_string(), app)], files: vec![pair("/home/README", "README")] }
    );
}

#[test]
fn fifteen_files_are_all_shown() {
    let mut l = Listings::new();
    let items: Vec<DirItem> = (1..=15).map(|i| file(&format!("f{:02}", i))).collect();
    l.insert("/d", items);
    let tree = build_comprehensive_file_tree(&l, "/d");
    assert_eq!(tree.files.len(), 15);
    assert_eq!(tree.files[0], pair("/d/f01", "f01"));
    assert_eq!(tree.files[14], pair("/d/f15", "f15"));
}

#[test]
fn sixteen_files_are_cut_to_ten_and_a_marker() {
    let mut l = Listings::new();
    let items: Vec<DirItem> = (1..=16).rev().map(|i| file(&format!("f{:02}", i))).collect();
    l.insert("/d", items);
    let tree = build_comprehensive_file_tree(&l, "/d");
    assert_eq!(tree.files.len(), 11);
    for i in 0..10 {
        let name = format!("f{:02}", i + 1);
        assert_eq!(tree.files[i], (format!("/d/{}", name), name));
    }
    assert_eq!(tree.files[10], pair("...", "and 6 more files"));
}

#[test]
fn many_files_count_what_is_hidden() {
    let mut l = Listings::new();
    let items: Vec<DirItem> = (0..125).map(|i| file(&format!("n{:03}", i))).collect();
    l.insert("/d", items);
    let tree = build_comprehensive_file_tree(&l, "/d");
    assert_eq!(tree.files.len(), 11);
    assert_eq!(tree.files[10], pair("...", "and 115 more files"));
}

#[test]
fn tree_stops_below_the_depth_bound() {
    let mut l = Listings::new();
    l.insert("/r", vec![dir("a")]);
    l.insert("/r/a", vec![dir("b")]);
    l.insert("/r/a/b", vec![dir("c")]);
    l.insert("/r/a/b/c", vec![dir("d"), file("deep.txt")]);
    l.insert("/r/a/b/c/d", vec![file("too-deep.txt")]);
    let tree = build_comprehensive_file_tree(&l, "/r");
    let c = TreeNode {
        dirs: vec![("d".to_string(), empty())],
        files: vec![pair("/r/a/b/c/deep.txt", "deep.txt")],
    };
    let b = TreeNode { dirs: vec![("c".to_string(), c)], files: vec![] };
    let a = TreeNode { dirs: vec![("b".to_string(), b)], files: vec![] };
    assert_eq!(tree, TreeNode { dirs: vec![("a".to_string(), a)], files: vec![] });
}

#[test]
fn depth_bound_can_be_chosen() {
    let mut l = Listings::new();
    l.insert("/r", vec![dir("a"), file("x")]);
    l.insert("/r/a", vec![file("y")]);
    let tree = build_directory_tree(&l, "/r", 0, 0);
    assert_eq!(
        tree,
        TreeNode { dirs: vec![("a".to_string(), empty())], files: vec![pair("/r/x", "x")] }
    );
    assert_eq!(build_directory_tree(&l, "/r", 1, 0), empty());
    assert_eq!(build_directory_tree(&l, "/r", u32::MAX, u32::MAX), TreeNode {
        dirs: vec![("a".to_string(), empty())],
        files: vec![pair("/r/x", "x")],
    });
}

#[test]
fn directory_called_files_gives_way_to_the_files() {
    let mut l = Listings::new();
    l.insert("/r", vec![dir("_files"), dir("src"), file("x")]);
    let tree = build_comprehensive_file_tree(&l, "/r");
    assert_eq!(
        tree,
        TreeNode { dirs: vec![("src".to_string(), empty())], files: vec![pair("/r/x", "x")] }
    );
    let mut l = Listings::new();
    l.insert("/r", vec![dir("_files"), dir("src")]);
    let tree = build_comprehensive_file_tree(&l, "/r");
    assert_eq!(tree.dirs.len(), 2);
    assert_eq!(tree.dirs[0].0, "_files");
}

#[test]
fn first_listing_of_a_path_stays() {
    let mut l = Listings::new();
    assert!(!l.contains("/r"));
    l.insert("/r", vec![file("first")]);
    l.insert("/r", vec![file("second")]);
    assert!(l.contains("/r"));
    let tree = build_comprehensive_file_tree(&l, "/r");
    assert_eq!(tree.files, vec![pair("/r/first", "first")]);
}

#[test]
fn walk_lists_a_directory_before_its_subdirectories() {
    let mut l = Listings::new();
    let mut asked: Vec<String> = Vec::new();
    let disk: Vec<(&str, Vec<DirItem>)> = vec![
        ("/r", vec![dir("b"), dir("a"), file("f")]),
        ("/r/a", vec![dir("x")]),
        ("/r/a/x", vec![]),
        ("/r/b", vec![]),
    ];
    while let Some(path) = next_directory(&l, "/r") {
        assert!(!l.contains(&path));
        let items = disk
            .iter()
            .find(|(p, _)| *p == path)
            .map(|(_, items)| items.iter().map(|i| DirItem { name: i.name.clone(), is_dir: i.is_dir }).collect())
            .unwrap_or_default();
        l.insert(&path, items);
        asked.push(path);
        assert!(asked.len() < 20);
    }
    assert_eq!(asked, vec!["/r", "/r/a", "/r/a/x", "/r/b"]);
    assert_eq!(next_directory(&l, "/r"), None);
}

#[test]
fn walk_does_not_go_below_the_depth_bound() {
    let mut l = Listings::new();
    let mut asked: Vec<String> = Vec::new();
    while let Some(path) = next_directory(&l, "/r") {
        l.insert(&path, vec![dir("d")]);
        asked.push(path);
        assert!(asked.len() < 20);
    }
    assert_eq!(asked, vec!["/r", "/r/d", "/r/d/d", "/r/d/d/d"]);
}

#[test]
fn pruned_names_never_reach_the_tree() {
    let mut l = Listings::new();
    l.insert(
        "/r",
        vec![
            dir("node_modules"),
            dir(".git"),
            dir("__pycache__"),
            dir(".cache"),
            dir("."),
            dir(".."),
            dir("src"),
            file(".git"),
            file("kept"),
        ],
    );
    let tree = build_comprehensive_file_tree(&l, "/r");
    assert_eq!(
        tree,
        TreeNode { dirs: vec![("src".to_string(), empty())], files: vec![pair("/r/kept", "kept")] }
    );
    let mut asked: Vec<String> = Vec::new();
    let mut seen = Listings::new();
    while let Some(path) = next_directory(&seen, "/r") {
        let items = if path == "/r" { vec![dir("node_modules"), dir("src")] } else { vec![] };
        seen.insert(&path, items);
        asked.push(path);
        assert!(asked.len() < 10);
    }
    assert_eq!(asked, vec!["/r", "/r/src"]);
}
