use nabu::dirs::list_subdirs;

fn segments(path: &[&str]) -> Vec<String> {
    path.iter().map(|s| String::from(*s)).collect()
}

#[test]
fn git_subtree_is_pruned() {
    let dirs: Vec<Vec<String>> = vec![
        segments(&[]),
        segments(&[".git"]),
        segments(&[".git", "objects"]),
        segments(&["src"]),
    ];
    let excluded: Vec<String> = vec![String::from(".git")];
    let watched = list_subdirs(&dirs, &excluded);
    assert_eq!(watched, vec![segments(&[]), segments(&["src"])]);
    assert!(!watched.contains(&segments(&[".git"])));
    assert!(!watched.contains(&segments(&[".git", "objects"])));
}

#[test]
fn nothing_excluded_keeps_everything_in_order() {
    let dirs: Vec<Vec<String>> = vec![
        segments(&[]),
        segments(&["a"]),
        segments(&["a", "b"]),
    ];
    let excluded: Vec<String> = Vec::new();
    assert_eq!(list_subdirs(&dirs, &excluded), dirs);
}

#[test]
fn empty_tree_stays_empty() {
    let dirs: Vec<Vec<String>> = Vec::new();
    let excluded: Vec<String> = vec![String::from(".git")];
    assert!(list_subdirs(&dirs, &excluded).is_empty());
}

#[test]
fn several_names_prune_independently() {
    let dirs: Vec<Vec<String>> = vec![
        segments(&["notes"]),
        segments(&[".obsidian"]),
        segments(&[".obsidian", "plugins"]),
        segments(&["notes", ".git"]),
        segments(&["notes", "drafts"]),
    ];
    let excluded: Vec<String> = vec![String::from(".obsidian"), String::from(".git")];
    let watched = list_subdirs(&dirs, &excluded);
    assert_eq!(watched, vec![segments(&["notes"]), segments(&["notes", "drafts"])]);
}
