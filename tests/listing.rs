use traverse::listing::{list_dirs, list_files};
use traverse::paths::{abbreviate_path, parent_of};
use traverse::sizes::convert_bytes;

fn names(v: &[&str]) -> Vec<String> {
    v.iter().map(|s| s.to_string()).collect()
}

#[test]
fn hidden_file_is_filtered_out() {
    let raw = names(&["b.txt", ".a.txt"]);
    assert_eq!(list_files(&raw, false), names(&["b.txt"]));
}

#[test]
fn shown_dotfile_sorts_last() {
    let raw = names(&["b.txt", ".a.txt"]);
    assert_eq!(list_files(&raw, true), names(&["b.txt", ".a.txt"]));
}

#[test]
fn files_sort_case_sensitively() {
    let raw = names(&["b", "a", "B", ".z", ".A", "_x"]);
    assert_eq!(list_files(&raw, true), names(&["B", "_x", "a", "b", ".A", ".z"]));
}

#[test]
fn duplicate_raw_names_appear_once() {
    let raw = names(&["a", "b", "a"]);
    assert_eq!(list_files(&raw, false), names(&["a", "b"]));
}

#[test]
fn empty_directory_lists_only_parent() {
    let none: Vec<String> = vec![];
    assert!(list_files(&none, true).is_empty());
    assert_eq!(list_dirs(&none, true, &none), names(&["../"]));
}

#[test]
fn directory_list_starts_with_parent_once() {
    let raw = names(&["src", "../", ".git", "target", "docs"]);
    let excluded = names(&["target"]);
    assert_eq!(list_dirs(&raw, true, &excluded), names(&["../", "docs", "src", ".git"]));
    assert_eq!(list_dirs(&raw, false, &excluded), names(&["../", "docs", "src"]));
}

#[test]
fn listing_twice_gives_same_order() {
    let first = names(&["zeta", ".hidden", "Alpha", "beta"]);
    let second = names(&["beta", "Alpha", ".hidden", "zeta"]);
    assert_eq!(list_files(&first, true), list_files(&second, true));
    let none: Vec<String> = vec![];
    assert_eq!(list_dirs(&first, true, &none), list_dirs(&second, true, &none));
}

#[test]
fn bytes_in_units() {
    assert_eq!(convert_bytes(0), "0 B");
    assert_eq!(convert_bytes(1024), "1024 B");
    assert_eq!(convert_bytes(1025), "1 KB");
    assert_eq!(convert_bytes(3 * 1024 * 1024), "3 MB");
    assert_eq!(convert_bytes(5 * 1024 * 1024 * 1024 + 7), "5 GB");
    assert_eq!(convert_bytes(2048 * 1024 * 1024 * 1024), "2 TB");
    assert_eq!(convert_bytes(u64::MAX), "15 PB");
}

#[test]
fn long_paths_are_abbreviated() {
    assert_eq!(abbreviate_path("/home/user/projects/app/src"), ".../projects/app/src");
    assert_eq!(abbreviate_path("/a/b/c/d"), ".../b/c/d");
    assert_eq!(abbreviate_path("/a/b/c"), "/a/b/c");
    assert_eq!(abbreviate_path("a/b/c/d"), "a/b/c/d");
    assert_eq!(abbreviate_path(""), "");
}

#[test]
fn parent_directory_of_path() {
    assert_eq!(parent_of("/home/user/README.md"), "/home/user");
    assert_eq!(parent_of("/README.md"), "/");
    assert_eq!(parent_of("README.md"), ".");
    assert_eq!(parent_of("docs/a.txt"), "docs");
}
