use traverse::bookmarks::{parse_bookmark_file, Bookmarks};
use traverse::config::{parse_config, split_at_char, trim_blanks};
use traverse::selection::{file_name_of, paths_to_transfer, stage};

fn strings(v: &[&str]) -> Vec<String> {
    v.iter().map(|s| s.to_string()).collect()
}

#[test]
fn adding_twice_then_loading_keeps_one() {
    let mut marks = Bookmarks::new();
    let mut file = String::new();
    for _ in 0..3 {
        if marks.add("/home/u/code".to_string()) {
            file.push_str("/home/u/code\n");
        }
    }
    assert_eq!(file, "/home/u/code\n");
    let mut fresh = Bookmarks::new();
    fresh.load(&parse_bookmark_file(&file));
    assert_eq!(fresh.list.items, strings(&["/home/u/code"]));
    assert_eq!(fresh.list.selected, Some(0));
}

#[test]
fn add_selects_first_and_reports_new() {
    let mut marks = Bookmarks::new();
    assert!(marks.add("/b".to_string()));
    assert!(marks.add("/a".to_string()));
    assert!(!marks.add("/b".to_string()));
    assert_eq!(marks.list.items, strings(&["/b", "/a"]));
    assert_eq!(marks.list.selected, Some(0));
}

#[test]
fn load_merges_and_sorts() {
    let mut marks = Bookmarks::new();
    marks.add("/z".to_string());
    marks.load(&strings(&["/m", "/a", "/z", "/m"]));
    assert_eq!(marks.list.items, strings(&["/a", "/m", "/z"]));
    assert_eq!(marks.list.selected, Some(0));
}

#[test]
fn load_of_nothing_keeps_selection() {
    let mut marks = Bookmarks::new();
    marks.load(&vec![]);
    assert!(marks.list.items.is_empty());
    assert_eq!(marks.list.selected, None);
}

#[test]
fn delete_needs_existing_directory() {
    let mut marks = Bookmarks::new();
    marks.load(&strings(&["/a", "/b"]));
    marks.list.selected = Some(1);
    assert!(!marks.delete(1, false));
    assert!(!marks.delete(5, true));
    assert_eq!(marks.list.items, strings(&["/a", "/b"]));
    assert!(marks.delete(1, true));
    assert_eq!(marks.list.items, strings(&["/a"]));
    assert_eq!(marks.list.selected, Some(0));
    assert!(marks.delete(0, true));
    assert_eq!(marks.list.selected, None);
}

#[test]
fn bookmark_file_lines() {
    assert_eq!(parse_bookmark_file("/a\n/b\n"), strings(&["/a", "/b"]));
    assert_eq!(parse_bookmark_file("/a\n\n/b"), strings(&["/a", "/b"]));
    assert!(parse_bookmark_file("").is_empty());
}

#[test]
fn staging_deduplicates() {
    let mut staged: Vec<String> = vec![];
    assert!(stage(&mut staged, "/w/a.txt".to_string()));
    assert!(!stage(&mut staged, "/w/a.txt".to_string()));
    assert!(stage(&mut staged, "/w/dir".to_string()));
    assert_eq!(staged, strings(&["/w/a.txt", "/w/dir"]));
}

#[test]
fn transfer_skips_name_collisions() {
    let staged = strings(&["/x/a.txt", "/x/b.txt", "/y/a.txt", "/x/new"]);
    let present = strings(&["a.txt", "c.txt"]);
    assert_eq!(paths_to_transfer(&staged, &present), strings(&["/x/b.txt", "/x/new"]));
    assert_eq!(file_name_of("/x/y/z.tar.gz"), "z.tar.gz");
    assert_eq!(file_name_of("plain"), "plain");
}

#[test]
fn config_defaults_and_values() {
    let cfg = parse_config("show_hidden=false\nexcluded_directories=.git,.idea,.vscode,target");
    assert!(!cfg.show_hidden);
    assert_eq!(cfg.excluded_directories, strings(&[".git", ".idea", ".vscode", "target"]));
    let cfg = parse_config(" show_hidden = TRUE \r\nunknown=1\nexcluded_directories= a , ,b\n");
    assert!(cfg.show_hidden);
    assert_eq!(cfg.excluded_directories, strings(&["a", "b"]));
    let cfg = parse_config("no equals sign\nshow_hidden=yes");
    assert!(!cfg.show_hidden);
    assert!(cfg.excluded_directories.is_empty());
}

#[test]
fn config_helpers() {
    assert_eq!(trim_blanks("  a b\t"), "a b");
    assert_eq!(trim_blanks("   "), "");
    assert_eq!(split_at_char("a=b=c", '='), strings(&["a", "b", "c"]));
    assert_eq!(split_at_char("", ','), strings(&[""]));
}

#[test]
fn written_bookmarks_read_back() {
    let mut marks = Bookmarks::new();
    marks.load(&strings(&["/srv/data", "/home/u"]));
    let mut text = String::new();
    for p in &marks.list.items {
        text.push_str(p);
        text.push('\n');
    }
    assert_eq!(parse_bookmark_file(&text), marks.list.items);
}

#[test]
fn config_trims_unicode_white_space() {
    let cfg = parse_config("show_hidden=\u{0C}true\u{A0}\nexcluded_directories=\u{3000}x\u{2003},\u{0B}y");
    assert!(cfg.show_hidden);
    assert_eq!(cfg.excluded_directories, strings(&["x", "y"]));
    assert_eq!(trim_blanks("\u{85} a \u{2028}"), "a");
}
