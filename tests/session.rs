use traverse::fuzzy::Candidate;
use traverse::pane::{clamp_selection, StatefulList};
use traverse::session::{Action, ArchiveKind, Command, Key, Overlay, App, TransferOp};

fn strings(v: &[&str]) -> Vec<String> {
    v.iter().map(|s| s.to_string()).collect()
}

fn app_with(files: &[&str], dirs: &[&str]) -> App {
    App::new(&strings(files), &strings(dirs), false, vec![], "/w".to_string())
}

fn type_text(s: &mut App, text: &str) -> Vec<Action> {
    text.chars().map(|c| s.dispatch(Key::Char(c))).collect()
}

fn consistent(s: &App) -> bool {
    (!s.input_active || s.overlay != Overlay::Closed)
        && (s.pending.is_none() || s.overlay != Overlay::Closed)
}

#[test]
fn new_file_popup_creates_file() {
    let mut s = app_with(&["a.txt"], &[]);
    assert_eq!(s.dispatch(Key::Char('1')), Action::Nothing);
    assert_eq!(s.dispatch(Key::Char('n')), Action::Nothing);
    assert_eq!(s.overlay, Overlay::Popup);
    assert_eq!(s.pending, Some(Command::CreateFile));
    assert!(s.input_active);
    type_text(&mut s, "x.txt");
    assert_eq!(s.text, "x.txt");
    assert_eq!(s.dispatch(Key::Enter), Action::CreateFile("x.txt".to_string()));
    assert_eq!(s.overlay, Overlay::Closed);
    assert!(!s.input_active);
    assert_eq!(s.text, "");
    s.refresh(&strings(&["a.txt", "x.txt"]), &vec![]);
    assert_eq!(s.files.items, strings(&["a.txt", "x.txt"]));
}

#[test]
fn fuzzy_finder_searches_as_you_type() {
    let mut s = app_with(&[], &[]);
    assert_eq!(s.dispatch(Key::Char('w')), Action::Search(String::new()));
    assert_eq!(s.overlay, Overlay::FuzzyFinder);
    let actions = type_text(&mut s, "read");
    assert_eq!(actions.last(), Some(&Action::Search("read".to_string())));
    assert_eq!(actions[0], Action::Search("r".to_string()));
    let cands = vec![
        Candidate { path: "/w/README.md".to_string(), components: strings(&["README.md"]) },
        Candidate { path: "/w/reader.rs".to_string(), components: strings(&["reader.rs"]) },
        Candidate { path: "/w/xyz.bin".to_string(), components: strings(&["xyz.bin"]) },
    ];
    s.set_search_results(&cands);
    assert_eq!(s.fzf_results.items, strings(&["/w/README.md", "/w/reader.rs"]));
    assert_eq!(s.dispatch(Key::Ctrl('n')), Action::Nothing);
    assert_eq!(s.fzf_results.selected, Some(0));
    assert_eq!(s.dispatch(Key::Ctrl('p')), Action::Nothing);
    assert_eq!(s.fzf_results.selected, Some(1));
    assert_eq!(s.dispatch(Key::Enter), Action::OpenLocation("/w".to_string()));
    assert_eq!(s.overlay, Overlay::Closed);
    assert!(consistent(&s));
}

#[test]
fn escape_closes_bookmarks_then_quits() {
    let mut s = app_with(&[], &[]);
    assert_eq!(s.dispatch(Key::Char('b')), Action::LoadBookmarks);
    assert_eq!(s.overlay, Overlay::BookmarkMenu);
    assert!(!s.input_active);
    assert_eq!(s.dispatch(Key::Esc), Action::Nothing);
    assert_eq!(s.overlay, Overlay::Closed);
    assert_eq!(s.pending, None);
    assert_eq!(s.dispatch(Key::Esc), Action::Quit);
}

#[test]
fn q_is_text_while_typing() {
    let mut s = app_with(&["a"], &[]);
    s.dispatch(Key::Char('f'));
    assert_eq!(s.dispatch(Key::Char('q')), Action::Nothing);
    assert_eq!(s.text, "q");
    assert_eq!(s.dispatch(Key::Backspace), Action::Nothing);
    assert_eq!(s.text, "");
    assert_eq!(s.dispatch(Key::Char('q')), Action::Nothing);
    s.dispatch(Key::Esc);
    assert_eq!(s.dispatch(Key::Char('q')), Action::Quit);
    assert_eq!(s.dispatch(Key::Ctrl('c')), Action::Quit);
}

#[test]
fn mode_stays_consistent_over_keys() {
    let mut s = app_with(&["a", "b"], &["d"]);
    let keys = [
        Key::Char('1'), Key::Char('n'), Key::Char('z'), Key::Esc, Key::Char('2'),
        Key::Char('r'), Key::Enter, Key::Char('?'), Key::Char('j'), Key::Char('?'),
        Key::Char('p'), Key::Ctrl('n'), Key::Enter, Key::Char('w'), Key::Backspace,
        Key::Char('q'), Key::Esc, Key::Char('b'), Key::Ctrl('d'), Key::Enter,
    ];
    for k in keys {
        s.dispatch(k);
        assert!(consistent(&s));
    }
}

#[test]
fn enter_directory_and_clamp_files() {
    let mut s = app_with(&["a", "b", "c"], &["sub"]);
    s.dispatch(Key::Char('2'));
    assert_eq!(s.dispatch(Key::Char('j')), Action::Nothing);
    assert_eq!(s.dirs.selected, Some(1));
    assert_eq!(s.dispatch(Key::Enter), Action::EnterDir("sub".to_string()));
    s.files.selected = Some(2);
    s.finish_enter_dir(&strings(&["only"]), &vec![]);
    assert_eq!(s.files.selected, Some(0));
    assert_eq!(s.dirs.selected, Some(0));
    s.finish_enter_dir(&vec![], &vec![]);
    assert_eq!(s.files.selected, None);
    assert_eq!(s.dirs.items, strings(&["../"]));
    assert_eq!(s.dispatch(Key::Enter), Action::ParentDir);
    assert_eq!(clamp_selection(Some(7), 3), Some(2));
    assert_eq!(clamp_selection(Some(1), 3), Some(1));
    assert_eq!(clamp_selection(Some(0), 0), None);
}

#[test]
fn cursor_does_not_move_in_single_item_pane() {
    let mut s = app_with(&["only"], &[]);
    s.dispatch(Key::Char('1'));
    s.dispatch(Key::Char('j'));
    assert_eq!(s.files.selected, Some(0));
    s.dispatch(Key::Char('2'));
    assert_eq!(s.files.selected, None);
    s.dispatch(Key::Down);
    assert_eq!(s.dirs.selected, Some(0));
}

#[test]
fn cursor_wraps_in_pane() {
    let mut s = app_with(&["a", "b", "c"], &[]);
    s.dispatch(Key::Char('1'));
    s.dispatch(Key::Char('k'));
    assert_eq!(s.files.selected, Some(2));
    s.dispatch(Key::Char('j'));
    assert_eq!(s.files.selected, Some(0));
    s.dispatch(Key::Up);
    assert_eq!(s.files.selected, Some(2));
}

#[test]
fn overlay_blocks_pane_keys() {
    let mut s = app_with(&["a", "b"], &[]);
    s.dispatch(Key::Char('1'));
    s.dispatch(Key::Char('?'));
    assert_eq!(s.overlay, Overlay::Help);
    assert_eq!(s.pending, Some(Command::ShowHelp));
    assert_eq!(s.dispatch(Key::Char('j')), Action::Nothing);
    assert_eq!(s.files.selected, Some(0));
    assert_eq!(s.dispatch(Key::Char('n')), Action::Nothing);
    assert_eq!(s.overlay, Overlay::Help);
    assert_eq!(s.dispatch(Key::Char('z')), Action::Nothing);
    assert_eq!(s.dispatch(Key::Enter), Action::Nothing);
    s.dispatch(Key::Char('?'));
    assert_eq!(s.overlay, Overlay::Closed);
    assert_eq!(s.pending, None);
}

#[test]
fn rename_starts_with_current_name() {
    let mut s = app_with(&["old.txt"], &["dir"]);
    s.dispatch(Key::Char('1'));
    s.dispatch(Key::Char('r'));
    assert_eq!(s.pending, Some(Command::RenameFile));
    assert_eq!(s.text, "old.txt");
    s.dispatch(Key::Backspace);
    s.dispatch(Key::Backspace);
    s.dispatch(Key::Backspace);
    type_text(&mut s, "md");
    assert_eq!(
        s.dispatch(Key::Enter),
        Action::Rename("old.txt".to_string(), "old.md".to_string())
    );
    s.dispatch(Key::Char('2'));
    assert_eq!(s.dispatch(Key::Char('r')), Action::Nothing);
    assert_eq!(s.overlay, Overlay::Closed);
}

#[test]
fn parent_entry_is_protected() {
    let mut s = app_with(&[], &["dir"]);
    s.dispatch(Key::Char('2'));
    assert_eq!(s.dispatch(Key::Ctrl('d')), Action::Nothing);
    s.dispatch(Key::Char('j'));
    assert_eq!(s.dispatch(Key::Ctrl('d')), Action::Trash("dir".to_string(), false));
    s.dispatch(Key::Char('1'));
    assert_eq!(s.dispatch(Key::Ctrl('d')), Action::Nothing);
}

#[test]
fn archives_are_recognised() {
    let mut s = app_with(&["a.tar.gz", "b.zip", "c.txt"], &[]);
    s.dispatch(Key::Char('1'));
    assert_eq!(
        s.dispatch(Key::Char('x')),
        Action::Extract("a.tar.gz".to_string(), ArchiveKind::TarGz)
    );
    s.dispatch(Key::Char('j'));
    assert_eq!(s.dispatch(Key::Char('x')), Action::Extract("b.zip".to_string(), ArchiveKind::Zip));
    s.dispatch(Key::Char('j'));
    assert_eq!(s.dispatch(Key::Char('x')), Action::Nothing);
}

#[test]
fn operations_menu_copies_staged_paths() {
    let mut s = app_with(&["a.txt"], &[]);
    s.dispatch(Key::Char('1'));
    assert_eq!(s.dispatch(Key::Char('c')), Action::Stage("a.txt".to_string()));
    assert!(s.stage_path("/other/a.txt".to_string()));
    assert!(s.stage_path("/other/b.txt".to_string()));
    assert!(!s.stage_path("/other/b.txt".to_string()));
    s.dispatch(Key::Char('p'));
    assert_eq!(s.overlay, Overlay::OperationsMenu);
    assert_eq!(s.pending, None);
    s.dispatch(Key::Ctrl('n'));
    assert_eq!(
        s.dispatch(Key::Enter),
        Action::Transfer(TransferOp::Copy, strings(&["/other/b.txt"]))
    );
    assert!(s.selection.is_empty());
    assert_eq!(s.overlay, Overlay::Closed);
    s.dispatch(Key::Char('p'));
    s.dispatch(Key::Ctrl('n'));
    assert_eq!(s.ops_menu.selected, Some(1));
    assert_eq!(s.dispatch(Key::Enter), Action::Transfer(TransferOp::Move, vec![]));
    s.dispatch(Key::Char('p'));
    s.dispatch(Key::Ctrl('n'));
    assert_eq!(s.dispatch(Key::Enter), Action::Refresh);
}

#[test]
fn navigator_submits_path() {
    let mut s = app_with(&[], &[]);
    s.dispatch(Key::Char('f'));
    assert_eq!(s.overlay, Overlay::Navigator);
    type_text(&mut s, "/tmp");
    assert_eq!(s.dispatch(Key::Enter), Action::ChangeDir("/tmp".to_string()));
    s.set_cur_dir("/tmp".to_string());
    assert_eq!(s.cur_dir, "/tmp");
}

#[test]
fn bookmark_keys_round_trip() {
    let mut s = app_with(&[], &[]);
    assert_eq!(s.dispatch(Key::Char('z')), Action::AddBookmark);
    assert!(s.add_bookmark("/w".to_string()));
    assert!(!s.add_bookmark("/w".to_string()));
    assert_eq!(s.bookmark_file_text(), "/w\n");
    s.dispatch(Key::Char('b'));
    s.read_bookmark("/w\n/a\n");
    assert_eq!(s.bookmarks.list.items, strings(&["/a", "/w"]));
    assert_eq!(s.dispatch(Key::Ctrl('d')), Action::DeleteBookmark(0, "/a".to_string()));
    assert!(s.delete_bookmark(0, true));
    assert_eq!(s.bookmark_file_text(), "/w\n");
    assert_eq!(s.dispatch(Key::Enter), Action::OpenLocation("/w".to_string()));
    s.finish_open_location(&strings(&["f"]), &vec![]);
    assert_eq!(s.files.selected, Some(0));
    assert_eq!(s.dirs.selected, None);
}

#[test]
fn list_steps_wrap() {
    let mut l = StatefulList::with_items(strings(&["a", "b", "c"]));
    l.step_wrapping(false);
    assert_eq!(l.selected, Some(0));
    l.step_wrapping(false);
    assert_eq!(l.selected, Some(2));
    l.step_wrapping(true);
    assert_eq!(l.selected, Some(0));
    l.next();
    assert_eq!(l.selected, Some(1));
    l.previous();
    l.previous();
    assert_eq!(l.selected, Some(2));
    let mut empty = StatefulList::with_items(vec![]);
    empty.step_wrapping(true);
    assert_eq!(empty.selected, None);
}

#[test]
fn block_binds_follows_overlay() {
    let mut s = app_with(&[], &[]);
    assert!(!s.block_binds());
    s.dispatch(Key::Char('b'));
    assert!(s.block_binds());
    s.set_config(true, strings(&["target"]));
    s.refresh(&strings(&[".env"]), &strings(&["target", "src"]));
    assert_eq!(s.files.items, strings(&[".env"]));
    assert_eq!(s.dirs.items, strings(&["../", "src"]));
}

#[test]
fn named_handlers_match_keys() {
    let mut s = app_with(&["a.zip", "b"], &["d"]);
    s.handle_pane_switching(true);
    assert_eq!(s.files.selected, Some(0));
    assert_eq!(s.extract(), Action::Extract("a.zip".to_string(), ArchiveKind::Zip));
    assert_eq!(s.add_to_selected(), Action::Stage("a.zip".to_string()));
    s.handle_movement(true);
    assert_eq!(s.files.selected, Some(1));
    s.handle_pane_switching(false);
    assert_eq!(s.files.selected, None);
    assert_eq!(s.enter_directory(), Action::ParentDir);
    s.handle_movement(true);
    assert_eq!(s.enter_directory(), Action::EnterDir("d".to_string()));
    s.handle_new_file();
    assert_eq!(s.pending, Some(Command::CreateDir));
    type_text(&mut s, "new");
    assert_eq!(s.handle_submit(), Action::CreateDir("new".to_string()));
    s.handle_nav();
    assert_eq!(s.overlay, Overlay::Navigator);
    s.dispatch(Key::Esc);
    assert_eq!(s.handle_bookmark(), Action::LoadBookmarks);
    assert_eq!(s.handle_open_bookmark(), Action::Nothing);
    s.dispatch(Key::Esc);
    s.open_ops_menu();
    assert_eq!(s.overlay, Overlay::OperationsMenu);
    assert_eq!(s.handle_paste_or_move(), Action::Nothing);
    assert_eq!(s.overlay, Overlay::Closed);
}

#[test]
fn listings_update_separately() {
    let mut s = app_with(&["a", "b", "c"], &["x", "y"]);
    s.handle_pane_switching(true);
    s.handle_movement(false);
    assert_eq!(s.files.selected, Some(2));
    s.update_files(&strings(&["z"]));
    assert_eq!(s.files.items, strings(&["z"]));
    assert_eq!(s.files.selected, Some(0));
    assert_eq!(s.dirs.items, strings(&["../", "x", "y"]));
    s.update_dirs(&strings(&["w"]));
    assert_eq!(s.dirs.items, strings(&["../", "w"]));
    assert_eq!(s.files.items, strings(&["z"]));
}

#[test]
fn handlers_do_nothing_over_an_overlay() {
    let mut s = app_with(&["a", "b"], &["d"]);
    s.handle_pane_switching(true);
    s.dispatch(Key::Char('?'));
    s.handle_movement(true);
    assert_eq!(s.files.selected, Some(0));
    s.handle_pane_switching(false);
    assert_eq!(s.files.selected, Some(0));
    assert_eq!(s.dirs.selected, None);
    s.handle_new_file();
    s.handle_rename();
    s.handle_nav();
    s.open_ops_menu();
    assert_eq!(s.handle_fzf(), Action::Nothing);
    assert_eq!(s.handle_bookmark(), Action::Nothing);
    assert_eq!(s.overlay, Overlay::Help);
    assert_eq!(s.pending, Some(Command::ShowHelp));
    assert!(!s.input_active);
}

#[test]
fn hidden_names_block_transfer() {
    let mut s = app_with(&["seen.txt", ".hidden"], &["target"]);
    assert_eq!(s.files.items, strings(&["seen.txt"]));
    s.stage_path("/x/.hidden".to_string());
    s.stage_path("/x/target".to_string());
    s.stage_path("/x/fresh".to_string());
    s.handle_pane_switching(true);
    s.dispatch(Key::Char('p'));
    s.dispatch(Key::Ctrl('n'));
    assert_eq!(
        s.dispatch(Key::Enter),
        Action::Transfer(TransferOp::Copy, strings(&["/x/fresh"]))
    );
}

#[test]
fn staging_prefers_directory_cursor() {
    let mut s = app_with(&["f"], &["d"]);
    s.files.selected = Some(0);
    s.dirs.selected = Some(1);
    assert_eq!(s.add_to_selected(), Action::Stage("d".to_string()));
}

#[test]
fn submit_enters_directory_without_text_entry() {
    let mut s = app_with(&["a", "b"], &["sub"]);
    s.handle_pane_switching(false);
    assert_eq!(s.handle_submit(), Action::ParentDir);
    s.handle_movement(true);
    assert_eq!(s.handle_submit(), Action::EnterDir("sub".to_string()));
    s.dispatch(Key::Char('?'));
    assert_eq!(s.handle_submit(), Action::Nothing);
}
