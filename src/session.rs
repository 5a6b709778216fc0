//! The session state machine: which pane has focus, which overlay owns the
//! keyboard, which multi-step command waits for text, and how each key event
//! is resolved among them.

use vstd::prelude::*;
use vstd::string::StringExecFns;
use crate::bookmarks::{Bookmarks, file_text, is_loaded, parse_bookmark_file};
use crate::fuzzy::{search, search_results, Candidate};
use crate::listing::{file_kept, is_dir_listing, is_file_listing, list_dirs, list_files, parent_first, parent_entry};
use crate::pane::{clamp_selection, clamped, next_index, previous_index, wrapped_index, StatefulList};
use crate::paths::{parent_dir, parent_of};
use crate::selection::{paths_to_transfer, stage, staged_after, transfer_paths};
use crate::text::{copy_strings, has_suffix, ends_with, lines_of, pop_char, push_char, views};

verus! {

/// A multi-step operation waiting for a text or list confirmation.
#[derive(PartialEq, Eq, Structural, Clone, Copy, Debug)]
pub enum Command {
    CreateFile,
    CreateDir,
    RenameFile,
    RenameDir,
    ShowNav,
    ShowFzf,
    ShowHelp,
    Bookmark,
}

/// The modal layer that owns the keyboard, if any.
#[derive(PartialEq, Eq, Structural, Clone, Copy, Debug)]
pub enum Overlay {
    Closed,
    Popup,
    Navigator,
    FuzzyFinder,
    Help,
    BookmarkMenu,
    OperationsMenu,
}

/// A key press.
#[derive(PartialEq, Eq, Structural, Clone, Copy, Debug)]
pub enum Key {
    Char(char),
    Ctrl(char),
    Enter,
    Esc,
    Backspace,
    Up,
    Down,
    Other,
}

/// A batch operation on the staged paths.
#[derive(PartialEq, Eq, Structural, Clone, Copy, Debug)]
pub enum TransferOp {
    Copy,
    Move,
}

/// A recognised archive format.
#[derive(PartialEq, Eq, Structural, Clone, Copy, Debug)]
pub enum ArchiveKind {
    TarGz,
    Zip,
}

/// What the caller is to do after a key event; each outside effect is
/// followed by the matching `finish_*` or setter call.
#[derive(PartialEq, Eq, Clone, Debug)]
pub enum Action {
    /// Nothing beyond the state change.
    Nothing,
    /// End the session.
    Quit,
    /// Create an empty file of this name, then refresh.
    CreateFile(String),
    /// Create a directory of this name, then refresh.
    CreateDir(String),
    /// Rename the first entry to the second name, then refresh.
    Rename(String, String),
    /// Change to this directory (absolute or relative); on success record it
    /// with `set_cur_dir`; then refresh.
    ChangeDir(String),
    /// Change into this subdirectory, then `finish_enter_dir`.
    EnterDir(String),
    /// Change to the parent directory, then `finish_enter_dir`.
    ParentDir,
    /// Change to this directory, then `finish_open_location`.
    OpenLocation(String),
    /// Move this entry to the trash (a file when the flag is set), then refresh.
    Trash(String, bool),
    /// Extract this archive into the working directory, then refresh.
    Extract(String, ArchiveKind),
    /// Walk the working directory and hand the files to `set_search_results`.
    Search(String),
    /// Stage this entry, made absolute, with `stage_path`.
    Stage(String),
    /// Bookmark the working directory with `add_bookmark`.
    AddBookmark,
    /// Read the bookmark file and hand its text to `read_bookmark`.
    LoadBookmarks,
    /// Delete the bookmark at this index, whose path is given, with
    /// `delete_bookmark`.
    DeleteBookmark(usize, String),
    /// Copy or move these paths into the working directory, then refresh.
    Transfer(TransferOp, Vec<String>),
    /// Refresh the listings.
    Refresh,
}

/// Whether the overlay takes typed text.
pub open spec fn takes_text(o: Overlay) -> bool {
    o == Overlay::Popup || o == Overlay::Navigator || o == Overlay::FuzzyFinder
}

/// Whether a pending command fits the overlay that is open.
pub open spec fn pending_fits(o: Overlay, p: Option<Command>) -> bool {
    match o {
        Overlay::Closed => p is None,
        Overlay::Popup => p == Some(Command::CreateFile) || p == Some(Command::CreateDir) || p
            == Some(Command::RenameFile) || p == Some(Command::RenameDir),
        Overlay::Navigator => p == Some(Command::ShowNav),
        Overlay::FuzzyFinder => p == Some(Command::ShowFzf),
        Overlay::Help => p == Some(Command::ShowHelp),
        Overlay::BookmarkMenu => p == Some(Command::Bookmark),
        Overlay::OperationsMenu => p is None,
    }
}

/// Tests whether a directory entry is the synthetic parent entry.
pub fn is_parent_name(s: &String) -> (r: bool)
    ensures
        r == (s@ == parent_entry()),
{
    let parent = String::from_str("../");
    proof {
        reveal_strlit("../");
        assert(parent@ =~= parent_entry());
    }
    *s == parent
}

/// The browser session: its panes, overlay, text entry, bookmarks and
/// staged paths.
pub struct App {
    pub files: StatefulList,
    pub dirs: StatefulList,
    pub fzf_results: StatefulList,
    pub bookmarks: Bookmarks,
    pub ops_menu: StatefulList,
    pub overlay: Overlay,
    pub pending: Option<Command>,
    pub input_active: bool,
    pub text: String,
    pub selection: Vec<String>,
    pub show_hidden: bool,
    pub excluded: Vec<String>,
    pub cur_dir: String,
    /// Every file name of the working directory, hidden or not, as last read.
    pub all_files: Vec<String>,
    /// Every subdirectory name of the working directory, as last read.
    pub all_dirs: Vec<String>,
}

/// The listing fields and everything but the mode are equal.
pub open spec fn same_data(a: App, b: App) -> bool {
    &&& a.files == b.files
    &&& a.dirs == b.dirs
    &&& a.fzf_results == b.fzf_results
    &&& a.bookmarks == b.bookmarks
    &&& a.ops_menu == b.ops_menu
    &&& a.selection == b.selection
    &&& a.show_hidden == b.show_hidden
    &&& a.excluded == b.excluded
    &&& a.cur_dir == b.cur_dir
    &&& a.all_files == b.all_files
    &&& a.all_dirs == b.all_dirs
}

/// The overlay, pending command and text entry are equal.
pub open spec fn same_mode(a: App, b: App) -> bool {
    &&& a.overlay == b.overlay
    &&& a.pending == b.pending
    &&& a.input_active == b.input_active
    &&& a.text@ == b.text@
}

/// No overlay, no pending command, no text entry.
pub open spec fn closed(s: App) -> bool {
    &&& s.overlay == Overlay::Closed
    &&& s.pending is None
    &&& !s.input_active
    &&& s.text@ == Seq::<char>::empty()
}

/// `b` is `a` with only its mode closed.
pub open spec fn dismissed(a: App, b: App) -> bool {
    same_data(a, b) && closed(b)
}

/// `b` is `a` with the given overlay, pending command and text entry.
pub open spec fn opened(
    a: App,
    b: App,
    o: Overlay,
    p: Option<Command>,
    text: Seq<char>,
) -> bool {
    &&& same_data(a, b)
    &&& b.overlay == o
    &&& b.pending == p
    &&& b.input_active == takes_text(o)
    &&& b.text@ == text
}

/// `b` is `a` after one wrapping step of the list's selection.
pub open spec fn stepped(a: StatefulList, b: StatefulList, forward: bool) -> bool {
    &&& b.items@ == a.items@
    &&& a.items@.len() == 0 ==> b.selected == a.selected
    &&& a.items@.len() > 0 ==> b.selected == Some(
        wrapped_index(a.selected, a.items@.len(), forward) as usize,
    )
}

/// `b` is `a` after moving its cursor by j/k, which does nothing on a list
/// of at most one item.
pub open spec fn pane_moved(a: StatefulList, b: StatefulList, forward: bool) -> bool {
    &&& b.items@ == a.items@
    &&& a.items@.len() <= 1 ==> b.selected == a.selected
    &&& a.items@.len() > 1 ==> b.selected == Some(
        (if forward {
            next_index(a.selected, a.items@.len())
        } else {
            previous_index(a.selected, a.items@.len())
        }) as usize,
    )
}


/// `b` is `a` after typing `c`: the text grows by `c`, and in the fuzzy
/// finder the query is reissued.
pub open spec fn text_typed(a: App, b: App, c: char, r: Action) -> bool {
    &&& same_data(a, b)
    &&& b.overlay == a.overlay
    &&& b.pending == a.pending
    &&& b.input_active == a.input_active
    &&& b.text@ == a.text@.push(c)
    &&& if a.overlay == Overlay::FuzzyFinder {
        r is Search && r->Search_0@ == b.text@
    } else {
        r == Action::Nothing
    }
}

/// `b` is `a` after Backspace in text entry: the text loses its last
/// character, if any, and in the fuzzy finder the query is reissued.
pub open spec fn text_erased(a: App, b: App, r: Action) -> bool {
    &&& same_data(a, b)
    &&& b.overlay == a.overlay
    &&& b.pending == a.pending
    &&& b.input_active == a.input_active
    &&& b.text@ == if a.text@.len() > 0 {
        a.text@.drop_last()
    } else {
        a.text@
    }
    &&& if a.overlay == Overlay::FuzzyFinder {
        r is Search && r->Search_0@ == b.text@
    } else {
        r == Action::Nothing
    }
}

/// Everything but the three overlay lists is equal.
pub open spec fn same_but_overlay_lists(a: App, b: App) -> bool {
    &&& same_mode(a, b)
    &&& a.files == b.files
    &&& a.dirs == b.dirs
    &&& a.selection == b.selection
    &&& a.show_hidden == b.show_hidden
    &&& a.excluded == b.excluded
    &&& a.cur_dir == b.cur_dir
    &&& a.all_files == b.all_files
    &&& a.all_dirs == b.all_dirs
}

/// `b` is `a` after Ctrl+N (`forward`) or Ctrl+P: the list of the open list
/// overlay steps, wrapping; nothing else moves, whatever pane has focus.
pub open spec fn overlay_list_moved(a: App, b: App, forward: bool) -> bool {
    &&& same_but_overlay_lists(a, b)
    &&& if a.overlay == Overlay::FuzzyFinder {
        &&& stepped(a.fzf_results, b.fzf_results, forward)
        &&& b.bookmarks == a.bookmarks
        &&& b.ops_menu == a.ops_menu
    } else if a.overlay == Overlay::BookmarkMenu {
        &&& stepped(a.bookmarks.list, b.bookmarks.list, forward)
        &&& b.fzf_results == a.fzf_results
        &&& b.ops_menu == a.ops_menu
    } else if a.overlay == Overlay::OperationsMenu {
        &&& stepped(a.ops_menu, b.ops_menu, forward)
        &&& b.fzf_results == a.fzf_results
        &&& b.bookmarks == a.bookmarks
    } else {
        same_data(a, b)
    }
}

/// `b` is `a` after `?` outside text entry: help closes when open, opens
/// when nothing is open, and nothing happens over another overlay.
pub open spec fn help_toggled(a: App, b: App, r: Action) -> bool {
    &&& r == Action::Nothing
    &&& if a.overlay == Overlay::Help {
        dismissed(a, b)
    } else if a.overlay == Overlay::Closed {
        opened(a, b, Overlay::Help, Some(Command::ShowHelp), a.text@)
    } else {
        same_data(a, b) && same_mode(a, b)
    }
}

/// The action for Ctrl+D: delete the selected bookmark in the bookmark
/// menu; with nothing open, trash the focused entry (never the parent
/// entry). The state does not change.
pub open spec fn delete_requested(a: App, b: App, r: Action) -> bool {
    &&& same_data(a, b)
    &&& same_mode(a, b)
    &&& if a.overlay == Overlay::BookmarkMenu {
        match a.bookmarks.list.selected_item() {
            Some(p) => r is DeleteBookmark && r->DeleteBookmark_0 == a.bookmarks.list.selected->0
                && r->DeleteBookmark_1@ == p,
            None => r == Action::Nothing,
        }
    } else if a.overlay != Overlay::Closed {
        r == Action::Nothing
    } else if a.files_focused() {
        match a.files.selected_item() {
            Some(n) => r is Trash && r->Trash_0@ == n && r->Trash_1,
            None => r == Action::Nothing,
        }
    } else if a.dirs_focused() {
        match a.dirs.selected_item() {
            Some(n) => if n == parent_entry() {
                r == Action::Nothing
            } else {
                r is Trash && r->Trash_0@ == n && !r->Trash_1
            },
            None => r == Action::Nothing,
        }
    } else {
        r == Action::Nothing
    }
}

/// `b` is `a` with the focus moved to one pane: it selects its first item
/// and the other pane's selection is cleared.
pub open spec fn focus_moved(a: App, b: App, to_files: bool) -> bool {
    &&& same_mode(a, b)
    &&& b.files.items == a.files.items
    &&& b.dirs.items == a.dirs.items
    &&& b.files.selected == if to_files { Some(0usize) } else { None }
    &&& b.dirs.selected == if to_files { None } else { Some(0usize) }
    &&& b.fzf_results == a.fzf_results
    &&& b.bookmarks == a.bookmarks
    &&& b.ops_menu == a.ops_menu
    &&& b.selection == a.selection
    &&& b.show_hidden == a.show_hidden
    &&& b.excluded == a.excluded
    &&& b.cur_dir == a.cur_dir
    &&& b.all_files == a.all_files
    &&& b.all_dirs == a.all_dirs
}

/// `b` is `a` after j/k (`forward` for j): the cursor of the focused pane
/// moves, wrapping, unless that pane has at most one item.
pub open spec fn pane_cursor_moved(a: App, b: App, forward: bool) -> bool {
    &&& same_mode(a, b)
    &&& if a.files_focused() {
        pane_moved(a.files, b.files, forward) && b.dirs == a.dirs
    } else if a.dirs_focused() {
        pane_moved(a.dirs, b.dirs, forward) && b.files == a.files
    } else {
        b.files == a.files && b.dirs == a.dirs
    }
    &&& b.fzf_results == a.fzf_results
    &&& b.bookmarks == a.bookmarks
    &&& b.ops_menu == a.ops_menu
    &&& b.selection == a.selection
    &&& b.show_hidden == a.show_hidden
    &&& b.excluded == a.excluded
    &&& b.cur_dir == a.cur_dir
    &&& b.all_files == a.all_files
    &&& b.all_dirs == a.all_dirs
}

/// `n`: a Popup asks for the name of a new file, or of a new directory when
/// the Directories pane has focus; nothing happens without focus.
pub open spec fn new_entry_opened(a: App, b: App) -> bool {
    if a.files_focused() {
        opened(a, b, Overlay::Popup, Some(Command::CreateFile), a.text@)
    } else if a.dirs_focused() {
        opened(a, b, Overlay::Popup, Some(Command::CreateDir), a.text@)
    } else {
        same_data(a, b) && same_mode(a, b)
    }
}

/// `r`: a Popup asks for the focused entry's new name, starting from its
/// name; the parent entry cannot be renamed.
pub open spec fn rename_opened(a: App, b: App) -> bool {
    if a.files_focused() && a.files.selected_item() is Some {
        opened(a, b, Overlay::Popup, Some(Command::RenameFile), a.files.selected_item()->0)
    } else if a.dirs_focused() && a.dirs.selected_item() is Some && a.dirs.selected_item()->0
        != parent_entry() {
        opened(a, b, Overlay::Popup, Some(Command::RenameDir), a.dirs.selected_item()->0)
    } else {
        same_data(a, b) && same_mode(a, b)
    }
}

/// `w`: the fuzzy finder opens with no results and issues the query typed
/// so far.
pub open spec fn finder_opened(a: App, b: App, r: Action) -> bool {
    &&& r is Search
    &&& r->Search_0@ == a.text@
    &&& b.overlay == Overlay::FuzzyFinder
    &&& b.pending == Some(Command::ShowFzf)
    &&& b.input_active
    &&& b.text@ == a.text@
    &&& b.fzf_results.items@.len() == 0
    &&& b.fzf_results.selected is None
    &&& b.files == a.files
    &&& b.dirs == a.dirs
    &&& b.bookmarks == a.bookmarks
    &&& b.ops_menu == a.ops_menu
    &&& b.selection == a.selection
    &&& b.show_hidden == a.show_hidden
    &&& b.excluded == a.excluded
    &&& b.cur_dir == a.cur_dir
    &&& b.all_files == a.all_files
    &&& b.all_dirs == a.all_dirs
}

/// `x`: extraction of the focused file when its name ends in `.tar.gz` or
/// `.zip`.
pub open spec fn extract_requested(a: App, b: App, r: Action) -> bool {
    &&& same_data(a, b)
    &&& same_mode(a, b)
    &&& if a.files_focused() && a.files.selected_item() is Some && has_suffix(
        a.files.selected_item()->0,
        ".tar.gz"@,
    ) {
        r is Extract && r->Extract_0@ == a.files.selected_item()->0 && r->Extract_1
            == ArchiveKind::TarGz
    } else if a.files_focused() && a.files.selected_item() is Some && has_suffix(
        a.files.selected_item()->0,
        ".zip"@,
    ) {
        r is Extract && r->Extract_0@ == a.files.selected_item()->0 && r->Extract_1
            == ArchiveKind::Zip
    } else {
        r == Action::Nothing
    }
}

/// `c`: staging of the selected directory entry, else of the selected file.
pub open spec fn stage_requested(a: App, b: App, r: Action) -> bool {
    &&& same_data(a, b)
    &&& same_mode(a, b)
    &&& if a.dirs.selected is Some {
        match a.dirs.selected_item() {
            Some(n) => r is Stage && r->Stage_0@ == n,
            None => r == Action::Nothing,
        }
    } else {
        match a.files.selected_item() {
            Some(n) => r is Stage && r->Stage_0@ == n,
            None => r == Action::Nothing,
        }
    }
}

/// `p`: the operations menu opens when a pane has a selection.
pub open spec fn ops_opened(a: App, b: App) -> bool {
    if a.files.selected is Some || a.dirs.selected is Some {
        opened(a, b, Overlay::OperationsMenu, None, a.text@)
    } else {
        same_data(a, b) && same_mode(a, b)
    }
}

/// The outcome of a command key with nothing open.
pub open spec fn initiated(a: App, b: App, key: Key, r: Action) -> bool {
    if key == Key::Char('1') || key == Key::Char('2') {
        r == Action::Nothing && focus_moved(a, b, key == Key::Char('1'))
    } else if key == Key::Char('j') || key == Key::Down || key == Key::Char('k') || key
        == Key::Up {
        r == Action::Nothing && pane_cursor_moved(a, b, key == Key::Char('j') || key == Key::Down)
    } else if key == Key::Char('n') {
        r == Action::Nothing && new_entry_opened(a, b)
    } else if key == Key::Char('r') {
        r == Action::Nothing && rename_opened(a, b)
    } else if key == Key::Char('w') {
        finder_opened(a, b, r)
    } else if key == Key::Char('f') {
        r == Action::Nothing && opened(a, b, Overlay::Navigator, Some(Command::ShowNav), a.text@)
    } else if key == Key::Char('z') {
        r == Action::AddBookmark && same_data(a, b) && same_mode(a, b)
    } else if key == Key::Char('b') {
        r == Action::LoadBookmarks && opened(
            a,
            b,
            Overlay::BookmarkMenu,
            Some(Command::Bookmark),
            a.text@,
        )
    } else if key == Key::Char('x') {
        extract_requested(a, b, r)
    } else if key == Key::Char('c') {
        stage_requested(a, b, r)
    } else if key == Key::Char('p') {
        r == Action::Nothing && ops_opened(a, b)
    } else {
        r == Action::Nothing && same_data(a, b) && same_mode(a, b)
    }
}

/// `b` is `a` with its mode closed and the staged paths cleared.
pub open spec fn ops_done(a: App, b: App) -> bool {
    &&& closed(b)
    &&& b.selection@.len() == 0
    &&& b.files == a.files
    &&& b.dirs == a.dirs
    &&& b.fzf_results == a.fzf_results
    &&& b.bookmarks == a.bookmarks
    &&& b.ops_menu == a.ops_menu
    &&& b.show_hidden == a.show_hidden
    &&& b.excluded == a.excluded
    &&& b.cur_dir == a.cur_dir
    &&& b.all_files == a.all_files
    &&& b.all_dirs == a.all_dirs
}

/// The staged paths that a copy or a move takes: those whose name is not
/// already an entry of the working directory, shown or not.
pub open spec fn transfer_set(a: App) -> Seq<Seq<char>> {
    transfer_paths(
        transfer_paths(views(a.selection@), views(a.all_files@)),
        views(a.all_dirs@),
    )
}

/// Enter in the fuzzy finder: with a result selected, everything closes
/// and its directory is to be opened.
pub open spec fn fzf_result_opened(a: App, b: App, r: Action) -> bool {
    match a.fzf_results.selected_item() {
        Some(p) => {
            &&& r is OpenLocation
            &&& r->OpenLocation_0@ == parent_dir(p)
            &&& closed(b)
            &&& b.fzf_results.items == a.fzf_results.items
            &&& b.fzf_results.selected is None
            &&& b.files == a.files
            &&& b.dirs == a.dirs
            &&& b.bookmarks == a.bookmarks
            &&& b.ops_menu == a.ops_menu
            &&& b.selection == a.selection
            &&& b.show_hidden == a.show_hidden
            &&& b.excluded == a.excluded
            &&& b.cur_dir == a.cur_dir
            &&& b.all_files == a.all_files
            &&& b.all_dirs == a.all_dirs
        },
        None => r == Action::Nothing && same_data(a, b) && same_mode(a, b),
    }
}

/// Enter in the bookmark menu: with a bookmark selected, the menu closes and
/// its path is to be opened.
pub open spec fn bookmark_opened(a: App, b: App, r: Action) -> bool {
    match a.bookmarks.list.selected_item() {
        Some(p) => r is OpenLocation && r->OpenLocation_0@ == p && dismissed(a, b),
        None => r == Action::Nothing && same_data(a, b) && same_mode(a, b),
    }
}

/// Enter in the operations menu: without a selected entry the menu closes;
/// otherwise the staged paths are copied, moved, or cleared, and the menu
/// closes with nothing staged.
pub open spec fn ops_run(a: App, b: App, r: Action) -> bool {
    match a.ops_menu.selected {
        None => r == Action::Nothing && dismissed(a, b),
        Some(i) => ops_done(a, b) && if i == 0 {
            r is Transfer && r->Transfer_0 == TransferOp::Copy && views(r->Transfer_1@)
                == transfer_set(a)
        } else if i == 1 {
            r is Transfer && r->Transfer_0 == TransferOp::Move && views(r->Transfer_1@)
                == transfer_set(a)
        } else {
            r == Action::Refresh
        },
    }
}

/// Enter in text entry: the pending command is carried out with the text,
/// and the entry closes.
pub open spec fn text_submitted(a: App, b: App, r: Action) -> bool {
    &&& dismissed(a, b)
    &&& if a.pending == Some(Command::CreateFile) {
        r is CreateFile && r->CreateFile_0@ == a.text@
    } else if a.pending == Some(Command::CreateDir) {
        r is CreateDir && r->CreateDir_0@ == a.text@
    } else if a.pending == Some(Command::RenameFile) {
        match a.files.selected_item() {
            Some(n) => r is Rename && r->Rename_0@ == n && r->Rename_1@ == a.text@,
            None => r == Action::Nothing,
        }
    } else if a.pending == Some(Command::RenameDir) {
        match a.dirs.selected_item() {
            Some(n) => r is Rename && r->Rename_0@ == n && r->Rename_1@ == a.text@,
            None => r == Action::Nothing,
        }
    } else {
        r is ChangeDir && r->ChangeDir_0@ == a.text@
    }
}

/// Enter with nothing open: the focused directory entry is to be entered.
pub open spec fn dir_entered(a: App, b: App, r: Action) -> bool {
    &&& same_data(a, b)
    &&& same_mode(a, b)
    &&& if a.dirs_focused() && a.dirs.selected_item() is Some {
        if a.dirs.selected_item()->0 == parent_entry() {
            r == Action::ParentDir
        } else {
            r is EnterDir && r->EnterDir_0@ == a.dirs.selected_item()->0
        }
    } else {
        r == Action::Nothing
    }
}

/// Enter outside the list overlays: submit the text in text entry, enter
/// the focused directory with nothing open, else nothing.
pub open spec fn submit_handled(a: App, b: App, r: Action) -> bool {
    if a.input_active {
        text_submitted(a, b, r)
    } else if a.overlay == Overlay::Closed {
        dir_entered(a, b, r)
    } else {
        r == Action::Nothing && same_data(a, b) && same_mode(a, b)
    }
}

/// The outcome of Enter, by the open overlay: open the selected fuzzy
/// result's directory; open the selected bookmark; run the selected
/// operation; submit the text; or, with nothing open, enter the focused
/// directory.
pub open spec fn submitted(a: App, b: App, r: Action) -> bool {
    if a.overlay == Overlay::FuzzyFinder {
        fzf_result_opened(a, b, r)
    } else if a.overlay == Overlay::BookmarkMenu {
        bookmark_opened(a, b, r)
    } else if a.overlay == Overlay::OperationsMenu {
        ops_run(a, b, r)
    } else {
        submit_handled(a, b, r)
    }
}

/// Everything but the two listings is equal.
pub open spec fn same_but_listings(a: App, b: App) -> bool {
    &&& same_mode(a, b)
    &&& b.fzf_results == a.fzf_results
    &&& b.bookmarks == a.bookmarks
    &&& b.ops_menu == a.ops_menu
    &&& b.selection == a.selection
    &&& b.show_hidden == a.show_hidden
    &&& b.excluded == a.excluded
    &&& b.cur_dir == a.cur_dir
}

/// `b`'s listings are those of a directory whose files are `raw_files` and
/// whose subdirectories are `raw_dirs`, under `a`'s settings.
pub open spec fn relisted(a: App, b: App, raw_files: Seq<Seq<char>>, raw_dirs: Seq<Seq<char>>) -> bool {
    &&& is_file_listing(views(b.files.items@), raw_files, a.show_hidden)
    &&& is_dir_listing(views(b.dirs.items@), raw_dirs, a.show_hidden, views(a.excluded@))
    &&& views(b.all_files@) == raw_files
    &&& views(b.all_dirs@) == raw_dirs
    &&& same_but_listings(a, b)
}

/// Everything but the bookmarks is equal.
pub open spec fn same_but_bookmarks(a: App, b: App) -> bool {
    &&& same_mode(a, b)
    &&& a.files == b.files
    &&& a.dirs == b.dirs
    &&& a.fzf_results == b.fzf_results
    &&& a.ops_menu == b.ops_menu
    &&& a.selection == b.selection
    &&& a.show_hidden == b.show_hidden
    &&& a.excluded == b.excluded
    &&& a.cur_dir == b.cur_dir
    &&& a.all_files == b.all_files
    &&& a.all_dirs == b.all_dirs
}


impl App {
    /// The session's invariant.
    pub open spec fn wf(&self) -> bool {
        &&& self.input_active == takes_text(self.overlay)
        &&& pending_fits(self.overlay, self.pending)
        &&& !self.input_active ==> self.text@ == Seq::<char>::empty()
        &&& parent_first(views(self.dirs.items@))
        &&& self.bookmarks.wf()
    }

    /// Whether a pane holds the focus: the Files pane when it has a
    /// selection, otherwise the Directories pane when it has one.
    pub open spec fn files_focused(&self) -> bool {
        self.files.selected is Some
    }

    pub open spec fn dirs_focused(&self) -> bool {
        self.files.selected is None && self.dirs.selected is Some
    }

    /// Whether the key ends the session.
    pub open spec fn quits(&self, key: Key) -> bool {
        key == Key::Ctrl('c') || ((key == Key::Esc || (key == Key::Char('q') && !self.input_active))
            && self.overlay == Overlay::Closed)
    }

    /// Whether the key closes the open overlay.
    pub open spec fn dismisses(&self, key: Key) -> bool {
        (key == Key::Esc || (key == Key::Char('q') && !self.input_active)) && self.overlay
            != Overlay::Closed
    }

    /// Whether the key is typed into the text entry.
    pub open spec fn types(&self, key: Key) -> bool {
        self.input_active && key is Char
    }

    /// Whether the key starts a command: no overlay is open, and it is a
    /// plain key other than those handled before.
    pub open spec fn initiates(&self, key: Key) -> bool {
        &&& self.overlay == Overlay::Closed
        &&& (key is Char && key != Key::Char('q') && key != Key::Char('?')) || key == Key::Up || key
            == Key::Down
    }

    /// A session over the given listings, with no focus and nothing open.
    pub fn new(
        raw_files: &Vec<String>,
        raw_dirs: &Vec<String>,
        show_hidden: bool,
        excluded: Vec<String>,
        cur_dir: String,
    ) -> (r: App)
        ensures
            r.wf(),
            closed(r),
            is_file_listing(views(r.files.items@), views(raw_files@), show_hidden),
            is_dir_listing(views(r.dirs.items@), views(raw_dirs@), show_hidden, views(excluded@)),
            r.files.selected is None,
            r.dirs.selected is None,
            r.fzf_results.items@.len() == 0,
            r.bookmarks.paths().len() == 0,
            views(r.ops_menu.items@) == seq!["Copy here"@, "Move here"@, "Clear selection"@],
            r.ops_menu.selected is None,
            r.selection@.len() == 0,
            r.show_hidden == show_hidden,
            r.excluded@ == excluded@,
            r.cur_dir@ == cur_dir@,
            views(r.all_files@) == views(raw_files@),
            views(r.all_dirs@) == views(raw_dirs@),
    {
        let files = list_files(raw_files, show_hidden);
        let dirs = list_dirs(raw_dirs, show_hidden, &excluded);
        let mut ops: Vec<String> = Vec::new();
        ops.push(String::from_str("Copy here"));
        ops.push(String::from_str("Move here"));
        ops.push(String::from_str("Clear selection"));
        let ghost ov = views(ops@);
        assert(ov =~= seq!["Copy here"@, "Move here"@, "Clear selection"@]);
        App {
            files: StatefulList::with_items(files),
            dirs: StatefulList::with_items(dirs),
            fzf_results: StatefulList::with_items(Vec::new()),
            bookmarks: Bookmarks::new(),
            ops_menu: StatefulList::with_items(ops),
            overlay: Overlay::Closed,
            pending: None,
            input_active: false,
            text: String::new(),
            selection: Vec::new(),
            show_hidden,
            excluded,
            cur_dir,
            all_files: copy_strings(raw_files),
            all_dirs: copy_strings(raw_dirs),
        }
    }

    /// Whether an overlay blocks pane navigation and command keys.
    pub fn block_binds(&self) -> (r: bool)
        ensures
            r == (self.overlay != Overlay::Closed),
    {
        self.overlay != Overlay::Closed
    }

    fn close(&mut self)
        ensures
            dismissed(*old(self), *final(self)),
    {
        self.overlay = Overlay::Closed;
        self.pending = None;
        self.input_active = false;
        self.text = String::new();
    }

    fn open(&mut self, o: Overlay, p: Option<Command>)
        ensures
            opened(*old(self), *final(self), o, p, old(self).text@),
    {
        self.overlay = o;
        self.pending = p;
        self.input_active = o == Overlay::Popup || o == Overlay::Navigator || o
            == Overlay::FuzzyFinder;
    }

    /// Handles one key event.
    pub fn dispatch(&mut self, key: Key) -> (r: Action)
        requires
            old(self).wf(),
        ensures
            final(self).wf(),
            (r == Action::Quit) == old(self).quits(key),
            r == Action::Quit ==> same_data(*old(self), *final(self)) && same_mode(
                *old(self),
                *final(self),
            ),
            old(self).dismisses(key) ==> r == Action::Nothing && dismissed(
                *old(self),
                *final(self),
            ),
            old(self).types(key) ==> text_typed(*old(self), *final(self), key->Char_0, r),
            old(self).input_active && key == Key::Backspace ==> text_erased(
                *old(self),
                *final(self),
                r,
            ),
            !old(self).input_active && key == Key::Backspace ==> r == Action::Nothing && same_data(
                *old(self),
                *final(self),
            ) && same_mode(*old(self), *final(self)),
            key == Key::Ctrl('n') || key == Key::Ctrl('p') ==> overlay_list_moved(
                *old(self),
                *final(self),
                key == Key::Ctrl('n'),
            ) && r == Action::Nothing,
            key == Key::Enter ==> submitted(*old(self), *final(self), r),
            key == Key::Ctrl('d') ==> delete_requested(*old(self), *final(self), r),
            !old(self).input_active && key == Key::Char('?') ==> help_toggled(
                *old(self),
                *final(self),
                r,
            ),
            old(self).initiates(key) ==> initiated(*old(self), *final(self), key, r),
            old(self).overlay != Overlay::Closed && !old(self).input_active && ((key is Char && key
                != Key::Char('q') && key != Key::Char('?')) || key == Key::Up || key == Key::Down)
                ==> r == Action::Nothing && same_data(*old(self), *final(self)) && same_mode(
                *old(self),
                *final(self),
            ),
            old(self).input_active && (key == Key::Up || key == Key::Down || key == Key::Other) ==> r
                == Action::Nothing && same_data(*old(self), *final(self)) && same_mode(
                *old(self),
                *final(self),
            ),
            key == Key::Other || (key is Ctrl && key != Key::Ctrl('c') && key != Key::Ctrl('n')
                && key != Key::Ctrl('p') && key != Key::Ctrl('d')) ==> r == Action::Nothing
                && same_data(*old(self), *final(self)) && same_mode(*old(self), *final(self)),
    {
        match key {
            Key::Ctrl(c) => {
                if c == 'c' {
                    Action::Quit
                } else if c == 'n' || c == 'p' {
                    self.handle_list_movement(c == 'n');
                    Action::Nothing
                } else if c == 'd' {
                    self.handle_delete()
                } else {
                    Action::Nothing
                }
            },
            Key::Esc => {
                if self.overlay != Overlay::Closed {
                    self.close();
                    Action::Nothing
                } else {
                    Action::Quit
                }
            },
            Key::Char(c) => {
                if self.input_active {
                    self.type_char(c)
                } else if c == 'q' {
                    if self.overlay != Overlay::Closed {
                        self.close();
                        Action::Nothing
                    } else {
                        Action::Quit
                    }
                } else if c == '?' {
                    self.handle_help()
                } else if self.overlay != Overlay::Closed {
                    Action::Nothing
                } else {
                    self.initiate(key)
                }
            },
            Key::Backspace => {
                if self.input_active {
                    self.erase()
                } else {
                    Action::Nothing
                }
            },
            Key::Enter => self.submit(),
            Key::Up | Key::Down => {
                if self.input_active || self.overlay != Overlay::Closed {
                    Action::Nothing
                } else {
                    self.initiate(key)
                }
            },
            Key::Other => Action::Nothing,
        }
    }

    /// Focuses the Files pane (`to_files`) or the Directories pane on its
    /// first item and clears the other pane's selection.
    pub fn handle_pane_switching(&mut self, to_files: bool)
        requires
            old(self).wf(),
        ensures
            final(self).wf(),
            old(self).overlay != Overlay::Closed ==> *final(self) == *old(self),
            old(self).overlay == Overlay::Closed ==> focus_moved(*old(self), *final(self), to_files),
    {
        if self.overlay != Overlay::Closed {
            return;
        }
        if to_files {
            self.files.selected = Some(0);
            self.dirs.selected = None;
        } else {
            self.dirs.selected = Some(0);
            self.files.selected = None;
        }
    }

    /// Moves the focused pane's cursor forward or backward, wrapping; a pane
    /// of at most one item keeps its cursor.
    pub fn handle_movement(&mut self, forward: bool)
        requires
            old(self).wf(),
        ensures
            final(self).wf(),
            old(self).overlay != Overlay::Closed ==> *final(self) == *old(self),
            old(self).overlay == Overlay::Closed ==> pane_cursor_moved(*old(self), *final(self), forward),
    {
        if self.overlay != Overlay::Closed {
            return;
        }
        if self.files.selected.is_some() {
            if self.files.items.len() > 1 {
                if forward {
                    self.files.next();
                } else {
                    self.files.previous();
                }
            }
        } else if self.dirs.selected.is_some() {
            if self.dirs.items.len() > 1 {
                if forward {
                    self.dirs.next();
                } else {
                    self.dirs.previous();
                }
            }
        }
    }

    /// Opens the Popup for a new file or directory, by the focused pane.
    pub fn handle_new_file(&mut self)
        requires
            old(self).wf(),
        ensures
            final(self).wf(),
            old(self).overlay != Overlay::Closed ==> *final(self) == *old(self),
            old(self).overlay == Overlay::Closed ==> new_entry_opened(*old(self), *final(self)),
    {
        if self.overlay != Overlay::Closed {
            return;
        }
        if self.files.selected.is_some() {
            self.open(Overlay::Popup, Some(Command::CreateFile));
        } else if self.dirs.selected.is_some() {
            self.open(Overlay::Popup, Some(Command::CreateDir));
        }
    }

    /// Opens the Popup to rename the focused entry, its name as the text.
    pub fn handle_rename(&mut self)
        requires
            old(self).wf(),
        ensures
            final(self).wf(),
            old(self).overlay != Overlay::Closed ==> *final(self) == *old(self),
            old(self).overlay == Overlay::Closed ==> rename_opened(*old(self), *final(self)),
    {
        if self.overlay != Overlay::Closed {
            return;
        }
        if self.files.selected.is_some() {
            if let Some(name) = self.files.selected_value() {
                self.open(Overlay::Popup, Some(Command::RenameFile));
                self.text = name;
            }
        } else if self.dirs.selected.is_some() {
            if let Some(name) = self.dirs.selected_value() {
                if !is_parent_name(&name) {
                    self.open(Overlay::Popup, Some(Command::RenameDir));
                    self.text = name;
                }
            }
        }
    }

    /// Opens the fuzzy finder and asks for a search with the typed query.
    pub fn handle_fzf(&mut self) -> (r: Action)
        requires
            old(self).wf(),
        ensures
            final(self).wf(),
            old(self).overlay != Overlay::Closed ==> r == Action::Nothing && *final(self) == *old(
                self,
            ),
            old(self).overlay == Overlay::Closed ==> finder_opened(*old(self), *final(self), r),
    {
        if self.overlay != Overlay::Closed {
            return Action::Nothing;
        }
        self.open(Overlay::FuzzyFinder, Some(Command::ShowFzf));
        self.fzf_results = StatefulList::with_items(Vec::new());
        Action::Search(self.text.clone())
    }

    /// Opens the path navigator.
    pub fn handle_nav(&mut self)
        requires
            old(self).wf(),
        ensures
            final(self).wf(),
            old(self).overlay != Overlay::Closed ==> *final(self) == *old(self),
            old(self).overlay == Overlay::Closed ==> opened(
                *old(self),
                *final(self),
                Overlay::Navigator,
                Some(Command::ShowNav),
                old(self).text@,
            ),
    {
        if self.overlay != Overlay::Closed {
            return;
        }
        self.open(Overlay::Navigator, Some(Command::ShowNav));
    }

    /// Opens the bookmark menu and asks for the bookmark file.
    pub fn handle_bookmark(&mut self) -> (r: Action)
        requires
            old(self).wf(),
        ensures
            final(self).wf(),
            old(self).overlay != Overlay::Closed ==> r == Action::Nothing && *final(self) == *old(
                self,
            ),
            old(self).overlay == Overlay::Closed ==> r == Action::LoadBookmarks && opened(
                *old(self),
                *final(self),
                Overlay::BookmarkMenu,
                Some(Command::Bookmark),
                old(self).text@,
            ),
    {
        if self.overlay != Overlay::Closed {
            return Action::Nothing;
        }
        self.open(Overlay::BookmarkMenu, Some(Command::Bookmark));
        Action::LoadBookmarks
    }

    /// Asks for the focused file's extraction when it is a recognised archive.
    pub fn extract(&self) -> (r: Action)
        ensures
            extract_requested(*self, *self, r),
    {
        if self.files.selected.is_some() {
            if let Some(name) = self.files.selected_value() {
                let tar = ends_with(name.as_str(), ".tar.gz");
                let zip = ends_with(name.as_str(), ".zip");
                if tar {
                    return Action::Extract(name, ArchiveKind::TarGz);
                } else if zip {
                    return Action::Extract(name, ArchiveKind::Zip);
                }
            }
        }
        Action::Nothing
    }

    /// Asks for the selected directory entry, else the selected file, to be
    /// staged.
    pub fn add_to_selected(&self) -> (r: Action)
        ensures
            stage_requested(*self, *self, r),
    {
        if self.dirs.selected.is_some() {
            if let Some(name) = self.dirs.selected_value() {
                return Action::Stage(name);
            }
        } else if let Some(name) = self.files.selected_value() {
            return Action::Stage(name);
        }
        Action::Nothing
    }

    /// Opens the operations menu when a pane has a selection.
    pub fn open_ops_menu(&mut self)
        requires
            old(self).wf(),
        ensures
            final(self).wf(),
            old(self).overlay != Overlay::Closed ==> *final(self) == *old(self),
            old(self).overlay == Overlay::Closed ==> ops_opened(*old(self), *final(self)),
    {
        if self.overlay != Overlay::Closed {
            return;
        }
        if self.files.selected.is_some() || self.dirs.selected.is_some() {
            self.open(Overlay::OperationsMenu, None);
        }
    }

    fn initiate(&mut self, key: Key) -> (r: Action)
        requires
            old(self).wf(),
            old(self).initiates(key),
        ensures
            final(self).wf(),
            initiated(*old(self), *final(self), key, r),
    {
        if key == Key::Char('1') || key == Key::Char('2') {
            self.handle_pane_switching(key == Key::Char('1'));
            Action::Nothing
        } else if key == Key::Char('j') || key == Key::Down || key == Key::Char('k') || key
            == Key::Up {
            self.handle_movement(key == Key::Char('j') || key == Key::Down);
            Action::Nothing
        } else if key == Key::Char('n') {
            self.handle_new_file();
            Action::Nothing
        } else if key == Key::Char('r') {
            self.handle_rename();
            Action::Nothing
        } else if key == Key::Char('w') {
            self.handle_fzf()
        } else if key == Key::Char('f') {
            self.handle_nav();
            Action::Nothing
        } else if key == Key::Char('z') {
            Action::AddBookmark
        } else if key == Key::Char('b') {
            self.handle_bookmark()
        } else if key == Key::Char('x') {
            self.extract()
        } else if key == Key::Char('c') {
            self.add_to_selected()
        } else if key == Key::Char('p') {
            self.open_ops_menu();
            Action::Nothing
        } else {
            Action::Nothing
        }
    }

    /// Opens the directory of the selected fuzzy result, closing the finder.
    pub fn handle_open_fzf_result(&mut self) -> (r: Action)
        requires
            old(self).wf(),
        ensures
            final(self).wf(),
            fzf_result_opened(*old(self), *final(self), r),
    {
        match self.fzf_results.selected_value() {
            Some(path) => {
                let dir = parent_of(path.as_str());
                self.close();
                self.fzf_results.selected = None;
                Action::OpenLocation(dir)
            },
            None => Action::Nothing,
        }
    }

    /// Opens the selected bookmark, closing the menu.
    pub fn handle_open_bookmark(&mut self) -> (r: Action)
        requires
            old(self).wf(),
        ensures
            final(self).wf(),
            bookmark_opened(*old(self), *final(self), r),
    {
        match self.bookmarks.list.selected_value() {
            Some(path) => {
                self.close();
                Action::OpenLocation(path)
            },
            None => Action::Nothing,
        }
    }

    /// Runs the selected entry of the operations menu on the staged paths.
    pub fn handle_paste_or_move(&mut self) -> (r: Action)
        requires
            old(self).wf(),
        ensures
            final(self).wf(),
            ops_run(*old(self), *final(self), r),
    {
        match self.ops_menu.selected {
            None => {
                self.close();
                Action::Nothing
            },
            Some(i) => {
                let r = if i == 0 || i == 1 {
                    let kept = paths_to_transfer(&self.selection, &self.all_files);
                    let paths = paths_to_transfer(&kept, &self.all_dirs);
                    if i == 0 {
                        Action::Transfer(TransferOp::Copy, paths)
                    } else {
                        Action::Transfer(TransferOp::Move, paths)
                    }
                } else {
                    Action::Refresh
                };
                self.close();
                self.selection = Vec::new();
                r
            },
        }
    }

    /// Enter outside the list overlays: in text entry, carries out the
    /// pending command with the text; with nothing open, asks to enter the
    /// focused directory entry; otherwise does nothing.
    pub fn handle_submit(&mut self) -> (r: Action)
        requires
            old(self).wf(),
        ensures
            final(self).wf(),
            submit_handled(*old(self), *final(self), r),
    {
        if self.input_active {
            self.submit_text()
        } else if self.overlay == Overlay::Closed {
            self.enter_directory()
        } else {
            Action::Nothing
        }
    }

    /// Carries out the pending command with the typed text and closes the
    /// text entry.
    fn submit_text(&mut self) -> (r: Action)
        requires
            old(self).wf(),
            old(self).input_active,
        ensures
            final(self).wf(),
            text_submitted(*old(self), *final(self), r),
    {
        let text = self.text.clone();
        let r = if self.pending == Some(Command::CreateFile) {
            Action::CreateFile(text)
        } else if self.pending == Some(Command::CreateDir) {
            Action::CreateDir(text)
        } else if self.pending == Some(Command::RenameFile) {
            match self.files.selected_value() {
                Some(n) => Action::Rename(n, text),
                None => Action::Nothing,
            }
        } else if self.pending == Some(Command::RenameDir) {
            match self.dirs.selected_value() {
                Some(n) => Action::Rename(n, text),
                None => Action::Nothing,
            }
        } else {
            Action::ChangeDir(text)
        };
        self.close();
        r
    }

    /// Asks to enter the focused directory entry, or its parent for `../`.
    pub fn enter_directory(&self) -> (r: Action)
        ensures
            dir_entered(*self, *self, r),
    {
        if self.files.selected.is_none() && self.dirs.selected.is_some() {
            match self.dirs.selected_value() {
                Some(name) => {
                    if is_parent_name(&name) {
                        Action::ParentDir
                    } else {
                        Action::EnterDir(name)
                    }
                },
                None => Action::Nothing,
            }
        } else {
            Action::Nothing
        }
    }

    fn submit(&mut self) -> (r: Action)
        requires
            old(self).wf(),
        ensures
            final(self).wf(),
            submitted(*old(self), *final(self), r),
    {
        if self.overlay == Overlay::FuzzyFinder {
            self.handle_open_fzf_result()
        } else if self.overlay == Overlay::BookmarkMenu {
            self.handle_open_bookmark()
        } else if self.overlay == Overlay::OperationsMenu {
            self.handle_paste_or_move()
        } else {
            self.handle_submit()
        }
    }

    fn relist(&mut self, raw_files: &Vec<String>, raw_dirs: &Vec<String>)
        requires
            old(self).wf(),
        ensures
            final(self).wf(),
            relisted(*old(self), *final(self), views(raw_files@), views(raw_dirs@)),
            final(self).files.selected == old(self).files.selected,
            final(self).dirs.selected == old(self).dirs.selected,
    {
        self.files.items = list_files(raw_files, self.show_hidden);
        self.dirs.items = list_dirs(raw_dirs, self.show_hidden, &self.excluded);
        self.all_files = copy_strings(raw_files);
        self.all_dirs = copy_strings(raw_dirs);
    }

    /// Rebuilds the file list from the working directory's files, keeping
    /// the Files pane's selection within it.
    pub fn update_files(&mut self, raw_files: &Vec<String>)
        requires
            old(self).wf(),
        ensures
            final(self).wf(),
            is_file_listing(views(final(self).files.items@), views(raw_files@), old(self).show_hidden),
            final(self).files.selected == clamped(
                old(self).files.selected,
                final(self).files.items@.len(),
            ),
            final(self).dirs == old(self).dirs,
            views(final(self).all_files@) == views(raw_files@),
            final(self).all_dirs == old(self).all_dirs,
            same_but_listings(*old(self), *final(self)),
    {
        self.files.items = list_files(raw_files, self.show_hidden);
        self.files.selected = clamp_selection(self.files.selected, self.files.items.len());
        self.all_files = copy_strings(raw_files);
    }

    /// Rebuilds the directory list from the working directory's
    /// subdirectories, keeping the Directories pane's selection within it.
    pub fn update_dirs(&mut self, raw_dirs: &Vec<String>)
        requires
            old(self).wf(),
        ensures
            final(self).wf(),
            is_dir_listing(
                views(final(self).dirs.items@),
                views(raw_dirs@),
                old(self).show_hidden,
                views(old(self).excluded@),
            ),
            final(self).dirs.selected == clamped(
                old(self).dirs.selected,
                final(self).dirs.items@.len(),
            ),
            final(self).files == old(self).files,
            views(final(self).all_dirs@) == views(raw_dirs@),
            final(self).all_files == old(self).all_files,
            same_but_listings(*old(self), *final(self)),
    {
        self.dirs.items = list_dirs(raw_dirs, self.show_hidden, &self.excluded);
        self.dirs.selected = clamp_selection(self.dirs.selected, self.dirs.items.len());
        self.all_dirs = copy_strings(raw_dirs);
    }

    /// Rebuilds both listings from the working directory's files and
    /// subdirectories, keeping each pane's selection within its new list.
    pub fn refresh(&mut self, raw_files: &Vec<String>, raw_dirs: &Vec<String>)
        requires
            old(self).wf(),
        ensures
            final(self).wf(),
            relisted(*old(self), *final(self), views(raw_files@), views(raw_dirs@)),
            final(self).files.selected == clamped(
                old(self).files.selected,
                final(self).files.items@.len(),
            ),
            final(self).dirs.selected == clamped(
                old(self).dirs.selected,
                final(self).dirs.items@.len(),
            ),
    {
        self.update_files(raw_files);
        self.update_dirs(raw_dirs);
    }

    /// After a change of directory from the Directories pane: rebuilds both
    /// listings, keeps the Files pane's selection within its new list (the
    /// last item, or none when it is empty), and puts the Directories cursor
    /// on its first entry.
    pub fn finish_enter_dir(&mut self, raw_files: &Vec<String>, raw_dirs: &Vec<String>)
        requires
            old(self).wf(),
        ensures
            final(self).wf(),
            relisted(*old(self), *final(self), views(raw_files@), views(raw_dirs@)),
            final(self).files.selected == clamped(
                old(self).files.selected,
                final(self).files.items@.len(),
            ),
            final(self).dirs.selected == Some(0usize),
    {
        self.relist(raw_files, raw_dirs);
        self.files.selected = clamp_selection(self.files.selected, self.files.items.len());
        self.dirs.selected = Some(0);
    }

    /// After opening a fuzzy result's directory or a bookmark: rebuilds both
    /// listings and focuses the Files pane on its first item.
    pub fn finish_open_location(&mut self, raw_files: &Vec<String>, raw_dirs: &Vec<String>)
        requires
            old(self).wf(),
        ensures
            final(self).wf(),
            relisted(*old(self), *final(self), views(raw_files@), views(raw_dirs@)),
            final(self).files.selected == Some(0usize),
            final(self).dirs.selected is None,
    {
        self.relist(raw_files, raw_dirs);
        self.files.selected = Some(0);
        self.dirs.selected = None;
    }

    /// Replaces the fuzzy finder's results by the candidates that match the
    /// typed query, with nothing selected.
    pub fn set_search_results(&mut self, candidates: &Vec<Candidate>)
        requires
            old(self).wf(),
        ensures
            final(self).wf(),
            views(final(self).fzf_results.items@) == search_results(
                candidates@.map_values(|c: Candidate| c@),
                old(self).text@,
                old(self).show_hidden,
                views(old(self).excluded@),
            ),
            final(self).fzf_results.selected is None,
            same_mode(*old(self), *final(self)),
            final(self).files == old(self).files,
            final(self).dirs == old(self).dirs,
            final(self).bookmarks == old(self).bookmarks,
            final(self).ops_menu == old(self).ops_menu,
            final(self).selection == old(self).selection,
            final(self).show_hidden == old(self).show_hidden,
            final(self).excluded == old(self).excluded,
            final(self).cur_dir == old(self).cur_dir,
            final(self).all_files == old(self).all_files,
            final(self).all_dirs == old(self).all_dirs,
    {
        let found = search(candidates, self.text.as_str(), self.show_hidden, &self.excluded);
        self.fzf_results = StatefulList::with_items(found);
    }

    /// Bookmarks a directory unless it is bookmarked already; returns
    /// whether it was added, that is whether to append it to the file.
    pub fn add_bookmark(&mut self, path: String) -> (added: bool)
        requires
            old(self).wf(),
        ensures
            final(self).wf(),
            added == !old(self).bookmarks.paths().contains(path@),
            final(self).bookmarks.paths() == if added {
                old(self).bookmarks.paths().push(path@)
            } else {
                old(self).bookmarks.paths()
            },
            same_but_bookmarks(*old(self), *final(self)),
    {
        self.bookmarks.add(path)
    }

    /// Merges the bookmark file's text into the bookmarks, sorted.
    pub fn read_bookmark(&mut self, file: &str)
        requires
            old(self).wf(),
        ensures
            final(self).wf(),
            is_loaded(final(self).bookmarks.paths(), old(self).bookmarks.paths(), lines_of(file@)),
            final(self).bookmarks.list.selected == if final(self).bookmarks.paths().len() > 0 {
                Some(0usize)
            } else {
                old(self).bookmarks.list.selected
            },
            same_but_bookmarks(*old(self), *final(self)),
    {
        let lines = parse_bookmark_file(file);
        self.bookmarks.load(&lines);
    }

    /// Deletes the bookmark at `index` when its path is still a directory;
    /// returns whether it was deleted, that is whether to rewrite the file.
    pub fn delete_bookmark(&mut self, index: usize, still_dir: bool) -> (removed: bool)
        requires
            old(self).wf(),
        ensures
            final(self).wf(),
            removed == (still_dir && index < old(self).bookmarks.paths().len()),
            removed ==> final(self).bookmarks.paths() == old(self).bookmarks.paths().remove(
                index as int,
            ),
            !removed ==> final(self).bookmarks == old(self).bookmarks,
            same_but_bookmarks(*old(self), *final(self)),
    {
        self.bookmarks.delete(index, still_dir)
    }

    /// The bookmark file's full text for the current bookmarks.
    pub fn bookmark_file_text(&self) -> (r: String)
        ensures
            r@ == file_text(self.bookmarks.paths()),
    {
        let items = &self.bookmarks.list.items;
        let mut out = String::new();
        let mut i: usize = 0;
        while i < items.len()
            invariant
                i <= items.len(),
                out@ == file_text(views(items@).subrange(0, i as int)),
            decreases items.len() - i,
        {
            assert(views(items@).subrange(0, i + 1).drop_last() =~= views(items@).subrange(0, i as int));
            let line = out.concat(items[i].as_str());
            out = line.concat("\n");
            proof {
                reveal_strlit("\n");
                assert("\n"@ =~= seq!['\n']);
            }
            i = i + 1;
        }
        assert(views(items@).subrange(0, i as int) =~= views(items@));
        out
    }

    /// Stages an absolute path for a copy or a move; returns whether it was
    /// added (it is not when already staged).
    pub fn stage_path(&mut self, path: String) -> (added: bool)
        requires
            old(self).wf(),
        ensures
            final(self).wf(),
            added == !views(old(self).selection@).contains(path@),
            views(final(self).selection@) == staged_after(views(old(self).selection@), path@),
            same_mode(*old(self), *final(self)),
            final(self).files == old(self).files,
            final(self).dirs == old(self).dirs,
            final(self).fzf_results == old(self).fzf_results,
            final(self).bookmarks == old(self).bookmarks,
            final(self).ops_menu == old(self).ops_menu,
            final(self).show_hidden == old(self).show_hidden,
            final(self).excluded == old(self).excluded,
            final(self).cur_dir == old(self).cur_dir,
            final(self).all_files == old(self).all_files,
            final(self).all_dirs == old(self).all_dirs,
    {
        stage(&mut self.selection, path)
    }

    /// Records the working directory after a successful change.
    pub fn set_cur_dir(&mut self, dir: String)
        requires
            old(self).wf(),
        ensures
            final(self).wf(),
            final(self).cur_dir@ == dir@,
            final(self).all_files == old(self).all_files,
            final(self).all_dirs == old(self).all_dirs,
            same_mode(*old(self), *final(self)),
            final(self).files == old(self).files,
            final(self).dirs == old(self).dirs,
            final(self).fzf_results == old(self).fzf_results,
            final(self).bookmarks == old(self).bookmarks,
            final(self).ops_menu == old(self).ops_menu,
            final(self).selection == old(self).selection,
            final(self).show_hidden == old(self).show_hidden,
            final(self).excluded == old(self).excluded,
    {
        self.cur_dir = dir;
    }

    /// Applies the configuration; the listings follow at the next refresh.
    pub fn set_config(&mut self, show_hidden: bool, excluded: Vec<String>)
        requires
            old(self).wf(),
        ensures
            final(self).wf(),
            final(self).show_hidden == show_hidden,
            final(self).excluded@ == excluded@,
            same_mode(*old(self), *final(self)),
            final(self).files == old(self).files,
            final(self).dirs == old(self).dirs,
            final(self).fzf_results == old(self).fzf_results,
            final(self).bookmarks == old(self).bookmarks,
            final(self).ops_menu == old(self).ops_menu,
            final(self).selection == old(self).selection,
            final(self).cur_dir == old(self).cur_dir,
            final(self).all_files == old(self).all_files,
            final(self).all_dirs == old(self).all_dirs,
    {
        self.show_hidden = show_hidden;
        self.excluded = excluded;
    }

    /// Appends a typed character to the text entry.
    fn type_char(&mut self, c: char) -> (r: Action)
        requires
            old(self).wf(),
            old(self).input_active,
        ensures
            final(self).wf(),
            text_typed(*old(self), *final(self), c, r),
    {
        push_char(&mut self.text, c);
        if self.overlay == Overlay::FuzzyFinder {
            Action::Search(self.text.clone())
        } else {
            Action::Nothing
        }
    }

    /// Removes the text entry's last character.
    fn erase(&mut self) -> (r: Action)
        requires
            old(self).wf(),
            old(self).input_active,
        ensures
            final(self).wf(),
            text_erased(*old(self), *final(self), r),
    {
        let _ = pop_char(&mut self.text);
        if self.overlay == Overlay::FuzzyFinder {
            Action::Search(self.text.clone())
        } else {
            Action::Nothing
        }
    }

    /// Moves the cursor of the open list overlay, wrapping.
    pub fn handle_list_movement(&mut self, forward: bool)
        requires
            old(self).wf(),
        ensures
            final(self).wf(),
            overlay_list_moved(*old(self), *final(self), forward),
    {
        if self.overlay == Overlay::FuzzyFinder {
            self.fzf_results.step_wrapping(forward);
        } else if self.overlay == Overlay::BookmarkMenu {
            self.bookmarks.list.step_wrapping(forward);
        } else if self.overlay == Overlay::OperationsMenu {
            self.ops_menu.step_wrapping(forward);
        }
    }

    /// Toggles the help overlay: closes it when open, opens it when nothing
    /// is open.
    pub fn handle_help(&mut self) -> (r: Action)
        requires
            old(self).wf(),
            !old(self).input_active,
        ensures
            final(self).wf(),
            help_toggled(*old(self), *final(self), r),
    {
        if self.overlay == Overlay::Help {
            self.close();
        } else if self.overlay == Overlay::Closed {
            self.open(Overlay::Help, Some(Command::ShowHelp));
        }
        Action::Nothing
    }

    /// Asks for the selected bookmark's deletion in the bookmark menu, or,
    /// with nothing open, for the focused entry to go to the trash.
    pub fn handle_delete(&mut self) -> (r: Action)
        requires
            old(self).wf(),
        ensures
            final(self).wf(),
            delete_requested(*old(self), *final(self), r),
    {
        if self.overlay == Overlay::BookmarkMenu {
            match self.bookmarks.list.selected {
                Some(i) => match self.bookmarks.list.selected_value() {
                    Some(path) => Action::DeleteBookmark(i, path),
                    None => Action::Nothing,
                },
                None => Action::Nothing,
            }
        } else if self.overlay != Overlay::Closed {
            Action::Nothing
        } else if self.files.selected.is_some() {
            match self.files.selected_value() {
                Some(name) => Action::Trash(name, true),
                None => Action::Nothing,
            }
        } else if self.dirs.selected.is_some() {
            match self.dirs.selected_value() {
                Some(name) => {
                    if is_parent_name(&name) {
                        Action::Nothing
                    } else {
                        Action::Trash(name, false)
                    }
                },
                None => Action::Nothing,
            }
        } else {
            Action::Nothing
        }
    }
}

/// In a well-formed session the directory list starts with the parent entry
/// and holds it nowhere else. Every operation of the session keeps it
/// well-formed, so this holds after any sequence of refreshes.
pub proof fn lemma_parent_entry_first(s: App)
    requires
        s.wf(),
    ensures
        s.dirs.items@.len() >= 1,
        s.dirs.items@[0]@ == parent_entry(),
        forall|k: int| 1 <= k < s.dirs.items@.len() ==> s.dirs.items@[k]@ != parent_entry(),
{
    let v = views(s.dirs.items@);
    assert(v[0] == s.dirs.items@[0]@);
    assert forall|k: int| 1 <= k < s.dirs.items@.len() implies s.dirs.items@[k]@ != parent_entry() by {
        assert(v[k] == s.dirs.items@[k]@);
    }
}

/// After a refresh whose directory listing holds a newly created file, the
/// file list shows it, unless it is a dotfile while hidden entries are not
/// shown.
pub proof fn lemma_created_file_listed(
    a: App,
    b: App,
    raw_files: Seq<Seq<char>>,
    raw_dirs: Seq<Seq<char>>,
    name: Seq<char>,
)
    requires
        relisted(a, b, raw_files, raw_dirs),
        raw_files.contains(name),
        file_kept(name, a.show_hidden),
    ensures
        views(b.files.items@).contains(name),
{
}

/// In a well-formed session, text entry and a pending command each come
/// with an open overlay.
pub proof fn lemma_mode_needs_overlay(s: App)
    requires
        s.wf(),
    ensures
        s.input_active ==> s.overlay != Overlay::Closed,
        s.pending is Some ==> s.overlay != Overlay::Closed,
{
}

} // verus!
