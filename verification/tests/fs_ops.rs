//! Filesystem-backed scenarios: loading real directories, the invalid-path
//! no-op, the rename round trip, empty directories and root navigation.

use std::io::Write;
use std::path::Path;

use walker::app::{App, Command};
use walker::item::Item;
use walker::listing::{get_contents, ListingError};
use walker::modes::InputMode;
use walker::view::WalkerView;

fn mk_file(dir: &Path, name: &str, bytes: &[u8]) {
    let mut f = tempfile::NamedTempFile::new_in(dir).unwrap();
    f.write_all(bytes).unwrap();
    f.persist(dir.join(name)).unwrap();
}

fn mk_subdir(dir: &Path, name: &str) -> tempfile::TempDir {
    tempfile::Builder::new()
        .prefix(name)
        .rand_bytes(0)
        .tempdir_in(dir)
        .unwrap()
}

fn names_of(items: &Vec<Item>) -> Vec<String> {
    items.iter().map(|i| i.name.clone()).collect()
}

#[test]
fn listing_is_name_sorted() {
    let dir = tempfile::tempdir().unwrap();
    mk_file(dir.path(), "banana", b"2");
    mk_file(dir.path(), "apple", b"1");
    mk_file(dir.path(), "cherry", b"3");
    let items = get_contents(dir.path().to_str().unwrap()).unwrap();
    assert_eq!(names_of(&items), vec!["apple", "banana", "cherry"]);
}

#[test]
fn listing_reports_size_and_kind() {
    let dir = tempfile::tempdir().unwrap();
    mk_file(dir.path(), "five", b"12345");
    let _sub = mk_subdir(dir.path(), "sub");
    let items = get_contents(dir.path().to_str().unwrap()).unwrap();
    assert_eq!(names_of(&items), vec!["five", "sub"]);
    assert_eq!(items[0].size, 5);
    assert!(!items[0].is_dir);
    assert!(items[1].is_dir);
    assert!(items[0].modified_date > 0);
    assert_eq!(items[0].perms.len(), 10);
}

#[test]
fn listing_renders_permission_bits() {
    let dir = tempfile::tempdir().unwrap();
    let sub = mk_subdir(dir.path(), "sub");
    rustix::fs::chmod(sub.path(), rustix::fs::Mode::from_raw_mode(0o755)).unwrap();
    mk_file(dir.path(), "plain", b"x");
    rustix::fs::chmod(
        &dir.path().join("plain"),
        rustix::fs::Mode::from_raw_mode(0o644),
    )
    .unwrap();
    let items = get_contents(dir.path().to_str().unwrap()).unwrap();
    assert_eq!(names_of(&items), vec!["plain", "sub"]);
    assert_eq!(items[0].perms, "-rw-r--r--");
    assert_eq!(items[1].perms, "drwxr-xr-x");
}

#[test]
fn get_contents_of_missing_path_is_unreadable() {
    let r = get_contents("/no/such/path/anywhere");
    assert_eq!(r.unwrap_err(), ListingError::Unreadable);
}

#[test]
fn set_current_dir_loads_and_selects_first() {
    let dir = tempfile::tempdir().unwrap();
    mk_file(dir.path(), "b", b"");
    mk_file(dir.path(), "a", b"");
    let mut wv = WalkerView::new();
    assert!(wv.set_current_dir(dir.path().to_str().unwrap()).is_ok());
    assert_eq!(wv.current_dir(), dir.path().to_str().unwrap());
    assert_eq!(names_of(wv.current_contents()), vec!["a", "b"]);
    assert_eq!(wv.directory_table_state().selected(), Some(0));
}

#[test]
fn reload_of_same_directory_is_idempotent() {
    let dir = tempfile::tempdir().unwrap();
    mk_file(dir.path(), "one", b"1");
    mk_file(dir.path(), "two", b"22");
    let d = dir.path().to_str().unwrap();
    let mut wv = WalkerView::new();
    assert!(wv.set_current_dir(d).is_ok());
    let first = wv.current_contents().clone();
    assert!(wv.set_current_dir(d).is_ok());
    let second = wv.current_contents().clone();
    assert_eq!(first, second);
    assert!(wv.load_dir().is_ok());
    assert_eq!(*wv.current_contents(), first);
}

#[test]
fn invalid_directory_is_a_no_op() {
    let dir = tempfile::tempdir().unwrap();
    mk_file(dir.path(), "keep", b"k");
    let d = dir.path().to_str().unwrap();
    let mut wv = WalkerView::new();
    wv.set_current_dir(d).unwrap();
    wv.move_selection_down();
    let dir_before = wv.current_dir().clone();
    let contents_before = wv.current_contents().clone();
    let sel_before = wv.directory_table_state().selected();
    let r = wv.set_current_dir("/definitely/not/a/real/dir");
    assert_eq!(r.unwrap_err(), ListingError::NotADirectory);
    assert_eq!(*wv.current_dir(), dir_before);
    assert_eq!(*wv.current_contents(), contents_before);
    assert_eq!(wv.directory_table_state().selected(), sel_before);
}

#[test]
fn file_path_is_not_a_directory() {
    let dir = tempfile::tempdir().unwrap();
    mk_file(dir.path(), "plain", b"x");
    let file_path = dir.path().join("plain");
    let mut wv = WalkerView::new();
    let r = wv.set_current_dir(file_path.to_str().unwrap());
    assert_eq!(r.unwrap_err(), ListingError::NotADirectory);
    assert_eq!(wv.current_dir(), "");
}

#[test]
fn rename_round_trip() {
    let dir = tempfile::tempdir().unwrap();
    mk_file(dir.path(), "a.txt", b"payload");
    let d = dir.path().to_str().unwrap();
    let mut wv = WalkerView::new();
    wv.set_current_dir(d).unwrap();
    assert_eq!(names_of(wv.current_contents()), vec!["a.txt"]);
    assert_eq!(wv.directory_table_state().selected(), Some(0));
    wv.start_rename_file();
    assert_eq!(wv.text_input().value(), "a.txt");
    for _ in 0..5 {
        wv.text_input_mut().delete_back();
    }
    for c in ['b', '.', 't', 'x', 't'] {
        wv.text_input_mut().insert_char(c);
    }
    assert!(wv.rename_file());
    assert_eq!(names_of(wv.current_contents()), vec!["b.txt"]);
    assert!(matches!(wv.input_mode(), InputMode::Normal));
    assert!(!wv.is_editing());
    assert_eq!(wv.directory_table_state().selected(), Some(0));
    assert_eq!(wv.text_input().value(), "");
}

#[test]
fn rename_outside_rename_mode_does_nothing() {
    let dir = tempfile::tempdir().unwrap();
    mk_file(dir.path(), "a.txt", b"");
    let mut wv = WalkerView::new();
    wv.set_current_dir(dir.path().to_str().unwrap()).unwrap();
    assert!(!wv.rename_file());
    assert_eq!(names_of(wv.current_contents()), vec!["a.txt"]);
    wv.initiate_file_copy();
    assert!(!wv.rename_file());
    assert!(wv.input_mode().is_copy());
    assert_eq!(names_of(wv.current_contents()), vec!["a.txt"]);
}

#[test]
fn empty_directory_selects_nothing_and_ops_are_no_ops() {
    let dir = tempfile::tempdir().unwrap();
    let mut wv = WalkerView::new();
    wv.set_current_dir(dir.path().to_str().unwrap()).unwrap();
    assert!(wv.current_contents().is_empty());
    assert_eq!(wv.directory_table_state().selected(), None);
    wv.move_selection_up();
    wv.move_selection_down();
    assert_eq!(wv.directory_table_state().selected(), None);
    wv.start_rename_file();
    assert!(!wv.is_editing());
    assert!(matches!(wv.input_mode(), InputMode::Normal));
    wv.initiate_file_copy();
    assert!(!wv.is_editing());
    assert!(matches!(wv.input_mode(), InputMode::Normal));
}

#[test]
fn parent_navigation_at_root_is_a_no_op() {
    let mut wv = WalkerView::new();
    wv.set_current_dir("/").unwrap();
    let contents_before = wv.current_contents().clone();
    wv.move_upto_parent_dir();
    assert_eq!(wv.current_dir(), "/");
    assert_eq!(*wv.current_contents(), contents_before);
}

#[test]
fn parent_navigation_goes_up_one_level() {
    let dir = tempfile::tempdir().unwrap();
    let sub = mk_subdir(dir.path(), "inner");
    let mut wv = WalkerView::new();
    wv.set_current_dir(sub.path().to_str().unwrap()).unwrap();
    wv.move_upto_parent_dir();
    assert_eq!(wv.current_dir(), dir.path().to_str().unwrap());
    assert_eq!(names_of(wv.current_contents()), vec!["inner"]);
    assert_eq!(wv.directory_table_state().selected(), Some(0));
}

#[test]
fn enter_child_descends_into_directories_only() {
    let dir = tempfile::tempdir().unwrap();
    let _sub = mk_subdir(dir.path(), "child");
    mk_file(dir.path(), "afile", b"z");
    let d = dir.path().to_str().unwrap();
    let mut wv = WalkerView::new();
    wv.set_current_dir(d).unwrap();
    assert_eq!(names_of(wv.current_contents()), vec!["afile", "child"]);
    wv.move_into_child_dir();
    assert_eq!(wv.current_dir(), d);
    wv.move_selection_down();
    wv.move_into_child_dir();
    assert_eq!(*wv.current_dir(), format!("{}/child", d));
    assert!(wv.current_contents().is_empty());
    assert_eq!(wv.directory_table_state().selected(), None);
}

#[test]
fn descend_then_ascend_returns_to_directory() {
    let dir = tempfile::tempdir().unwrap();
    let _sub = mk_subdir(dir.path(), "inner");
    mk_file(dir.path(), "afile", b"abc");
    let d = dir.path().to_str().unwrap();
    let mut wv = WalkerView::new();
    wv.set_current_dir(d).unwrap();
    let contents_before = wv.current_contents().clone();
    wv.move_selection_down();
    wv.move_into_child_dir();
    assert_eq!(*wv.current_dir(), format!("{}/inner", d));
    wv.move_upto_parent_dir();
    assert_eq!(wv.current_dir(), d);
    assert_eq!(*wv.current_contents(), contents_before);
    assert_eq!(wv.directory_table_state().selected(), Some(0));
}

#[test]
fn rename_through_commands() {
    let dir = tempfile::tempdir().unwrap();
    mk_file(dir.path(), "x", b"");
    let mut app = App::new();
    app.set_current_dir(dir.path().to_str().unwrap()).unwrap();
    app.handle_command(Command::BeginRename);
    app.handle_command(Command::TextDeleteBack);
    app.handle_command(Command::TextInsert('y'));
    app.handle_command(Command::SubmitEdit);
    assert!(matches!(app.input_mode(), InputMode::Normal));
    assert_eq!(names_of(app.current_contents()), vec!["y"]);
    assert_eq!(app.directory_table_state().selected(), Some(0));
}

#[test]
fn panels_are_independent() {
    let dir1 = tempfile::tempdir().unwrap();
    mk_file(dir1.path(), "main-file", b"");
    let dir2 = tempfile::tempdir().unwrap();
    mk_file(dir2.path(), "action-file", b"");
    let d1 = dir1.path().to_str().unwrap();
    let d2 = dir2.path().to_str().unwrap();
    let mut app = App::new();
    app.set_current_dir(d1).unwrap();
    app.handle_command(Command::SwitchPanel);
    assert_eq!(app.current_dir(), "");
    app.set_current_dir(d2).unwrap();
    assert_eq!(names_of(app.current_contents()), vec!["action-file"]);
    app.handle_command(Command::SwitchPanel);
    assert_eq!(app.current_dir(), d1);
    assert_eq!(names_of(app.current_contents()), vec!["main-file"]);
    assert_eq!(app.action_panel().current_dir(), d2);
    assert_eq!(app.main_panel().current_dir(), d1);
}

#[test]
fn load_dir_picks_up_new_entries() {
    let dir = tempfile::tempdir().unwrap();
    mk_file(dir.path(), "first", b"");
    let mut wv = WalkerView::new();
    wv.set_current_dir(dir.path().to_str().unwrap()).unwrap();
    assert_eq!(names_of(wv.current_contents()), vec!["first"]);
    mk_file(dir.path(), "second", b"");
    wv.load_dir().unwrap();
    assert_eq!(names_of(wv.current_contents()), vec!["first", "second"]);
}
