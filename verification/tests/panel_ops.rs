//! State-machine tests that need no filesystem: selection wraparound,
//! mode exclusivity, the inline editor, name ordering and path algebra.

use walker::app::{App, Command, CursorDirection, Event};
use walker::input::Input;
use walker::item::Item;
use walker::listing::{mode_is_dir, name_le, sort_by_name};
use walker::modes::{EditingKind, InputMode, PanelKind};
use walker::paths::{join_path, parent_path};
use walker::table::TableState;
use walker::view::{WalkerState, WalkerView};

fn panel_with(names: &[&str], selected: Option<usize>) -> WalkerView {
    let mut contents: Vec<Item> = Vec::new();
    for n in names {
        contents.push(Item::new().with_name(n));
    }
    WalkerView {
        state: WalkerState {
            current_dir: String::from("/data"),
            directory_table_state: TableState { selected },
            current_contents: contents,
            is_editing: false,
            file_to_edit: Item::new(),
            input_mode: InputMode::Normal,
            text_input: Input::new(),
        },
    }
}

fn selected(wv: &WalkerView) -> Option<usize> {
    wv.directory_table_state().selected()
}

#[test]
fn wraparound_up_from_first_selects_last() {
    let mut wv = panel_with(&["a", "b", "c"], Some(0));
    wv.move_selection_up();
    assert_eq!(selected(&wv), Some(2));
}

#[test]
fn wraparound_down_from_last_selects_first() {
    let mut wv = panel_with(&["a", "b", "c"], Some(2));
    wv.move_selection_down();
    assert_eq!(selected(&wv), Some(0));
}

#[test]
fn wraparound_up_then_down_returns_everywhere() {
    for n in 1..5usize {
        let names: Vec<String> = (0..n).map(|k| format!("f{}", k)).collect();
        let refs: Vec<&str> = names.iter().map(|s| s.as_str()).collect();
        for i in 0..n {
            let mut wv = panel_with(&refs, Some(i));
            wv.move_selection_up();
            wv.move_selection_down();
            assert_eq!(selected(&wv), Some(i));
            wv.move_selection_down();
            wv.move_selection_up();
            assert_eq!(selected(&wv), Some(i));
        }
    }
}

#[test]
fn wraparound_single_entry_wraps_to_itself() {
    let mut wv = panel_with(&["only"], Some(0));
    wv.move_selection_up();
    assert_eq!(selected(&wv), Some(0));
    wv.move_selection_down();
    assert_eq!(selected(&wv), Some(0));
}

#[test]
fn plain_moves_step_by_one() {
    let mut wv = panel_with(&["a", "b", "c"], Some(1));
    wv.move_selection_up();
    assert_eq!(selected(&wv), Some(0));
    let mut wv = panel_with(&["a", "b", "c"], Some(1));
    wv.move_selection_down();
    assert_eq!(selected(&wv), Some(2));
}

#[test]
fn moves_without_selection_do_nothing() {
    let mut wv = panel_with(&["a", "b"], None);
    wv.move_selection_up();
    assert_eq!(selected(&wv), None);
    wv.move_selection_down();
    assert_eq!(selected(&wv), None);
}

#[test]
fn begin_rename_captures_target_and_prefills_editor() {
    let mut wv = panel_with(&["a.txt", "b.txt"], Some(1));
    wv.start_rename_file();
    assert!(wv.is_editing());
    assert!(wv.input_mode().is_renaming());
    assert!(!wv.input_mode().is_copy());
    assert_eq!(wv.state.file_to_edit.name, "b.txt");
    assert_eq!(wv.text_input().value(), "b.txt");
    assert_eq!(wv.text_input().cursor(), 5);
}

#[test]
fn begin_copy_captures_target_without_prefill() {
    let mut wv = panel_with(&["a.txt", "b.txt"], Some(0));
    wv.initiate_file_copy();
    assert!(wv.is_editing());
    assert!(wv.input_mode().is_copy());
    assert_eq!(wv.state.file_to_edit.name, "a.txt");
    assert_eq!(wv.text_input().value(), "");
}

#[test]
fn begin_ops_without_selection_do_nothing() {
    let mut wv = panel_with(&["a.txt"], None);
    wv.start_rename_file();
    assert!(!wv.is_editing());
    assert!(matches!(wv.input_mode(), InputMode::Normal));
    wv.initiate_file_copy();
    assert!(!wv.is_editing());
    assert!(matches!(wv.input_mode(), InputMode::Normal));
}

#[test]
fn mode_exclusivity_from_rename_rejects_copy() {
    let mut wv = panel_with(&["a.txt", "b.txt"], Some(0));
    wv.start_rename_file();
    assert!(wv.input_mode().is_renaming());
    wv.initiate_file_copy();
    assert!(wv.input_mode().is_renaming());
    assert_eq!(wv.state.file_to_edit.name, "a.txt");
    wv.start_rename_file();
    assert!(wv.input_mode().is_renaming());
    wv.set_input_mode(InputMode::Normal);
    assert!(matches!(wv.input_mode(), InputMode::Normal));
    assert!(!wv.is_editing());
    wv.initiate_file_copy();
    assert!(wv.input_mode().is_copy());
}

#[test]
fn set_input_mode_rejects_editing_modes() {
    let mut wv = panel_with(&["a.txt"], Some(0));
    wv.set_input_mode(InputMode::Editing(EditingKind::Rename));
    assert!(matches!(wv.input_mode(), InputMode::Normal));
    assert!(!wv.is_editing());
    wv.set_input_mode(InputMode::Editing(EditingKind::Copy));
    assert!(matches!(wv.input_mode(), InputMode::Normal));
}

#[test]
fn set_input_mode_normal_clears_edit_state() {
    let mut wv = panel_with(&["a.txt"], Some(0));
    wv.start_rename_file();
    assert!(wv.is_editing());
    wv.set_input_mode(InputMode::Normal);
    assert!(!wv.is_editing());
    assert_eq!(wv.state.file_to_edit.name, "");
    assert_eq!(wv.text_input().value(), "");
    assert_eq!(wv.text_input().cursor(), 0);
}

#[test]
fn moves_keep_mode() {
    let mut wv = panel_with(&["a", "b"], Some(0));
    wv.move_selection_down();
    assert!(matches!(wv.input_mode(), InputMode::Normal));
    wv.start_rename_file();
    wv.move_selection_down();
    assert!(wv.input_mode().is_renaming());
}

#[test]
fn input_with_value_puts_cursor_at_end() {
    let inp = Input::with_value("hello");
    assert_eq!(inp.value(), "hello");
    assert_eq!(inp.cursor(), 5);
}

#[test]
fn input_insert_at_cursor() {
    let mut inp = Input::with_value("ac");
    inp.cursor_left();
    inp.insert_char('b');
    assert_eq!(inp.value(), "abc");
    assert_eq!(inp.cursor(), 2);
}

#[test]
fn input_delete_back_removes_before_cursor() {
    let mut inp = Input::with_value("abc");
    inp.delete_back();
    assert_eq!(inp.value(), "ab");
    assert_eq!(inp.cursor(), 2);
    inp.cursor_left();
    inp.cursor_left();
    inp.delete_back();
    assert_eq!(inp.value(), "ab");
    assert_eq!(inp.cursor(), 0);
}

#[test]
fn input_cursor_stops_at_both_ends() {
    let mut inp = Input::with_value("xy");
    inp.cursor_right();
    assert_eq!(inp.cursor(), 2);
    inp.cursor_left();
    inp.cursor_left();
    inp.cursor_left();
    assert_eq!(inp.cursor(), 0);
}

#[test]
fn input_default_is_empty() {
    let inp = Input::default();
    assert_eq!(inp.value(), "");
    assert_eq!(inp.cursor(), 0);
}

#[test]
fn mode_predicates() {
    assert!(!InputMode::Normal.is_copy());
    assert!(!InputMode::Normal.is_renaming());
    assert!(InputMode::Editing(EditingKind::Copy).is_copy());
    assert!(!InputMode::Editing(EditingKind::Copy).is_renaming());
    assert!(InputMode::Editing(EditingKind::Rename).is_renaming());
    assert!(!InputMode::Editing(EditingKind::Rename).is_copy());
}

#[test]
fn item_builders_set_single_fields() {
    let it = Item::new()
        .with_name("x")
        .with_size(7)
        .with_perms("-rw-r--r--")
        .with_modified_date(123)
        .is_dir(true);
    assert_eq!(it.name, "x");
    assert_eq!(it.size, 7);
    assert_eq!(it.perms, "-rw-r--r--");
    assert_eq!(it.modified_date, 123);
    assert!(it.is_dir);
    let blank = Item::default();
    assert_eq!(blank.name, "");
    assert_eq!(blank.size, 0);
    assert!(!blank.is_dir);
}

#[test]
fn mode_is_dir_reads_type_nibble() {
    assert!(mode_is_dir(0o040755));
    assert!(!mode_is_dir(0o100644));
    assert!(!mode_is_dir(0o120777));
}

#[test]
fn name_le_is_lexicographic() {
    assert!(name_le("a", "b"));
    assert!(!name_le("b", "a"));
    assert!(name_le("a", "ab"));
    assert!(!name_le("ab", "a"));
    assert!(name_le("same", "same"));
    assert!(name_le("", "a"));
    assert!(name_le("A", "a"));
}

#[test]
fn sort_by_name_orders_and_keeps_items() {
    let v = vec![
        Item::new().with_name("c").with_size(3),
        Item::new().with_name("a").with_size(1),
        Item::new().with_name("b").with_size(2),
    ];
    let s = sort_by_name(v);
    let names: Vec<&str> = s.iter().map(|i| i.name.as_str()).collect();
    assert_eq!(names, vec!["a", "b", "c"]);
    let sizes: Vec<u64> = s.iter().map(|i| i.size).collect();
    assert_eq!(sizes, vec![1, 2, 3]);
}

#[test]
fn join_path_inserts_one_separator() {
    assert_eq!(join_path("/data", "x"), "/data/x");
    assert_eq!(join_path("/", "x"), "/x");
    assert_eq!(join_path("", "x"), "/x");
}

#[test]
fn parent_path_walks_up_and_stops_at_root() {
    assert_eq!(parent_path("/a/b"), Some(String::from("/a")));
    assert_eq!(parent_path("/a"), Some(String::from("/")));
    assert_eq!(parent_path("/"), None);
    assert_eq!(parent_path("plain"), None);
    assert_eq!(parent_path(""), None);
}

#[test]
fn app_routes_to_active_panel_and_switch_is_pure() {
    let mut app = App::new();
    assert!(matches!(app.active_panel(), PanelKind::Main));
    *app.main_panel_mut() = panel_with(&["a", "b"], Some(0));
    app.move_selection_down();
    assert_eq!(app.directory_table_state().selected(), Some(1));
    let quit = app.handle_command(Command::SwitchPanel);
    assert!(!quit);
    assert!(matches!(app.active_panel(), PanelKind::Secondary));
    assert_eq!(app.main_panel().directory_table_state().selected(), Some(1));
    assert_eq!(app.directory_table_state().selected(), None);
    app.handle_command(Command::SwitchPanel);
    assert!(matches!(app.active_panel(), PanelKind::Main));
    assert_eq!(app.directory_table_state().selected(), Some(1));
}

#[test]
fn quit_command_only_quits_in_normal_mode() {
    let mut app = App::new();
    *app.main_panel_mut() = panel_with(&["a"], Some(0));
    app.handle_command(Command::BeginRename);
    assert!(app.input_mode().is_renaming());
    assert!(!app.handle_command(Command::Quit));
    assert!(app.input_mode().is_renaming());
    app.handle_command(Command::CancelEdit);
    assert!(matches!(app.input_mode(), InputMode::Normal));
    assert!(app.handle_command(Command::Quit));
}

#[test]
fn text_commands_ignored_in_normal_mode() {
    let mut app = App::new();
    *app.main_panel_mut() = panel_with(&["a"], Some(0));
    app.handle_command(Command::TextInsert('z'));
    assert_eq!(app.text_input().value(), "");
    app.handle_command(Command::TextDeleteBack);
    app.handle_command(Command::SubmitEdit);
    assert!(matches!(app.input_mode(), InputMode::Normal));
    assert_eq!(app.directory_table_state().selected(), Some(0));
}

#[test]
fn text_commands_edit_the_buffer_while_renaming() {
    let mut app = App::new();
    *app.main_panel_mut() = panel_with(&["old"], Some(0));
    app.handle_command(Command::BeginRename);
    assert_eq!(app.text_input().value(), "old");
    app.handle_command(Command::TextDeleteBack);
    assert_eq!(app.text_input().value(), "ol");
    app.handle_command(Command::TextCursorMove(CursorDirection::Left));
    app.handle_command(Command::TextInsert('w'));
    assert_eq!(app.text_input().value(), "owl");
    app.handle_command(Command::TextCursorMove(CursorDirection::Right));
    app.handle_command(Command::TextInsert('s'));
    assert_eq!(app.text_input().value(), "owls");
}

#[test]
fn begin_commands_rejected_while_editing() {
    let mut app = App::new();
    *app.main_panel_mut() = panel_with(&["a", "b"], Some(0));
    app.handle_command(Command::BeginCopy);
    assert!(app.input_mode().is_copy());
    app.handle_command(Command::BeginRename);
    assert!(app.input_mode().is_copy());
    app.handle_command(Command::BeginCopy);
    assert!(app.input_mode().is_copy());
    assert_eq!(app.main_panel().state.file_to_edit.name, "a");
}

#[test]
fn submit_in_copy_mode_changes_nothing() {
    let mut app = App::new();
    *app.main_panel_mut() = panel_with(&["a"], Some(0));
    app.handle_command(Command::BeginCopy);
    app.handle_command(Command::SubmitEdit);
    assert!(app.input_mode().is_copy());
    assert_eq!(app.main_panel().state.file_to_edit.name, "a");
}

#[test]
fn event_carries_input_or_tick() {
    let e: Event<u32> = Event::Input(7);
    assert!(matches!(e, Event::Input(7)));
    let t: Event<u32> = Event::Tick;
    assert!(matches!(t, Event::Tick));
}

#[test]
fn fresh_browser_is_empty() {
    let app = App::new();
    assert!(matches!(app.active_panel(), PanelKind::Main));
    for panel in [app.main_panel(), app.action_panel()] {
        assert_eq!(panel.current_dir(), "");
        assert!(panel.current_contents().is_empty());
        assert_eq!(panel.directory_table_state().selected(), None);
        assert!(matches!(panel.input_mode(), InputMode::Normal));
        assert!(!panel.is_editing());
        assert_eq!(panel.text_input().value(), "");
        assert_eq!(panel.text_input().cursor(), 0);
        assert_eq!(panel.state().file_to_edit.name, "");
    }
    let d = App::default();
    assert_eq!(d.main_panel().current_dir(), "");
    assert_eq!(d.action_panel().current_dir(), "");
}

#[test]
fn fresh_panel_is_blank() {
    let wv = WalkerView::new();
    assert_eq!(wv.current_dir(), "");
    assert!(wv.current_contents().is_empty());
    assert_eq!(wv.directory_table_state().selected(), None);
    assert!(!wv.is_editing());
    assert!(matches!(wv.input_mode(), InputMode::Normal));
    let dv = WalkerView::default();
    assert_eq!(dv.current_dir(), "");
}
