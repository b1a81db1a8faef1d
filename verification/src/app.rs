//! The browser: two panels — the main one and a secondary one used as a
//! copy-destination picker — and the routing that sends every decoded
//! command to whichever panel is active. The inactive panel is never
//! touched by a routed operation; switching panels is a pure reassignment
//! of the active tag.

use vstd::prelude::*;
use crate::input::{deleted_back, inserted, moved_left, moved_right, Input};
use crate::item::Item;
use crate::listing::ListingError;
use crate::modes::{EditingKind, InputMode, PanelKind};
use crate::table::TableState;
use crate::view::{
    child_entered, copy_started, edit_left, mode_set, nav_fields_unchanged, parent_entered,
    rename_finished, rename_started, rename_submitted, selection_moved_down, selection_moved_up,
    WalkerState, WalkerView,
};

verus! {

/// A message from the surrounding event loop: a decoded input event, or a
/// periodic redraw tick.
#[derive(Clone, Debug)]
pub enum Event<I> {
    /// A decoded input event.
    Input(I),
    /// A periodic tick with no input attached.
    Tick,
}

/// Which way a cursor-move command points.
#[derive(Copy, Clone, Debug, PartialEq, Eq, Structural)]
pub enum CursorDirection {
    Left,
    Right,
}

/// One decoded command for the browser, as the event loop hands them in.
#[derive(Copy, Clone, Debug, PartialEq, Eq, Structural)]
pub enum Command {
    /// Move the selection one entry up.
    MoveUp,
    /// Move the selection one entry down.
    MoveDown,
    /// Descend into the selected entry.
    EnterChild,
    /// Ascend to the parent directory.
    GoToParent,
    /// Begin renaming the selected entry.
    BeginRename,
    /// Begin copying the selected entry.
    BeginCopy,
    /// Type one character into the inline editor.
    TextInsert(char),
    /// Delete the character before the editor's cursor.
    TextDeleteBack,
    /// Move the editor's cursor.
    TextCursorMove(CursorDirection),
    /// Submit the edit in progress.
    SubmitEdit,
    /// Abandon the edit in progress.
    CancelEdit,
    /// Route commands to the other panel.
    SwitchPanel,
    /// Leave the browser.
    Quit,
}

/// The browser's whole state: both panels and the active tag.
#[derive(Debug)]
pub struct State {
    /// Which panel routed commands go to.
    pub active_panel: PanelKind,
    /// The main browsing panel.
    pub main_view: WalkerView,
    /// The secondary panel, presented as a copy-destination picker.
    pub action_view: WalkerView,
}

/// The other one of the two panels.
pub open spec fn other_panel(k: PanelKind) -> PanelKind {
    match k {
        PanelKind::Main => PanelKind::Secondary,
        PanelKind::Secondary => PanelKind::Main,
    }
}

impl State {
    /// Both panels hold their invariant.
    pub open spec fn wf(self) -> bool {
        self.main_view.wf() && self.action_view.wf()
    }

    /// The state of the panel the tag `k` names.
    pub open spec fn panel(self, k: PanelKind) -> WalkerState {
        match k {
            PanelKind::Main => self.main_view.state,
            PanelKind::Secondary => self.action_view.state,
        }
    }

    /// The state of the panel receiving commands.
    pub open spec fn active(self) -> WalkerState {
        self.panel(self.active_panel)
    }

    /// The state of the panel not receiving commands.
    pub open spec fn inactive(self) -> WalkerState {
        self.panel(other_panel(self.active_panel))
    }
}

impl Default for State {
    /// Two fresh panels, the main one active; see
    /// [`WalkerState::is_fresh`].
    fn default() -> (r: State)
        ensures
            r.wf(),
            r.active_panel == PanelKind::Main,
            r.main_view.state.is_fresh(),
            r.action_view.state.is_fresh(),
    {
        State {
            active_panel: PanelKind::Main,
            main_view: WalkerView::new(),
            action_view: WalkerView::new(),
        }
    }
}

/// What one routed command does to the browser. Switching panels touches
/// nothing but the active tag; every other command leaves the inactive
/// panel and the tag alone and acts on the active panel as
/// [`command_effect_on_panel`] says.
pub open spec fn command_effect(pre: State, post: State, cmd: Command, quit: bool) -> bool {
    if cmd == Command::SwitchPanel {
        &&& post.main_view == pre.main_view
        &&& post.action_view == pre.action_view
        &&& post.active_panel == other_panel(pre.active_panel)
        &&& !quit
    } else {
        &&& post.active_panel == pre.active_panel
        &&& post.inactive() == pre.inactive()
        &&& command_effect_on_panel(pre.active(), post.active(), cmd, quit)
    }
}

/// What one command does to the panel it is routed to. In normal
/// browsing only the quit, navigation and begin-edit commands do
/// anything; while an edit is in progress only cancel, submit, the text
/// commands and the navigation commands do — in particular, while one
/// edit is in progress the other kind cannot begin, and the quit command
/// is not acted on.
pub open spec fn command_effect_on_panel(
    a0: WalkerState,
    a1: WalkerState,
    cmd: Command,
    quit: bool,
) -> bool {
    match a0.input_mode {
        InputMode::Normal => {
            &&& quit == (cmd == Command::Quit)
            &&& match cmd {
                Command::MoveUp => selection_moved_up(a0, a1),
                Command::MoveDown => selection_moved_down(a0, a1),
                Command::EnterChild => child_entered(a0, a1),
                Command::GoToParent => parent_entered(a0, a1),
                Command::BeginRename => rename_started(a0, a1),
                Command::BeginCopy => copy_started(a0, a1),
                _ => a1 == a0,
            }
        },
        InputMode::Editing(kind) => {
            &&& !quit
            &&& match cmd {
                Command::MoveUp => selection_moved_up(a0, a1),
                Command::MoveDown => selection_moved_down(a0, a1),
                Command::EnterChild => child_entered(a0, a1),
                Command::GoToParent => parent_entered(a0, a1),
                Command::CancelEdit => edit_left(a0, a1),
                Command::TextInsert(c) => text_only_changed(a0, a1) && inserted(
                    a0.text_input,
                    a1.text_input,
                    c,
                ),
                Command::TextDeleteBack => text_only_changed(a0, a1) && deleted_back(
                    a0.text_input,
                    a1.text_input,
                ),
                Command::TextCursorMove(d) => text_only_changed(a0, a1) && match d {
                    CursorDirection::Left => moved_left(a0.text_input, a1.text_input),
                    CursorDirection::Right => moved_right(a0.text_input, a1.text_input),
                },
                Command::SubmitEdit => match kind {
                    EditingKind::Rename => rename_submitted(a0, a1),
                    EditingKind::Copy => a1 == a0,
                },
                _ => a1 == a0,
            }
        },
    }
}

/// Only the inline editor changed; the browsing fields, the mode, the
/// editing flag and the captured target are untouched.
pub open spec fn text_only_changed(pre: WalkerState, post: WalkerState) -> bool {
    &&& nav_fields_unchanged(pre, post)
    &&& post.input_mode == pre.input_mode
    &&& post.is_editing == pre.is_editing
    &&& post.file_to_edit == pre.file_to_edit
}

/// Mode exclusivity, as the command dispatch guarantees it: from normal
/// browsing only the two begin-edit commands can change the routed-to
/// panel's mode, and while a rename edit is in progress a begin-copy
/// command is rejected outright — the panel does not change at all until
/// the mode has returned to normal.
pub proof fn lemma_mode_exclusivity(pre: State, post: State, cmd: Command, quit: bool)
    requires
        command_effect(pre, post, cmd, quit),
    ensures
        (pre.active().input_mode is Normal && cmd != Command::BeginRename && cmd
            != Command::BeginCopy) ==> (post.panel(pre.active_panel).input_mode is Normal),
        (pre.active().input_mode == InputMode::Editing(EditingKind::Rename) && cmd
            == Command::BeginCopy) ==> (post.panel(pre.active_panel) == pre.active()),
        (pre.active().input_mode == InputMode::Editing(EditingKind::Rename) && cmd
            == Command::BeginRename) ==> (post.panel(pre.active_panel) == pre.active()),
        (pre.active().input_mode == InputMode::Editing(EditingKind::Copy) && (cmd
            == Command::BeginRename || cmd == Command::BeginCopy)) ==> (post.panel(
            pre.active_panel,
        ) == pre.active()),
{
}

/// The browser: both panels plus the routing of every operation to the
/// active one.
#[derive(Debug)]
pub struct App {
    /// The browser's whole state.
    pub state: State,
}

impl App {
    /// Both panels hold their invariant.
    pub open spec fn wf(self) -> bool {
        self.state.wf()
    }

    /// A fresh browser: two fresh panels, the main one active; see
    /// [`WalkerState::is_fresh`].
    pub fn new() -> (r: App)
        ensures
            r.wf(),
            r.state.active_panel == PanelKind::Main,
            r.state.main_view.state.is_fresh(),
            r.state.action_view.state.is_fresh(),
    {
        App { state: State::default() }
    }

    /// The panel receiving commands, read-only.
    fn get_active_view(&self) -> (r: &WalkerView)
        ensures
            r.state == self.state.active(),
    {
        match self.state.active_panel {
            PanelKind::Main => &self.state.main_view,
            PanelKind::Secondary => &self.state.action_view,
        }
    }

    /// The panel receiving commands, writable; whatever the caller does
    /// to it is what happens to the active panel, and the inactive panel
    /// and the active tag stay as they are.
    fn get_active_view_mut(&mut self) -> (r: &mut WalkerView)
        ensures
            r.state == old(self).state.active(),
            final(self).state.active() == final(r).state,
            final(self).state.inactive() == old(self).state.inactive(),
            final(self).state.active_panel == old(self).state.active_panel,
    {
        match self.state.active_panel {
            PanelKind::Main => &mut self.state.main_view,
            PanelKind::Secondary => &mut self.state.action_view,
        }
    }

    /// The main panel, read-only.
    pub fn main_panel(&self) -> (r: &WalkerView)
        ensures
            r == self.state.main_view,
    {
        &self.state.main_view
    }

    /// The main panel, writable.
    pub fn main_panel_mut(&mut self) -> (r: &mut WalkerView)
        ensures
            *r == old(self).state.main_view,
            final(self).state == (State { main_view: *final(r), ..old(self).state }),
    {
        &mut self.state.main_view
    }

    /// The secondary panel, read-only.
    pub fn action_panel(&self) -> (r: &WalkerView)
        ensures
            r == self.state.action_view,
    {
        &self.state.action_view
    }

    /// The secondary panel, writable.
    pub fn action_panel_mut(&mut self) -> (r: &mut WalkerView)
        ensures
            *r == old(self).state.action_view,
            final(self).state == (State { action_view: *final(r), ..old(self).state }),
    {
        &mut self.state.action_view
    }

    /// Which panel commands are routed to.
    pub fn active_panel(&self) -> (r: PanelKind)
        ensures
            r == self.state.active_panel,
    {
        self.state.active_panel
    }

    /// Routes commands to `panel`; a pure reassignment that touches
    /// neither panel's stored state.
    pub fn set_active_panel(&mut self, panel: PanelKind)
        ensures
            final(self).state == (State { active_panel: panel, ..old(self).state }),
    {
        self.state.active_panel = panel;
    }

    /// Points the active panel at `dir`; see
    /// [`WalkerView::set_current_dir`].
    pub fn set_current_dir(&mut self, dir: &str) -> (r: Result<(), ListingError>)
        requires
            old(self).wf(),
        ensures
            final(self).wf(),
            final(self).state.inactive() == old(self).state.inactive(),
            final(self).state.active_panel == old(self).state.active_panel,
            r is Err ==> final(self).state.active() == old(self).state.active(),
            r is Ok ==> crate::view::directory_loaded(
                old(self).state.active(),
                final(self).state.active(),
                dir@,
            ),
    {
        self.get_active_view_mut().set_current_dir(dir)
    }

    /// The active panel's directory.
    pub fn current_dir(&self) -> (r: &String)
        ensures
            r == self.state.active().current_dir,
    {
        self.get_active_view().current_dir()
    }

    /// The active panel's loaded listing.
    pub fn current_contents(&self) -> (r: &Vec<Item>)
        ensures
            r == self.state.active().current_contents,
    {
        self.get_active_view().current_contents()
    }

    /// Replaces the active panel's selection cursor as it stands.
    pub fn set_directory_table_state(&mut self, state: TableState)
        ensures
            final(self).state.active() == (WalkerState {
                directory_table_state: state,
                ..old(self).state.active()
            }),
            final(self).state.inactive() == old(self).state.inactive(),
            final(self).state.active_panel == old(self).state.active_panel,
    {
        self.get_active_view_mut().set_directory_table_state(state);
    }

    /// The active panel's selection cursor.
    pub fn directory_table_state(&self) -> (r: &TableState)
        ensures
            r == self.state.active().directory_table_state,
    {
        self.get_active_view().directory_table_state()
    }

    /// The active panel's selection cursor, writable.
    pub fn directory_table_state_mut(&mut self) -> (r: &mut TableState)
        ensures
            *r == old(self).state.active().directory_table_state,
            final(self).state.active() == (WalkerState {
                directory_table_state: *final(r),
                ..old(self).state.active()
            }),
            final(self).state.inactive() == old(self).state.inactive(),
            final(self).state.active_panel == old(self).state.active_panel,
    {
        self.get_active_view_mut().directory_table_state_mut()
    }

    /// The active panel's inline text editor.
    pub fn text_input(&self) -> (r: &Input)
        ensures
            r == self.state.active().text_input,
    {
        self.get_active_view().text_input()
    }

    /// The active panel's inline text editor, writable.
    pub fn text_input_mut(&mut self) -> (r: &mut Input)
        ensures
            *r == old(self).state.active().text_input,
            final(self).state.active() == (WalkerState {
                text_input: *final(r),
                ..old(self).state.active()
            }),
            final(self).state.inactive() == old(self).state.inactive(),
            final(self).state.active_panel == old(self).state.active_panel,
    {
        self.get_active_view_mut().text_input_mut()
    }

    /// Whether the active panel has an edit in progress.
    pub fn is_editing(&self) -> (r: bool)
        ensures
            r == self.state.active().is_editing,
    {
        self.get_active_view().is_editing()
    }

    /// The active panel's mode.
    pub fn input_mode(&self) -> (r: InputMode)
        ensures
            r == self.state.active().input_mode,
    {
        self.get_active_view().input_mode()
    }

    /// Reloads the active panel's directory; see [`WalkerView::load_dir`].
    pub fn load_dir(&mut self) -> (r: Result<(), ListingError>)
        requires
            old(self).wf(),
        ensures
            final(self).wf(),
            final(self).state.inactive() == old(self).state.inactive(),
            final(self).state.active_panel == old(self).state.active_panel,
            r is Err ==> final(self).state.active() == old(self).state.active(),
            r is Ok ==> crate::view::directory_loaded(
                old(self).state.active(),
                final(self).state.active(),
                old(self).state.active().current_dir@,
            ),
    {
        self.get_active_view_mut().load_dir()
    }

    /// Moves the active panel's selection one entry up, wrapping.
    pub fn move_selection_up(&mut self)
        requires
            old(self).wf(),
        ensures
            final(self).wf(),
            selection_moved_up(old(self).state.active(), final(self).state.active()),
            final(self).state.inactive() == old(self).state.inactive(),
            final(self).state.active_panel == old(self).state.active_panel,
    {
        self.get_active_view_mut().move_selection_up();
    }

    /// Moves the active panel's selection one entry down, wrapping.
    pub fn move_selection_down(&mut self)
        requires
            old(self).wf(),
        ensures
            final(self).wf(),
            selection_moved_down(old(self).state.active(), final(self).state.active()),
            final(self).state.inactive() == old(self).state.inactive(),
            final(self).state.active_panel == old(self).state.active_panel,
    {
        self.get_active_view_mut().move_selection_down();
    }

    /// Descends the active panel into its selected entry.
    pub fn move_into_child_dir(&mut self)
        requires
            old(self).wf(),
        ensures
            final(self).wf(),
            child_entered(old(self).state.active(), final(self).state.active()),
            final(self).state.inactive() == old(self).state.inactive(),
            final(self).state.active_panel == old(self).state.active_panel,
    {
        self.get_active_view_mut().move_into_child_dir();
    }

    /// Ascends the active panel to its parent directory.
    pub fn move_upto_parent_dir(&mut self)
        requires
            old(self).wf(),
        ensures
            final(self).wf(),
            parent_entered(old(self).state.active(), final(self).state.active()),
            final(self).state.inactive() == old(self).state.inactive(),
            final(self).state.active_panel == old(self).state.active_panel,
    {
        self.get_active_view_mut().move_upto_parent_dir();
    }

    /// Begins renaming the active panel's selected entry.
    pub fn start_rename_file(&mut self)
        requires
            old(self).wf(),
        ensures
            final(self).wf(),
            rename_started(old(self).state.active(), final(self).state.active()),
            final(self).state.inactive() == old(self).state.inactive(),
            final(self).state.active_panel == old(self).state.active_panel,
    {
        self.get_active_view_mut().start_rename_file();
    }

    /// Leaves the active panel's edit; see [`WalkerView::set_input_mode`].
    pub fn set_input_mode(&mut self, input_mode: InputMode)
        requires
            old(self).wf(),
        ensures
            final(self).wf(),
            mode_set(old(self).state.active(), final(self).state.active(), input_mode),
            final(self).state.inactive() == old(self).state.inactive(),
            final(self).state.active_panel == old(self).state.active_panel,
    {
        self.get_active_view_mut().set_input_mode(input_mode);
    }

    /// Submits the active panel's rename; see [`WalkerView::rename_file`].
    pub fn rename_file(&mut self) -> (renamed: bool)
        requires
            old(self).wf(),
        ensures
            final(self).wf(),
            rename_finished(old(self).state.active(), final(self).state.active()),
            final(self).state.inactive() == old(self).state.inactive(),
            final(self).state.active_panel == old(self).state.active_panel,
    {
        self.get_active_view_mut().rename_file()
    }

    /// Begins copying the active panel's selected entry.
    pub fn initiate_file_copy(&mut self)
        requires
            old(self).wf(),
        ensures
            final(self).wf(),
            copy_started(old(self).state.active(), final(self).state.active()),
            final(self).state.inactive() == old(self).state.inactive(),
            final(self).state.active_panel == old(self).state.active_panel,
    {
        self.get_active_view_mut().initiate_file_copy();
    }

    /// Acts on one decoded command, routed by the active panel's mode, and
    /// says whether the browser should be left; see [`command_effect`].
    pub fn handle_command(&mut self, cmd: Command) -> (quit: bool)
        requires
            old(self).wf(),
        ensures
            final(self).wf(),
            command_effect(old(self).state, final(self).state, cmd, quit),
    {
        if matches!(cmd, Command::SwitchPanel) {
            let next = match self.active_panel() {
                PanelKind::Main => PanelKind::Secondary,
                PanelKind::Secondary => PanelKind::Main,
            };
            self.set_active_panel(next);
            return false;
        }
        match self.input_mode() {
            InputMode::Normal => {
                match cmd {
                    Command::Quit => {
                        return true;
                    },
                    Command::MoveUp => self.move_selection_up(),
                    Command::MoveDown => self.move_selection_down(),
                    Command::EnterChild => self.move_into_child_dir(),
                    Command::GoToParent => self.move_upto_parent_dir(),
                    Command::BeginRename => self.start_rename_file(),
                    Command::BeginCopy => self.initiate_file_copy(),
                    _ => {},
                }
            },
            InputMode::Editing(kind) => {
                match cmd {
                    Command::MoveUp => self.move_selection_up(),
                    Command::MoveDown => self.move_selection_down(),
                    Command::EnterChild => self.move_into_child_dir(),
                    Command::GoToParent => self.move_upto_parent_dir(),
                    Command::CancelEdit => self.set_input_mode(InputMode::Normal),
                    Command::TextInsert(c) => self.text_input_mut().insert_char(c),
                    Command::TextDeleteBack => self.text_input_mut().delete_back(),
                    Command::TextCursorMove(CursorDirection::Left) => self.text_input_mut()
                        .cursor_left(),
                    Command::TextCursorMove(CursorDirection::Right) => self.text_input_mut()
                        .cursor_right(),
                    Command::SubmitEdit => {
                        if matches!(kind, EditingKind::Rename) {
                            let _ = self.rename_file();
                        }
                    },
                    _ => {},
                }
            },
        }
        false
    }
}

impl Default for App {
    /// A fresh browser; see [`App::new`].
    fn default() -> (r: App)
        ensures
            r.wf(),
            r.state.active_panel == PanelKind::Main,
            r.state.main_view.state.is_fresh(),
            r.state.action_view.state.is_fresh(),
    {
        App::new()
    }
}

} // verus!
