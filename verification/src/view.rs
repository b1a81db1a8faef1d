//! One browsing panel: the current directory, its loaded entry list, the
//! selection cursor, and the rename / copy edit-mode state machine. Every
//! operation is total: with no selection, no matching mode or no parent to
//! go to it leaves the panel exactly as it was, and a failed directory
//! listing or rename never corrupts the loaded state.

use vstd::prelude::*;
use crate::input::Input;
use crate::item::Item;
use crate::listing::{
    component_name, component_names, get_contents, path_is_dir, rename_path, sorted_by_name,
    ListingError,
};
use crate::modes::{EditingKind, InputMode};
use crate::paths::{
    canonical_dir, join_of, join_path, lemma_parent_of_join, parent_of, parent_path,
};
use crate::table::TableState;

verus! {

/// Everything one panel owns.
#[derive(Debug)]
pub struct WalkerState {
    /// The directory whose children are loaded; the last path that a
    /// successful load was asked for.
    pub current_dir: String,
    /// The selection cursor into `current_contents`.
    pub directory_table_state: TableState,
    /// The loaded children of `current_dir`, name-sorted.
    pub current_contents: Vec<Item>,
    /// Whether an inline edit is in progress; mirrors `input_mode`.
    pub is_editing: bool,
    /// The entry the edit targets; blank while `input_mode` is `Normal`.
    pub file_to_edit: Item,
    /// Normal browsing, or which kind of edit is in progress.
    pub input_mode: InputMode,
    /// The inline text editor used while renaming.
    pub text_input: Input,
}

impl WalkerState {
    /// The panel's invariant: a selection points into the loaded list,
    /// the list is name-sorted, the editor's cursor is inside its text,
    /// and the edit fields agree with the mode — normal browsing holds no
    /// leftover target, an edit in progress has the editing flag up.
    pub open spec fn wf(self) -> bool {
        &&& (self.directory_table_state.selected matches Some(i) ==> i
            < self.current_contents@.len())
        &&& sorted_by_name(self.current_contents@)
        &&& self.text_input.wf()
        &&& (self.input_mode is Normal ==> !self.is_editing && self.file_to_edit.is_blank())
        &&& (self.input_mode matches InputMode::Editing(_) ==> self.is_editing)
    }

    /// The state a panel is created with: no directory, no entries, no
    /// selection, normal browsing, a blank target and an empty editor.
    pub open spec fn is_fresh(self) -> bool {
        &&& self.current_dir@ == Seq::<char>::empty()
        &&& self.current_contents@ == Seq::<Item>::empty()
        &&& self.directory_table_state.selected is None
        &&& self.input_mode is Normal
        &&& !self.is_editing
        &&& self.file_to_edit.is_blank()
        &&& self.text_input.text@.len() == 0
        &&& self.text_input.cursor == 0
    }
}

impl Default for WalkerState {
    /// A fresh panel's state; see [`WalkerState::is_fresh`].
    fn default() -> (r: WalkerState)
        ensures
            r.wf(),
            r.is_fresh(),
    {
        WalkerState {
            current_dir: String::new(),
            directory_table_state: TableState::new(),
            current_contents: Vec::new(),
            is_editing: false,
            file_to_edit: Item::new(),
            input_mode: InputMode::Normal,
            text_input: Input::new(),
        }
    }
}

/// The selection a fresh listing gets: its first entry when it has one.
pub open spec fn initial_selection_of(post: WalkerState) -> bool {
    if post.current_contents@.len() > 0 {
        post.directory_table_state.selected == Some(0usize)
    } else {
        post.directory_table_state.selected is None
    }
}

/// The index one step up the ring of `n` entries: a step back, wrapping
/// from the first entry to the last.
pub open spec fn up_index(i: int, n: int) -> int {
    if i > 0 {
        i - 1
    } else {
        n - 1
    }
}

/// The index one step down the ring of `n` entries: a step forward,
/// wrapping from the last entry to the first.
pub open spec fn down_index(i: int, n: int) -> int {
    if i + 1 < n {
        i + 1
    } else {
        0
    }
}

/// The edit-mode fields are untouched.
pub open spec fn edit_fields_unchanged(pre: WalkerState, post: WalkerState) -> bool {
    &&& post.is_editing == pre.is_editing
    &&& post.file_to_edit == pre.file_to_edit
    &&& post.input_mode == pre.input_mode
    &&& post.text_input == pre.text_input
}

/// The directory, its listing and the selection are untouched.
pub open spec fn nav_fields_unchanged(pre: WalkerState, post: WalkerState) -> bool {
    &&& post.current_dir == pre.current_dir
    &&& post.current_contents == pre.current_contents
    &&& post.directory_table_state == pre.directory_table_state
}

/// An upward selection move: only the cursor changes, one step up the
/// ring; with nothing selected, nothing happens at all.
pub open spec fn selection_moved_up(pre: WalkerState, post: WalkerState) -> bool {
    &&& edit_fields_unchanged(pre, post)
    &&& post.current_dir == pre.current_dir
    &&& post.current_contents == pre.current_contents
    &&& match pre.directory_table_state.selected {
        None => post.directory_table_state == pre.directory_table_state,
        Some(i) => post.directory_table_state.selected matches Some(j) && j as int == up_index(
            i as int,
            pre.current_contents@.len() as int,
        ),
    }
}

/// A downward selection move: only the cursor changes, one step down the
/// ring; with nothing selected, nothing happens at all.
pub open spec fn selection_moved_down(pre: WalkerState, post: WalkerState) -> bool {
    &&& edit_fields_unchanged(pre, post)
    &&& post.current_dir == pre.current_dir
    &&& post.current_contents == pre.current_contents
    &&& match pre.directory_table_state.selected {
        None => post.directory_table_state == pre.directory_table_state,
        Some(i) => post.directory_table_state.selected matches Some(j) && j as int == down_index(
            i as int,
            pre.current_contents@.len() as int,
        ),
    }
}

/// A completed load of directory `dir`: the panel shows `dir`, holds a
/// name-sorted listing of it, every entry named by one path component,
/// with the first entry selected (or nothing when it is empty), and the
/// edit-mode fields are untouched.
pub open spec fn directory_loaded(pre: WalkerState, post: WalkerState, dir: Seq<char>) -> bool {
    &&& post.current_dir@ == dir
    &&& sorted_by_name(post.current_contents@)
    &&& component_names(post.current_contents@)
    &&& initial_selection_of(post)
    &&& edit_fields_unchanged(pre, post)
}

/// A rename edit has begun on entry `i`: the entry is captured as the
/// target, the editor is pre-filled with its name, cursor at the end, and
/// the browsing fields are untouched.
pub open spec fn rename_begun(pre: WalkerState, post: WalkerState, i: int) -> bool {
    &&& nav_fields_unchanged(pre, post)
    &&& post.is_editing
    &&& post.input_mode == InputMode::Editing(EditingKind::Rename)
    &&& post.file_to_edit == pre.current_contents@[i]
    &&& post.text_input.text@ == pre.current_contents@[i].name@
    &&& post.text_input.cursor == pre.current_contents@[i].name@.len()
}

/// A copy edit has begun on entry `i`: the entry is captured as the
/// target; the editor is not pre-filled for a copy.
pub open spec fn copy_begun(pre: WalkerState, post: WalkerState, i: int) -> bool {
    &&& nav_fields_unchanged(pre, post)
    &&& post.is_editing
    &&& post.input_mode == InputMode::Editing(EditingKind::Copy)
    &&& post.file_to_edit == pre.current_contents@[i]
    &&& post.text_input == pre.text_input
}

/// The panel is back in normal browsing: no edit in progress, no leftover
/// target, an empty editor, and the browsing fields untouched.
pub open spec fn edit_left(pre: WalkerState, post: WalkerState) -> bool {
    &&& nav_fields_unchanged(pre, post)
    &&& post.input_mode is Normal
    &&& !post.is_editing
    &&& post.file_to_edit.is_blank()
    &&& post.text_input.text@.len() == 0
    &&& post.text_input.cursor == 0
}

/// What descending into the selected entry does: with nothing selected
/// nothing happens; with entry `i` selected the panel either moved to
/// the joined child path or — when that names no readable directory —
/// stayed exactly as it was.
pub open spec fn child_entered(pre: WalkerState, post: WalkerState) -> bool {
    match pre.directory_table_state.selected {
        None => post == pre,
        Some(i) => post == pre || directory_loaded(
            pre,
            post,
            join_of(pre.current_dir@, pre.current_contents@[i as int].name@),
        ),
    }
}

/// What ascending to the parent does: at the filesystem root nothing
/// happens; otherwise the panel either moved to the parent or — when it
/// could not be listed — stayed exactly as it was.
pub open spec fn parent_entered(pre: WalkerState, post: WalkerState) -> bool {
    match parent_of(pre.current_dir@) {
        None => post == pre,
        Some(p) => post == pre || directory_loaded(pre, post, p),
    }
}

/// What asking to rename does: a rename edit begun on the selected entry
/// when the panel browses normally with a selection, and no change at
/// all otherwise.
pub open spec fn rename_started(pre: WalkerState, post: WalkerState) -> bool {
    if !(pre.input_mode is Normal) {
        post == pre
    } else {
        match pre.directory_table_state.selected {
            None => post == pre,
            Some(i) => rename_begun(pre, post, i as int),
        }
    }
}

/// What asking to copy does: a copy edit begun on the selected entry
/// when the panel browses normally with a selection, and no change at
/// all otherwise.
pub open spec fn copy_started(pre: WalkerState, post: WalkerState) -> bool {
    if !(pre.input_mode is Normal) {
        post == pre
    } else {
        match pre.directory_table_state.selected {
            None => post == pre,
            Some(i) => copy_begun(pre, post, i as int),
        }
    }
}

/// What asking for a mode does: asking for `Normal` leaves any edit;
/// asking for an editing mode is rejected and changes nothing — edits
/// begin only through their dedicated operations.
pub open spec fn mode_set(pre: WalkerState, post: WalkerState, mode: InputMode) -> bool {
    if mode is Normal {
        edit_left(pre, post)
    } else {
        post == pre
    }
}

/// What submitting a rename leaves behind: normal browsing with target
/// and editor cleared, the same directory, and either a freshly loaded
/// listing with its first entry selected or — when the reload failed —
/// the previous listing and selection untouched.
pub open spec fn rename_submitted(pre: WalkerState, post: WalkerState) -> bool {
    &&& post.current_dir == pre.current_dir
    &&& post.input_mode is Normal
    &&& !post.is_editing
    &&& post.file_to_edit.is_blank()
    &&& post.text_input.text@.len() == 0
    &&& ({
        ||| (post.current_contents == pre.current_contents && post.directory_table_state
            == pre.directory_table_state)
        ||| (sorted_by_name(post.current_contents@) && component_names(post.current_contents@)
            && initial_selection_of(post))
    })
}

/// What submitting outside a rename edit or inside one does, as one
/// relation: outside a rename edit nothing happens at all.
pub open spec fn rename_finished(pre: WalkerState, post: WalkerState) -> bool {
    if pre.input_mode == InputMode::Editing(EditingKind::Rename) {
        rename_submitted(pre, post)
    } else {
        post == pre
    }
}

/// Moving the selection up and then down — or down and then up — through
/// a ring of `n` entries returns it to the index it started at, however
/// long the ring is and wherever the selection stood, the two ends
/// included.
pub proof fn lemma_selection_wraparound(i: int, n: int)
    requires
        0 <= i < n,
    ensures
        down_index(up_index(i, n), n) == i,
        up_index(down_index(i, n), n) == i,
{
}

/// Selection wraparound over whole panel states: a panel whose selection
/// is moved up and then down — or down and then up — ends with exactly
/// the selection, listing, directory and edit fields it started with,
/// however long the listing is and wherever the selection stood.
pub proof fn lemma_move_roundtrip(pre: WalkerState, mid: WalkerState, post: WalkerState)
    requires
        pre.wf(),
        (pre.directory_table_state.selected is Some),
        ((selection_moved_up(pre, mid) && selection_moved_down(mid, post)) || (
        selection_moved_down(pre, mid) && selection_moved_up(mid, post))),
    ensures
        post.directory_table_state == pre.directory_table_state,
        post.current_contents == pre.current_contents,
        post.current_dir == pre.current_dir,
        edit_fields_unchanged(pre, post),
{
    match pre.directory_table_state.selected {
        Some(i) => {
            lemma_selection_wraparound(i as int, pre.current_contents@.len() as int);
        },
        None => {},
    }
}

/// Empty-directory selection, first half: a completed load of an empty
/// directory leaves nothing selected.
pub proof fn lemma_empty_listing_selects_nothing(
    pre: WalkerState,
    post: WalkerState,
    dir: Seq<char>,
)
    requires
        directory_loaded(pre, post, dir),
        post.current_contents@.len() == 0,
    ensures
        post.directory_table_state.selected is None,
{
}

/// Empty-directory selection, second half: with nothing selected, the
/// two selection moves and the two begin-edit operations change nothing
/// at all.
pub proof fn lemma_no_selection_noops(s: WalkerState, t: WalkerState)
    requires
        s.directory_table_state.selected is None,
        (selection_moved_up(s, t) || selection_moved_down(s, t) || rename_started(s, t)
            || copy_started(s, t)),
    ensures
        t == s,
{
}

/// Descend-then-ascend over panel states: a panel in a canonically
/// written directory, having descended into its selected entry, ascends
/// — when the parent listing loads — exactly back to the directory it
/// came from. What the reloaded listing then holds is the filesystem's
/// answer, which no contract here pins.
pub proof fn lemma_descend_ascend(pre: WalkerState, mid: WalkerState, post: WalkerState, i: int)
    requires
        canonical_dir(pre.current_dir@),
        component_names(pre.current_contents@),
        0 <= i < pre.current_contents@.len(),
        directory_loaded(pre, mid, join_of(pre.current_dir@, pre.current_contents@[i].name@)),
        parent_entered(mid, post),
    ensures
        post == mid || post.current_dir@ == pre.current_dir@,
{
    assert(component_name(pre.current_contents@[i].name@));
    lemma_parent_of_join(pre.current_dir@, pre.current_contents@[i].name@);
}

/// Parent navigation at the filesystem root: the root is its own top, so
/// ascending from it changes nothing at all.
pub proof fn lemma_parent_at_root_noop(s: WalkerState, t: WalkerState)
    requires
        s.current_dir@ =~= seq!['/'],
        parent_entered(s, t),
    ensures
        t == s,
{
    assert(parent_of(s.current_dir@) is None);
}

/// One browsing panel and its operations.
#[derive(Debug)]
pub struct WalkerView {
    /// The panel's whole state.
    pub state: WalkerState,
}

impl WalkerView {
    /// The panel's invariant; see [`WalkerState::wf`].
    pub open spec fn wf(self) -> bool {
        self.state.wf()
    }

    /// A fresh panel; see [`WalkerState::is_fresh`].
    pub fn new() -> (r: WalkerView)
        ensures
            r.wf(),
            r.state.is_fresh(),
    {
        WalkerView { state: WalkerState::default() }
    }

    /// Points the panel at `dir`. When `dir` names a readable directory
    /// the panel shows its listing with the first entry selected;
    /// otherwise the error says why and the panel is exactly as before.
    pub fn set_current_dir(&mut self, dir: &str) -> (r: Result<(), ListingError>)
        requires
            old(self).wf(),
        ensures
            final(self).wf(),
            r is Err ==> *final(self) == *old(self),
            r is Ok ==> directory_loaded(old(self).state, final(self).state, dir@),
    {
        if !path_is_dir(dir) {
            return Err(ListingError::NotADirectory);
        }
        match get_contents(dir) {
            Err(e) => Err(e),
            Ok(items) => {
                let sel: Option<usize> = if items.len() > 0 {
                    Some(0)
                } else {
                    None
                };
                self.state.current_dir = dir.to_owned();
                self.state.current_contents = items;
                self.state.directory_table_state.select(sel);
                Ok(())
            },
        }
    }

    /// The directory the panel shows.
    pub fn current_dir(&self) -> (r: &String)
        ensures
            r == self.state.current_dir,
    {
        &self.state.current_dir
    }

    /// The loaded listing.
    pub fn current_contents(&self) -> (r: &Vec<Item>)
        ensures
            r == self.state.current_contents,
    {
        &self.state.current_contents
    }

    /// Reloads the listing of the panel's current directory, selecting its
    /// first entry again; on failure the panel is exactly as before.
    pub fn load_dir(&mut self) -> (r: Result<(), ListingError>)
        requires
            old(self).wf(),
        ensures
            final(self).wf(),
            r is Err ==> *final(self) == *old(self),
            r is Ok ==> directory_loaded(
                old(self).state,
                final(self).state,
                old(self).state.current_dir@,
            ),
            final(self).state.current_dir == old(self).state.current_dir,
    {
        match get_contents(self.state.current_dir.as_str()) {
            Err(e) => Err(e),
            Ok(items) => {
                let sel: Option<usize> = if items.len() > 0 {
                    Some(0)
                } else {
                    None
                };
                self.state.current_contents = items;
                self.state.directory_table_state.select(sel);
                Ok(())
            },
        }
    }

    /// The panel's whole state, read-only.
    pub fn state(&self) -> (r: &WalkerState)
        ensures
            r == self.state,
    {
        &self.state
    }

    /// The panel's whole state, writable; a caller that changes it is on
    /// the hook for [`WalkerState::wf`] before using the panel again.
    pub fn state_mut(&mut self) -> (r: &mut WalkerState)
        ensures
            *r == old(self).state,
            final(self).state == *final(r),
    {
        &mut self.state
    }

    /// The selection cursor.
    pub fn directory_table_state(&self) -> (r: &TableState)
        ensures
            r == self.state.directory_table_state,
    {
        &self.state.directory_table_state
    }

    /// The selection cursor, writable.
    pub fn directory_table_state_mut(&mut self) -> (r: &mut TableState)
        ensures
            *r == old(self).state.directory_table_state,
            final(self).state == (WalkerState {
                directory_table_state: *final(r),
                ..old(self).state
            }),
    {
        &mut self.state.directory_table_state
    }

    /// Replaces the selection cursor as it stands.
    pub fn set_directory_table_state(&mut self, state: TableState)
        ensures
            final(self).state == (WalkerState { directory_table_state: state, ..old(self).state }),
    {
        self.state.directory_table_state = state;
    }

    /// The inline text editor.
    pub fn text_input(&self) -> (r: &Input)
        ensures
            r == self.state.text_input,
    {
        &self.state.text_input
    }

    /// The inline text editor, writable.
    pub fn text_input_mut(&mut self) -> (r: &mut Input)
        ensures
            *r == old(self).state.text_input,
            final(self).state == (WalkerState { text_input: *final(r), ..old(self).state }),
    {
        &mut self.state.text_input
    }

    /// Whether an inline edit is in progress.
    pub fn is_editing(&self) -> (r: bool)
        ensures
            r == self.state.is_editing,
    {
        self.state.is_editing
    }

    /// The panel's mode.
    pub fn input_mode(&self) -> (r: InputMode)
        ensures
            r == self.state.input_mode,
    {
        self.state.input_mode
    }

    /// Moves the selection one entry up, wrapping from the first entry to
    /// the last; with nothing selected it does nothing.
    pub fn move_selection_up(&mut self)
        requires
            old(self).wf(),
        ensures
            final(self).wf(),
            selection_moved_up(old(self).state, final(self).state),
    {
        if let Some(selected) = self.state.directory_table_state.selected() {
            if selected > 0 {
                self.state.directory_table_state.select(Some(selected - 1));
            } else {
                self.state.directory_table_state.select(
                    Some(self.state.current_contents.len() - 1),
                );
            }
        }
    }

    /// Moves the selection one entry down, wrapping from the last entry to
    /// the first; with nothing selected it does nothing.
    pub fn move_selection_down(&mut self)
        requires
            old(self).wf(),
        ensures
            final(self).wf(),
            selection_moved_down(old(self).state, final(self).state),
    {
        if let Some(selected) = self.state.directory_table_state.selected() {
            if selected >= self.state.current_contents.len() - 1 {
                self.state.directory_table_state.select(Some(0));
            } else {
                self.state.directory_table_state.select(Some(selected + 1));
            }
        }
    }

    /// Descends into the selected entry: its path is the current directory
    /// joined with its name, and when that names a readable directory the
    /// panel moves there, first entry selected. With nothing selected, or
    /// when the selected entry is no directory, nothing changes.
    pub fn move_into_child_dir(&mut self)
        requires
            old(self).wf(),
        ensures
            final(self).wf(),
            child_entered(old(self).state, final(self).state),
    {
        if let Some(idx) = self.state.directory_table_state.selected() {
            let full_path = join_path(
                self.state.current_dir.as_str(),
                self.state.current_contents[idx].name.as_str(),
            );
            let _ = self.set_current_dir(full_path.as_str());
        }
    }

    /// Ascends to the parent of the current directory; at the filesystem
    /// root, or when the parent cannot be listed, nothing changes.
    pub fn move_upto_parent_dir(&mut self)
        requires
            old(self).wf(),
        ensures
            final(self).wf(),
            parent_entered(old(self).state, final(self).state),
    {
        if let Some(parent) = parent_path(self.state.current_dir.as_str()) {
            let _ = self.set_current_dir(parent.as_str());
        }
    }

    /// Begins a rename of the selected entry: captures it as the edit
    /// target and opens the editor pre-filled with its name, cursor at the
    /// end. Only normal browsing with a selection can begin one; in any
    /// other state nothing changes.
    pub fn start_rename_file(&mut self)
        requires
            old(self).wf(),
        ensures
            final(self).wf(),
            rename_started(old(self).state, final(self).state),
    {
        if !matches!(self.state.input_mode, InputMode::Normal) {
            return;
        }
        if let Some(idx) = self.state.directory_table_state.selected() {
            let selected_item = &self.state.current_contents[idx];
            let target = Item {
                name: selected_item.name.clone(),
                size: selected_item.size,
                perms: selected_item.perms.clone(),
                modified_date: selected_item.modified_date,
                is_dir: selected_item.is_dir,
            };
            self.state.text_input = Input::with_value(target.name.as_str());
            self.state.file_to_edit = target;
            self.state.input_mode = InputMode::Editing(EditingKind::Rename);
            self.state.is_editing = true;
        }
    }

    /// Leaves an edit: back to normal browsing, the target and the editor
    /// cleared. Editing modes cannot be entered this way — asking for one
    /// changes nothing; edits begin only through [`Self::start_rename_file`]
    /// and [`Self::initiate_file_copy`].
    pub fn set_input_mode(&mut self, input_mode: InputMode)
        requires
            old(self).wf(),
        ensures
            final(self).wf(),
            mode_set(old(self).state, final(self).state, input_mode),
    {
        match input_mode {
            InputMode::Normal => {
                self.state.file_to_edit = Item::new();
                self.state.input_mode = input_mode;
                self.state.is_editing = false;
                self.state.text_input = Input::new();
            },
            InputMode::Editing(_) => {},
        }
    }

    /// Submits the rename the editor holds: asks the filesystem to rename
    /// the target to the edited name inside the current directory, then —
    /// renamed or not — returns to normal browsing and reloads the
    /// listing so it reflects what the filesystem now holds. Outside a
    /// rename edit nothing changes. The result says whether the
    /// filesystem performed the rename; a failed reload leaves the
    /// previous listing and selection untouched.
    pub fn rename_file(&mut self) -> (renamed: bool)
        requires
            old(self).wf(),
        ensures
            final(self).wf(),
            rename_finished(old(self).state, final(self).state),
            !(old(self).state.input_mode == InputMode::Editing(EditingKind::Rename)) ==> !renamed,
    {
        if !self.state.input_mode.is_renaming() {
            return false;
        }
        let new_name = self.state.text_input.value();
        let old_path = join_path(
            self.state.current_dir.as_str(),
            self.state.file_to_edit.name.as_str(),
        );
        let new_path = join_path(self.state.current_dir.as_str(), new_name.as_str());
        let renamed = rename_path(old_path.as_str(), new_path.as_str());
        self.state.file_to_edit = Item::new();
        self.state.input_mode = InputMode::Normal;
        self.state.is_editing = false;
        self.state.text_input = Input::new();
        let _ = self.load_dir();
        renamed
    }

    /// Begins a copy of the selected entry: captures it as the edit
    /// target and enters copy mode, which tells the browser to present
    /// the second panel as a destination picker. Only normal browsing
    /// with a selection can begin one; in any other state nothing
    /// changes.
    pub fn initiate_file_copy(&mut self)
        requires
            old(self).wf(),
        ensures
            final(self).wf(),
            copy_started(old(self).state, final(self).state),
    {
        if !matches!(self.state.input_mode, InputMode::Normal) {
            return;
        }
        if let Some(idx) = self.state.directory_table_state.selected() {
            let selected_item = &self.state.current_contents[idx];
            let target = Item {
                name: selected_item.name.clone(),
                size: selected_item.size,
                perms: selected_item.perms.clone(),
                modified_date: selected_item.modified_date,
                is_dir: selected_item.is_dir,
            };
            self.state.file_to_edit = target;
            self.state.input_mode = InputMode::Editing(EditingKind::Copy);
            self.state.is_editing = true;
        }
    }
}

impl Default for WalkerView {
    /// A fresh panel; see [`WalkerState::is_fresh`].
    fn default() -> (r: WalkerView)
        ensures
            r.wf(),
            r.state.is_fresh(),
    {
        WalkerView::new()
    }
}

} // verus!
