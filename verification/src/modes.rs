//! The browser's small closed state spaces: which kind of inline edit is in
//! progress, whether a panel is in normal browsing or editing mode, and which
//! of the two panels commands are routed to.

use vstd::prelude::*;

verus! {

/// The two inline edits a panel can be in the middle of.
#[derive(Copy, Clone, Debug, PartialEq, Eq, Structural)]
pub enum EditingKind {
    Rename,
    Copy,
}

/// A panel's mode: normal browsing, or an inline edit of the given kind.
///
/// A panel in `Editing(_)` always carries the entry that the edit targets;
/// that pairing is stated by [`crate::view::WalkerState::wf`].
#[derive(Copy, Clone, Debug, PartialEq, Eq, Structural)]
pub enum InputMode {
    Normal,
    Editing(EditingKind),
}

/// Which of the browser's two panels is receiving commands.
#[derive(Copy, Clone, Debug, PartialEq, Eq, Structural)]
pub enum PanelKind {
    Main,
    Secondary,
}

impl InputMode {
    /// True exactly when a copy-destination edit is in progress.
    pub fn is_copy(&self) -> (r: bool)
        ensures
            r == (*self == InputMode::Editing(EditingKind::Copy)),
    {
        matches!(*self, InputMode::Editing(EditingKind::Copy))
    }

    /// True exactly when a rename edit is in progress.
    pub fn is_renaming(&self) -> (r: bool)
        ensures
            r == (*self == InputMode::Editing(EditingKind::Rename)),
    {
        matches!(*self, InputMode::Editing(EditingKind::Rename))
    }
}

} // verus!
