//! The closed set of intents the store accepts, grouped by the domain
//! they target.  Every action carries all the data needed to apply it;
//! the dispatcher never re-queries the interface that produced it.

use vstd::prelude::*;

use crate::file_system::FileSystemItem;

verus! {

/// The two navigation columns.
#[derive(Clone, Copy, Debug, PartialEq, Eq, Structural)]
pub enum PanelSide {
    Left,
    Right,
}

/// A cross-reference targeting an action at one tab of one panel.
#[derive(Clone, Debug)]
pub struct PanelInfo {
    pub path: String,
    pub tab: usize,
    pub side: PanelSide,
}

/// Tab-domain intents.
#[derive(Clone, Debug)]
pub enum TabAction {
    Next,
    Previous,
    SelectNext,
    SelectPrev,
    ClearSelection,
    ReloadTab { panel_side: PanelSide, path: String },
}

/// Directory-domain intents.
#[derive(Clone, Debug)]
pub enum DirectoryAction {
    Open { panel: PanelInfo, in_new_tab: bool },
    Delete { panel: PanelInfo, is_empty: bool },
    Move { from: PanelInfo, to: PanelInfo },
    Copy { from: PanelInfo, to: PanelInfo },
}

/// File-domain intents.
#[derive(Clone, Debug)]
pub enum FileAction {
    Open { panel: PanelInfo },
    Delete { panel: PanelInfo },
    Move { from: PanelInfo, to: PanelInfo },
    Copy { from: PanelInfo, to: PanelInfo },
}

/// Symlink-domain intents.
#[derive(Clone, Debug)]
pub enum SymlinkAction {
    Open { panel: PanelInfo, in_new_tab: bool },
    Delete { panel: PanelInfo },
}

/// Search-domain intents, each targeting one tab of one panel.
#[derive(Clone, Debug)]
pub enum SearchAction {
    Start { tab: usize, panel_side: PanelSide },
    Stop { tab: usize, panel_side: PanelSide },
    Input { tab: usize, panel_side: PanelSide, phrase: String },
    ApplySearch { tab: usize, panel_side: PanelSide },
}

/// A blocking overlay; at most one is active, and while it is, normal
/// navigation input is intercepted.
#[derive(Clone, Debug)]
pub enum ModalType {
    MessageboxModal(String),
    RenameModal { panel_side: PanelSide, panel_tab: usize, item: FileSystemItem },
    CreateModal {
        item_index: Option<usize>,
        panel_side: PanelSide,
        panel_tab: usize,
        panel_tab_path: String,
    },
}

/// Application-domain intents.
#[derive(Clone, Debug)]
pub enum AppAction {
    ShowModal(ModalType),
    CloseModal,
}

/// One intent consumed by the store.
#[derive(Clone, Debug)]
pub enum FileManagerActions {
    App(AppAction),
    File(FileAction),
    Directory(DirectoryAction),
    Symlink(SymlinkAction),
    Tab(TabAction),
    Search(SearchAction),
}

} // verus!
