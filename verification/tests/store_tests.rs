use dualpane::actions::{
    AppAction, DirectoryAction, FileAction, FileManagerActions, ModalType, PanelInfo, PanelSide,
    SearchAction, SymlinkAction, TabAction,
};
use dualpane::config::Config;
use dualpane::file_system::{FileItem, FileSystemItem};
use dualpane::state::{AppState, PanelState};
use dualpane::store::{FsEffect, Store};

fn file(name: &str, dir: &str) -> FileSystemItem {
    FileSystemItem::File(FileItem::new(
        name.to_string(),
        format!("{}/{}", dir, name),
        0,
        String::new(),
        0,
        0,
        0,
        1,
        0o644,
        1,
        1,
        "user".to_string(),
        "group".to_string(),
        4096,
        1,
    ))
}

fn fresh_store() -> Store {
    let state = AppState {
        left_panel: PanelState::new(PanelSide::Left, "/src".to_string(), "/src".to_string()),
        right_panel: PanelState::new(PanelSide::Right, "/dst".to_string(), "/dst".to_string()),
        focused_panel: PanelSide::Left,
        modal: None,
        config: Config::default(),
    };
    Store::new(state)
}

fn info(path: &str, tab: usize, side: PanelSide) -> PanelInfo {
    PanelInfo { path: path.to_string(), tab, side }
}

#[test]
fn directory_self_move_raises_modal_and_no_effect() {
    let mut store = fresh_store();
    let handled = store.dispatch(FileManagerActions::Directory(DirectoryAction::Move {
        from: info("/dst", 0, PanelSide::Left),
        to: info("/dst", 0, PanelSide::Right),
    }));
    assert!(handled);
    assert_eq!(store.take_effects().len(), 0);
    match &store.state.modal {
        Some(ModalType::MessageboxModal(m)) => {
            assert_eq!(m, "Can't move \n /dst \n into \n /dst");
        }
        other => panic!("expected a message box, got {:?}", other),
    }
}

#[test]
fn directory_move_to_other_path_emits_rename() {
    let mut store = fresh_store();
    let handled = store.dispatch(FileManagerActions::Directory(DirectoryAction::Move {
        from: info("/src/a", 0, PanelSide::Left),
        to: info("/dst/a", 0, PanelSide::Right),
    }));
    assert!(handled);
    assert!(store.state.modal.is_none());
    let effects = store.take_effects();
    assert_eq!(effects.len(), 1);
    match &effects[0] {
        FsEffect::Rename { from, to } => {
            assert_eq!(from, "/src/a");
            assert_eq!(to, "/dst/a");
        }
        other => panic!("expected a rename, got {:?}", other),
    }
}

#[test]
fn directory_self_copy_raises_modal_and_no_effect() {
    let mut store = fresh_store();
    let handled = store.dispatch(FileManagerActions::Directory(DirectoryAction::Copy {
        from: info("/dst", 0, PanelSide::Left),
        to: info("/dst", 0, PanelSide::Right),
    }));
    assert!(handled);
    assert_eq!(store.take_effects().len(), 0);
    assert!(matches!(store.state.modal, Some(ModalType::MessageboxModal(_))));
}

#[test]
fn empty_directory_delete_uses_non_recursive_removal() {
    let mut store = fresh_store();
    store.dispatch(FileManagerActions::Directory(DirectoryAction::Delete {
        panel: info("/src/empty", 0, PanelSide::Left),
        is_empty: true,
    }));
    let effects = store.take_effects();
    assert_eq!(effects.len(), 1);
    assert!(matches!(&effects[0], FsEffect::DeleteDirEmpty { path } if path == "/src/empty"));
}

#[test]
fn non_empty_directory_delete_uses_recursive_removal() {
    let mut store = fresh_store();
    store.dispatch(FileManagerActions::Directory(DirectoryAction::Delete {
        panel: info("/src/full", 0, PanelSide::Left),
        is_empty: false,
    }));
    let effects = store.take_effects();
    assert_eq!(effects.len(), 1);
    assert!(matches!(&effects[0], FsEffect::DeleteDirRecursive { path } if path == "/src/full"));
}

#[test]
fn tick_with_missing_item_requests_one_reload() {
    let mut store = fresh_store();
    store.finish_reload(
        PanelSide::Left,
        &"/src".to_string(),
        &vec![file("a.txt", "/src"), file("b.txt", "/src")],
    );
    let exists = vec![true, false];
    let reloaded = store.on_tick(PanelSide::Left, &exists);
    assert!(reloaded);
    let effects = store.take_effects();
    assert_eq!(effects.len(), 1);
    assert!(matches!(
        &effects[0],
        FsEffect::Reload { panel_side: PanelSide::Left, path } if path == "/src"
    ));
}

#[test]
fn tick_with_all_items_present_requests_nothing() {
    let mut store = fresh_store();
    store.finish_reload(
        PanelSide::Left,
        &"/src".to_string(),
        &vec![file("a.txt", "/src"), file("b.txt", "/src")],
    );
    let exists = vec![true, true];
    let reloaded = store.on_tick(PanelSide::Left, &exists);
    assert!(!reloaded);
    assert_eq!(store.take_effects().len(), 0);
}

#[test]
fn reload_drops_selection_of_missing_paths() {
    let mut store = fresh_store();
    let a = file("a.txt", "/src");
    let b = file("b.txt", "/src");
    store.finish_reload(PanelSide::Left, &"/src".to_string(), &vec![a, b]);
    {
        let tab = &mut store.state.left_panel.tabs[0];
        tab.toggle_select(0);
        tab.toggle_select(1);
        assert_eq!(tab.selected.len(), 2);
    }
    // b.txt disappeared from the directory
    store.finish_reload(PanelSide::Left, &"/src".to_string(), &vec![file("a.txt", "/src")]);
    let tab = &store.state.left_panel.tabs[0];
    assert_eq!(tab.selected.len(), 1);
    assert_eq!(tab.selected[0].get_name(), "a.txt");
    assert_eq!(tab.items.len(), 1);
}

#[test]
fn reload_only_touches_tabs_on_the_reloaded_path() {
    let mut store = fresh_store();
    store.finish_reload(PanelSide::Left, &"/elsewhere".to_string(), &vec![file("x", "/elsewhere")]);
    assert_eq!(store.state.left_panel.tabs[0].items.len(), 0);
}

#[test]
fn tab_next_wraps_around() {
    let mut store = fresh_store();
    assert_eq!(store.state.left_panel.current_tab, 0);
    let handled = store.dispatch(FileManagerActions::Tab(TabAction::Next));
    assert!(handled);
    // a single tab wraps onto itself
    assert_eq!(store.state.left_panel.current_tab, 0);
}

#[test]
fn select_next_enters_listing_at_top() {
    let mut store = fresh_store();
    store.finish_reload(
        PanelSide::Left,
        &"/src".to_string(),
        &vec![file("a.txt", "/src"), file("b.txt", "/src")],
    );
    assert!(store.state.left_panel.tabs[0].cursor.is_none());
    store.dispatch(FileManagerActions::Tab(TabAction::SelectNext));
    assert_eq!(store.state.left_panel.tabs[0].cursor, Some(0));
    store.dispatch(FileManagerActions::Tab(TabAction::SelectNext));
    assert_eq!(store.state.left_panel.tabs[0].cursor, Some(1));
    // saturates at the last item
    store.dispatch(FileManagerActions::Tab(TabAction::SelectNext));
    assert_eq!(store.state.left_panel.tabs[0].cursor, Some(1));
    store.dispatch(FileManagerActions::Tab(TabAction::SelectPrev));
    assert_eq!(store.state.left_panel.tabs[0].cursor, Some(0));
}

#[test]
fn select_next_on_empty_listing_clears_cursor() {
    let mut store = fresh_store();
    store.dispatch(FileManagerActions::Tab(TabAction::SelectNext));
    assert!(store.state.left_panel.tabs[0].cursor.is_none());
}

#[test]
fn clear_selection_empties_it() {
    let mut store = fresh_store();
    store.finish_reload(PanelSide::Left, &"/src".to_string(), &vec![file("a.txt", "/src")]);
    store.state.left_panel.tabs[0].toggle_select(0);
    assert_eq!(store.state.left_panel.tabs[0].selected.len(), 1);
    store.dispatch(FileManagerActions::Tab(TabAction::ClearSelection));
    assert_eq!(store.state.left_panel.tabs[0].selected.len(), 0);
}

#[test]
fn reload_action_emits_reload_effect() {
    let mut store = fresh_store();
    store.dispatch(FileManagerActions::Tab(TabAction::ReloadTab {
        panel_side: PanelSide::Right,
        path: "/dst".to_string(),
    }));
    let effects = store.take_effects();
    assert_eq!(effects.len(), 1);
    assert!(matches!(
        &effects[0],
        FsEffect::Reload { panel_side: PanelSide::Right, path } if path == "/dst"
    ));
}

#[test]
fn open_in_new_tab_appends_and_focuses_it() {
    let mut store = fresh_store();
    let handled = store.dispatch(FileManagerActions::Directory(DirectoryAction::Open {
        panel: info("/src/sub", 0, PanelSide::Left),
        in_new_tab: true,
    }));
    assert!(handled);
    assert_eq!(store.state.left_panel.tabs.len(), 2);
    assert_eq!(store.state.left_panel.current_tab, 1);
    assert_eq!(store.state.left_panel.tabs[1].path, "/src/sub");
    let effects = store.take_effects();
    assert!(matches!(
        &effects[0],
        FsEffect::Reload { panel_side: PanelSide::Left, path } if path == "/src/sub"
    ));
}

#[test]
fn open_in_place_replaces_the_tab() {
    let mut store = fresh_store();
    let handled = store.dispatch(FileManagerActions::Directory(DirectoryAction::Open {
        panel: info("/src/sub", 0, PanelSide::Left),
        in_new_tab: false,
    }));
    assert!(handled);
    assert_eq!(store.state.left_panel.tabs.len(), 1);
    assert_eq!(store.state.left_panel.tabs[0].path, "/src/sub");
    assert_eq!(store.state.left_panel.tabs[0].selected.len(), 0);
}

#[test]
fn open_with_invalid_tab_index_is_a_no_op() {
    let mut store = fresh_store();
    let handled = store.dispatch(FileManagerActions::Directory(DirectoryAction::Open {
        panel: info("/src/sub", 7, PanelSide::Left),
        in_new_tab: false,
    }));
    assert!(!handled);
    assert_eq!(store.state.left_panel.tabs.len(), 1);
    assert_eq!(store.state.left_panel.tabs[0].path, "/src");
    assert_eq!(store.take_effects().len(), 0);
}

#[test]
fn show_and_close_modal() {
    let mut store = fresh_store();
    store.dispatch(FileManagerActions::App(AppAction::ShowModal(ModalType::MessageboxModal(
        "hello".to_string(),
    ))));
    assert!(matches!(store.state.modal, Some(ModalType::MessageboxModal(_))));
    store.dispatch(FileManagerActions::App(AppAction::CloseModal));
    assert!(store.state.modal.is_none());
}

#[test]
fn search_stop_clears_phrase_even_outside_search_mode() {
    let mut store = fresh_store();
    store.dispatch(FileManagerActions::Search(SearchAction::Start {
        tab: 0,
        panel_side: PanelSide::Left,
    }));
    store.dispatch(FileManagerActions::Search(SearchAction::Input {
        tab: 0,
        panel_side: PanelSide::Left,
        phrase: "abc".to_string(),
    }));
    // commit leaves search mode but keeps the phrase
    store.dispatch(FileManagerActions::Search(SearchAction::ApplySearch {
        tab: 0,
        panel_side: PanelSide::Left,
    }));
    let tab = &store.state.left_panel.tabs[0];
    assert!(!tab.search_mode);
    assert_eq!(tab.phrase, "abc");
    // stop is still reachable through the non-empty phrase
    let handled = store.dispatch(FileManagerActions::Search(SearchAction::Stop {
        tab: 0,
        panel_side: PanelSide::Left,
    }));
    assert!(handled);
    let tab = &store.state.left_panel.tabs[0];
    assert_eq!(tab.phrase, "");
    assert!(!tab.search_mode);
}

#[test]
fn apply_search_with_empty_phrase_is_rejected() {
    let mut store = fresh_store();
    store.dispatch(FileManagerActions::Search(SearchAction::Start {
        tab: 0,
        panel_side: PanelSide::Left,
    }));
    assert!(store.state.left_panel.tabs[0].search_mode);
    let handled = store.dispatch(FileManagerActions::Search(SearchAction::ApplySearch {
        tab: 0,
        panel_side: PanelSide::Left,
    }));
    assert!(!handled);
    assert!(store.state.left_panel.tabs[0].search_mode);
}

#[test]
fn search_start_is_rejected_while_searching() {
    let mut store = fresh_store();
    assert!(store.dispatch(FileManagerActions::Search(SearchAction::Start {
        tab: 0,
        panel_side: PanelSide::Left,
    })));
    assert!(!store.dispatch(FileManagerActions::Search(SearchAction::Start {
        tab: 0,
        panel_side: PanelSide::Left,
    })));
}

#[test]
fn search_on_invalid_tab_is_a_no_op() {
    let mut store = fresh_store();
    let handled = store.dispatch(FileManagerActions::Search(SearchAction::Start {
        tab: 9,
        panel_side: PanelSide::Left,
    }));
    assert!(!handled);
}

#[test]
fn file_self_move_is_not_guarded() {
    // files carry no self-move guard: the rename is still emitted
    let mut store = fresh_store();
    let handled = store.dispatch(FileManagerActions::File(FileAction::Move {
        from: info("/dst/a.txt", 0, PanelSide::Left),
        to: info("/dst/a.txt", 0, PanelSide::Right),
    }));
    assert!(handled);
    assert!(store.state.modal.is_none());
    let effects = store.take_effects();
    assert_eq!(effects.len(), 1);
    assert!(matches!(&effects[0], FsEffect::Rename { .. }));
}

#[test]
fn file_copy_emits_copy_file() {
    let mut store = fresh_store();
    store.dispatch(FileManagerActions::File(FileAction::Copy {
        from: info("/src/a.txt", 0, PanelSide::Left),
        to: info("/dst/a.txt", 0, PanelSide::Right),
    }));
    let effects = store.take_effects();
    assert!(matches!(&effects[0], FsEffect::CopyFile { from, to } if from == "/src/a.txt" && to == "/dst/a.txt"));
}

#[test]
fn symlink_delete_removes_the_link_itself() {
    let mut store = fresh_store();
    store.dispatch(FileManagerActions::Symlink(SymlinkAction::Delete {
        panel: info("/src/link", 0, PanelSide::Left),
    }));
    let effects = store.take_effects();
    assert!(matches!(&effects[0], FsEffect::DeleteFile { path } if path == "/src/link"));
}

#[test]
fn symlink_open_defers_resolution() {
    let mut store = fresh_store();
    store.dispatch(FileManagerActions::Symlink(SymlinkAction::Open {
        panel: info("/src/link", 0, PanelSide::Left),
        in_new_tab: true,
    }));
    let effects = store.take_effects();
    assert!(matches!(
        &effects[0],
        FsEffect::OpenSymlink { path, tab: 0, panel_side: PanelSide::Left, in_new_tab: true }
            if path == "/src/link"
    ));
}

#[test]
fn focus_moves_only_through_the_store() {
    let mut store = fresh_store();
    assert_eq!(store.state.focused_panel, PanelSide::Left);
    store.set_focus(PanelSide::Right);
    assert_eq!(store.state.focused_panel, PanelSide::Right);
    assert_eq!(store.take_effects().len(), 0);
}
