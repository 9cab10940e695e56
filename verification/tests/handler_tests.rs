use dualpane::actions::{
    AppAction, DirectoryAction, FileAction, FileManagerActions, ModalType, PanelSide,
    SearchAction, TabAction,
};
use dualpane::config::Config;
use dualpane::file_system::{DirItem, FileItem, FileSystemItem};
use dualpane::handler::{handle_tab_key, messagebox_handle_key, plan_batch_copy, plan_batch_move};
use dualpane::keyboard::{KeyCode, KeyEvent, KeyboardConfig, MODIFIER_CONTROL, MODIFIER_NONE};
use dualpane::state::{AppState, PanelState};

fn file(name: &str, dir: &str) -> FileSystemItem {
    FileSystemItem::File(FileItem::new(
        name.to_string(),
        format!("{}/{}", dir, name),
        0,
        String::new(),
        0,
        0,
        0,
        1,
        0o644,
        1,
        1,
        "user".to_string(),
        "group".to_string(),
        4096,
        1,
    ))
}

fn dir(name: &str, parent: &str) -> FileSystemItem {
    FileSystemItem::Directory(DirItem::new(
        name.to_string(),
        format!("{}/{}", parent, name),
        0,
        String::new(),
        false,
        0,
        0,
        0,
        0,
        0o755,
        1,
        1,
        "user".to_string(),
        "group".to_string(),
        4096,
        1,
    ))
}

fn fresh_state() -> AppState {
    AppState {
        left_panel: PanelState::new(PanelSide::Left, "/src".to_string(), "/src".to_string()),
        right_panel: PanelState::new(PanelSide::Right, "/dst".to_string(), "/dst".to_string()),
        focused_panel: PanelSide::Left,
        modal: None,
        config: Config::default(),
    }
}

fn key(code: KeyCode) -> KeyEvent {
    KeyEvent { code, modifiers: MODIFIER_NONE }
}

fn ctrl(code: KeyCode) -> KeyEvent {
    KeyEvent { code, modifiers: MODIFIER_CONTROL }
}

#[test]
fn batch_move_of_three_files_plans_three_moves_in_order() {
    // three files selected in the left tab on /src, moved toward /dst
    let selected = vec![file("one", "/src"), file("two", "/src"), file("three", "/src")];
    let plan = plan_batch_move(
        &selected,
        PanelSide::Left,
        0,
        PanelSide::Right,
        0,
        &"/dst".to_string(),
    );
    assert_eq!(plan.len(), 3);
    let expected = ["one", "two", "three"];
    for (i, action) in plan.iter().enumerate() {
        match action {
            FileManagerActions::File(FileAction::Move { from, to }) => {
                assert_eq!(from.path, format!("/src/{}", expected[i]));
                assert_eq!(from.side, PanelSide::Left);
                assert_eq!(to.path, format!("/dst/{}", expected[i]));
                assert_eq!(to.side, PanelSide::Right);
            }
            other => panic!("expected a file move, got {:?}", other),
        }
    }
}

#[test]
fn move_right_key_plans_batch_then_select_next() {
    let mut state = fresh_state();
    state.left_panel.tabs[0].items =
        vec![file("one", "/src"), file("two", "/src"), file("three", "/src")];
    state.left_panel.tabs[0].selected =
        vec![file("one", "/src"), file("two", "/src"), file("three", "/src")];
    let (plan, handled) = handle_tab_key(
        &state,
        PanelSide::Left,
        true,
        ctrl(KeyCode::Char('l')),
    );
    assert!(handled);
    assert_eq!(plan.len(), 4);
    assert!(matches!(plan[0], FileManagerActions::File(FileAction::Move { .. })));
    assert!(matches!(plan[3], FileManagerActions::Tab(TabAction::SelectNext)));
}

#[test]
fn directory_self_move_plans_one_messagebox() {
    // the selected directory is already the destination tab's path
    let selected = vec![dir("dst", "")];
    let plan = plan_batch_move(
        &selected,
        PanelSide::Left,
        0,
        PanelSide::Right,
        0,
        &"/dst".to_string(),
    );
    assert_eq!(plan.len(), 1);
    match &plan[0] {
        FileManagerActions::App(AppAction::ShowModal(ModalType::MessageboxModal(m))) => {
            assert_eq!(m, "Can't move \n /dst \n into \n /dst");
        }
        other => panic!("expected a message box, got {:?}", other),
    }
}

#[test]
fn mixed_selection_skips_unknown_items() {
    let selected = vec![file("one", "/src"), FileSystemItem::Unknown, dir("d", "/src")];
    let plan = plan_batch_move(
        &selected,
        PanelSide::Left,
        0,
        PanelSide::Right,
        0,
        &"/dst".to_string(),
    );
    assert_eq!(plan.len(), 2);
    assert!(matches!(plan[0], FileManagerActions::File(FileAction::Move { .. })));
    assert!(matches!(plan[1], FileManagerActions::Directory(DirectoryAction::Move { .. })));
}

#[test]
fn unfocused_tab_consumes_nothing() {
    let state = fresh_state();
    let (plan, handled) = handle_tab_key(&state, PanelSide::Left, false, key(KeyCode::Char('j')));
    assert!(!handled);
    assert!(plan.is_empty());
}

#[test]
fn close_key_stops_search_before_clearing_selection() {
    let mut state = fresh_state();
    state.left_panel.tabs[0].search_mode = true;
    state.left_panel.tabs[0].selected = vec![file("one", "/src")];
    state.left_panel.tabs[0].items = vec![file("one", "/src")];
    let (plan, handled) = handle_tab_key(&state, PanelSide::Left, true, key(KeyCode::Esc));
    assert!(handled);
    assert_eq!(plan.len(), 1);
    assert!(matches!(
        plan[0],
        FileManagerActions::Search(SearchAction::Stop { tab: 0, panel_side: PanelSide::Left })
    ));
}

#[test]
fn close_key_clears_selection_outside_search() {
    let mut state = fresh_state();
    state.left_panel.tabs[0].selected = vec![file("one", "/src")];
    state.left_panel.tabs[0].items = vec![file("one", "/src")];
    let (plan, handled) = handle_tab_key(&state, PanelSide::Left, true, key(KeyCode::Esc));
    assert!(handled);
    assert_eq!(plan.len(), 1);
    assert!(matches!(plan[0], FileManagerActions::Tab(TabAction::ClearSelection)));
}

#[test]
fn search_mode_captures_characters() {
    let mut state = fresh_state();
    state.left_panel.tabs[0].search_mode = true;
    state.left_panel.tabs[0].phrase = "ab".to_string();
    let (plan, handled) = handle_tab_key(&state, PanelSide::Left, true, key(KeyCode::Char('c')));
    assert!(handled);
    match &plan[0] {
        FileManagerActions::Search(SearchAction::Input { phrase, .. }) => {
            assert_eq!(phrase, "abc");
        }
        other => panic!("expected search input, got {:?}", other),
    }
}

#[test]
fn search_mode_backspace_removes_last_character() {
    let mut state = fresh_state();
    state.left_panel.tabs[0].search_mode = true;
    state.left_panel.tabs[0].phrase = "ab".to_string();
    let (plan, _) = handle_tab_key(&state, PanelSide::Left, true, key(KeyCode::Backspace));
    match &plan[0] {
        FileManagerActions::Search(SearchAction::Input { phrase, .. }) => {
            assert_eq!(phrase, "a");
        }
        other => panic!("expected search input, got {:?}", other),
    }
}

#[test]
fn accept_key_applies_non_empty_search() {
    let mut state = fresh_state();
    state.left_panel.tabs[0].search_mode = true;
    state.left_panel.tabs[0].phrase = "x".to_string();
    let (plan, handled) = handle_tab_key(&state, PanelSide::Left, true, key(KeyCode::Enter));
    assert!(handled);
    assert!(matches!(
        plan[0],
        FileManagerActions::Search(SearchAction::ApplySearch { tab: 0, panel_side: PanelSide::Left })
    ));
}

#[test]
fn search_key_starts_searching() {
    let state = fresh_state();
    let (plan, handled) = handle_tab_key(&state, PanelSide::Left, true, ctrl(KeyCode::Char('s')));
    assert!(handled);
    assert!(matches!(
        plan[0],
        FileManagerActions::Search(SearchAction::Start { tab: 0, panel_side: PanelSide::Left })
    ));
}

#[test]
fn navigate_up_opens_the_parent_directory() {
    let state = fresh_state();
    let (plan, handled) = handle_tab_key(&state, PanelSide::Left, true, key(KeyCode::Backspace));
    assert!(handled);
    assert_eq!(plan.len(), 1);
    match &plan[0] {
        FileManagerActions::Directory(DirectoryAction::Open { panel, in_new_tab }) => {
            assert_eq!(panel.path, "/");
            assert!(!in_new_tab);
        }
        other => panic!("expected a directory open, got {:?}", other),
    }
}

#[test]
fn navigate_up_at_root_plans_nothing() {
    let mut state = fresh_state();
    state.left_panel.tabs[0].path = "/".to_string();
    let (plan, handled) = handle_tab_key(&state, PanelSide::Left, true, key(KeyCode::Backspace));
    assert!(handled);
    assert!(plan.is_empty());
}

#[test]
fn bound_command_key_opens_its_path() {
    let mut state = fresh_state();
    state
        .config
        .hotkey_commands_programs
        .set_binding("command_1".to_string(), "/opt/music".to_string());
    let (plan, handled) = handle_tab_key(&state, PanelSide::Left, true, key(KeyCode::Char('1')));
    assert!(handled);
    assert_eq!(plan.len(), 1);
    match &plan[0] {
        FileManagerActions::Directory(DirectoryAction::Open { panel, .. }) => {
            assert_eq!(panel.path, "/opt/music");
        }
        other => panic!("expected a directory open, got {:?}", other),
    }
}

#[test]
fn unbound_command_key_plans_nothing() {
    let state = fresh_state();
    let (plan, handled) = handle_tab_key(&state, PanelSide::Left, true, key(KeyCode::Char('2')));
    assert!(handled);
    assert!(plan.is_empty());
}

#[test]
fn delete_key_plans_deletes_then_select_next() {
    let mut state = fresh_state();
    let mut d = dir("empty", "/src");
    if let FileSystemItem::Directory(ref mut di) = d {
        di.empty = true;
    }
    state.left_panel.tabs[0].items = vec![d.clone(), file("a.txt", "/src")];
    state.left_panel.tabs[0].selected = vec![d, file("a.txt", "/src")];
    let (plan, handled) = handle_tab_key(&state, PanelSide::Left, true, ctrl(KeyCode::Char('d')));
    assert!(handled);
    assert_eq!(plan.len(), 3);
    match &plan[0] {
        FileManagerActions::Directory(DirectoryAction::Delete { panel, is_empty }) => {
            assert_eq!(panel.path, "/src/empty");
            assert!(is_empty);
        }
        other => panic!("expected a directory delete, got {:?}", other),
    }
    assert!(matches!(plan[1], FileManagerActions::File(FileAction::Delete { .. })));
    assert!(matches!(plan[2], FileManagerActions::Tab(TabAction::SelectNext)));
}

#[test]
fn copy_key_plans_copies_then_advances() {
    let mut state = fresh_state();
    state.left_panel.tabs[0].selected = vec![file("a.txt", "/src")];
    state.left_panel.tabs[0].items = vec![file("a.txt", "/src")];
    let (plan, handled) = handle_tab_key(&state, PanelSide::Left, true, key(KeyCode::Char('m')));
    assert!(handled);
    assert_eq!(plan.len(), 2);
    match &plan[0] {
        FileManagerActions::File(FileAction::Copy { from, to }) => {
            assert_eq!(from.path, "/src/a.txt");
            assert_eq!(to.path, "/dst/a.txt");
        }
        other => panic!("expected a file copy, got {:?}", other),
    }
    assert!(matches!(plan[1], FileManagerActions::Tab(TabAction::Next)));
}

#[test]
fn directory_self_copy_plans_one_messagebox() {
    // the selected directory is already the destination tab's path
    let selected = vec![dir("dst", "")];
    let plan = plan_batch_copy(
        &selected,
        PanelSide::Left,
        0,
        PanelSide::Right,
        0,
        &"/dst".to_string(),
    );
    assert_eq!(plan.len(), 1);
    match &plan[0] {
        FileManagerActions::App(AppAction::ShowModal(ModalType::MessageboxModal(m))) => {
            assert_eq!(m, "Can't move \n /dst \n into \n /dst");
        }
        other => panic!("expected a message box, got {:?}", other),
    }
}

#[test]
fn copy_key_guards_directory_self_copy() {
    // a directory at the destination path raises the conflict modal,
    // the rest of the batch still copies, and the advance follows
    let mut state = fresh_state();
    let d = dir("dst", "");
    state.left_panel.tabs[0].items = vec![d.clone(), file("a.txt", "/src")];
    state.left_panel.tabs[0].selected = vec![d, file("a.txt", "/src")];
    let (plan, handled) = handle_tab_key(&state, PanelSide::Left, true, key(KeyCode::Char('m')));
    assert!(handled);
    assert_eq!(plan.len(), 3);
    assert!(matches!(
        plan[0],
        FileManagerActions::App(AppAction::ShowModal(ModalType::MessageboxModal(_)))
    ));
    assert!(matches!(plan[1], FileManagerActions::File(FileAction::Copy { .. })));
    assert!(matches!(plan[2], FileManagerActions::Tab(TabAction::Next)));
}

#[test]
fn copy_to_right_key_plans_copies_then_tab_next() {
    let mut state = fresh_state();
    state.left_panel.tabs[0].selected = vec![file("a.txt", "/src")];
    state.left_panel.tabs[0].items = vec![file("a.txt", "/src")];
    let (plan, handled) = handle_tab_key(&state, PanelSide::Left, true, ctrl(KeyCode::Char('x')));
    assert!(handled);
    assert_eq!(plan.len(), 2);
    assert!(matches!(plan[0], FileManagerActions::File(FileAction::Copy { .. })));
    assert!(matches!(plan[1], FileManagerActions::Tab(TabAction::Next)));
}

#[test]
fn create_key_opens_the_create_modal() {
    let state = fresh_state();
    let (plan, handled) = handle_tab_key(&state, PanelSide::Left, true, ctrl(KeyCode::Char('c')));
    assert!(handled);
    match &plan[0] {
        FileManagerActions::App(AppAction::ShowModal(ModalType::CreateModal {
            panel_tab_path,
            panel_side,
            ..
        })) => {
            assert_eq!(panel_tab_path, "/src");
            assert_eq!(*panel_side, PanelSide::Left);
        }
        other => panic!("expected the create modal, got {:?}", other),
    }
}

#[test]
fn rename_key_opens_the_rename_modal_for_the_cursor_item() {
    let mut state = fresh_state();
    state.left_panel.tabs[0].items = vec![file("a.txt", "/src")];
    state.left_panel.tabs[0].selected = vec![file("a.txt", "/src")];
    state.left_panel.tabs[0].cursor = Some(0);
    let (plan, handled) = handle_tab_key(&state, PanelSide::Left, true, ctrl(KeyCode::Char('r')));
    assert!(handled);
    match &plan[0] {
        FileManagerActions::App(AppAction::ShowModal(ModalType::RenameModal { item, .. })) => {
            assert_eq!(item.get_name(), "a.txt");
        }
        other => panic!("expected the rename modal, got {:?}", other),
    }
}

#[test]
fn item_props_key_plans_one_messagebox_per_selected_item() {
    let mut state = fresh_state();
    state.left_panel.tabs[0].items = vec![file("a.txt", "/src"), file("b.txt", "/src")];
    state.left_panel.tabs[0].selected = vec![file("a.txt", "/src"), file("b.txt", "/src")];
    let (plan, handled) = handle_tab_key(&state, PanelSide::Left, true, key(KeyCode::Char('i')));
    assert!(handled);
    assert_eq!(plan.len(), 2);
    for action in &plan {
        match action {
            FileManagerActions::App(AppAction::ShowModal(ModalType::MessageboxModal(m))) => {
                assert!(m.starts_with("Created: "));
                assert!(m.contains("\nSize: 1 bytes"));
                assert!(m.contains("\n(Owner:Group): user:group"));
                assert!(m.contains("\nBlocks: 4096"));
            }
            other => panic!("expected a message box, got {:?}", other),
        }
    }
}

#[test]
fn unbound_key_is_not_handled() {
    let state = fresh_state();
    let (plan, handled) = handle_tab_key(&state, PanelSide::Left, true, key(KeyCode::Char('z')));
    assert!(!handled);
    assert!(plan.is_empty());
}

#[test]
fn messagebox_close_key_dismisses_it() {
    let cfg = KeyboardConfig::default();
    let action = messagebox_handle_key(&cfg, KeyEvent { code: KeyCode::Esc, modifiers: 0 });
    assert!(matches!(action, Some(FileManagerActions::App(AppAction::CloseModal))));
    let none = messagebox_handle_key(&cfg, KeyEvent { code: KeyCode::Enter, modifiers: 0 });
    assert!(none.is_none());
}

#[test]
fn move_down_key_cycles_tabs() {
    let state = fresh_state();
    let (plan, handled) = handle_tab_key(&state, PanelSide::Left, true, key(KeyCode::Char('j')));
    assert!(handled);
    assert!(matches!(plan[0], FileManagerActions::Tab(TabAction::Next)));
}
