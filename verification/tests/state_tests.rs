use dualpane::file_system::{FileItem, FileSystemItem};
use dualpane::state::TabState;

fn file(name: &str) -> FileSystemItem {
    FileSystemItem::File(FileItem::new(
        name.to_string(),
        format!("/src/{}", name),
        0,
        String::new(),
        0,
        0,
        0,
        1,
        0o644,
        1,
        1,
        "user".to_string(),
        "group".to_string(),
        4096,
        1,
    ))
}

fn loaded_tab(names: &[&str]) -> TabState {
    let mut tab = TabState::new("src".to_string(), "/src".to_string());
    tab.apply_listing(names.iter().map(|n| file(n)).collect());
    tab
}

#[test]
fn filtering_is_a_view_over_the_listing() {
    let mut tab = loaded_tab(&["Makefile", "main.rs", "README"]);
    tab.search_start();
    tab.search_input("ma".to_string());
    let filtered = tab.filtered_items();
    let names: Vec<String> = filtered.iter().map(|i| i.get_name()).collect();
    assert_eq!(names, vec!["Makefile", "main.rs"]);
    // the underlying listing is untouched
    assert_eq!(tab.items.len(), 3);
}

#[test]
fn empty_phrase_shows_everything() {
    let tab = loaded_tab(&["a", "b"]);
    assert_eq!(tab.filtered_items().len(), 2);
}

#[test]
fn selection_survives_reload_of_present_paths_only() {
    let mut tab = loaded_tab(&["a", "b", "c"]);
    tab.toggle_select(0);
    tab.toggle_select(2);
    assert_eq!(tab.selected.len(), 2);
    tab.apply_listing(vec![file("c"), file("d")]);
    assert_eq!(tab.selected.len(), 1);
    assert_eq!(tab.selected[0].get_name(), "c");
}

#[test]
fn toggle_select_adds_and_removes() {
    let mut tab = loaded_tab(&["a", "b"]);
    tab.toggle_select(1);
    assert_eq!(tab.selected.len(), 1);
    assert_eq!(tab.selected[0].get_name(), "b");
    tab.toggle_select(1);
    assert!(tab.selected.is_empty());
}

#[test]
fn cursor_clamps_when_the_view_shrinks() {
    let mut tab = loaded_tab(&["aa", "ab", "zz"]);
    tab.select_next();
    tab.select_next();
    tab.select_next();
    assert_eq!(tab.cursor, Some(2));
    tab.search_start();
    tab.search_input("a".to_string());
    // two items match; the cursor clamps to the last of them
    assert_eq!(tab.cursor, Some(1));
    tab.search_input("nothing".to_string());
    assert_eq!(tab.cursor, None);
}

#[test]
fn current_item_follows_the_filtered_view() {
    let mut tab = loaded_tab(&["alpha", "beta"]);
    assert!(tab.current_item().is_none());
    tab.search_start();
    tab.search_input("bet".to_string());
    tab.select_next();
    let item = tab.current_item().expect("cursor set");
    assert_eq!(item.get_name(), "beta");
}

#[test]
fn search_round_trip_restores_browsing() {
    let mut tab = loaded_tab(&["a"]);
    assert!(tab.search_start());
    assert!(tab.search_input("x".to_string()));
    assert!(tab.search_apply());
    assert!(!tab.search_mode);
    assert_eq!(tab.phrase, "x");
    assert!(tab.search_stop());
    assert!(!tab.search_mode);
    assert_eq!(tab.phrase, "");
    // a second stop has nothing left to do
    assert!(!tab.search_stop());
}
