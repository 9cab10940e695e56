use dualpane::components::MessageboxModalComponentProps;
use dualpane::config::{sort_from_str, HotkeyCommandsPrograms, SortEnum, TabConfig};
use dualpane::file_system::{DirInfo, FileItem, FileSystemItem};
use dualpane::keyboard::{
    map_key, map_modifier, KeyBinding, KeyCode, KeyEvent, KeyboardConfig, MODIFIER_ALT,
    MODIFIER_CONTROL, MODIFIER_NONE, MODIFIER_SHIFT,
};
use dualpane::paths::{expand_if_contains_tilde, expand_tilde_with_home, join_path, parent_of};
use dualpane::textops::{name_matches, str_contains, str_eq, str_le, u64_to_string};

#[test]
fn string_equality_is_by_characters() {
    assert!(str_eq("abc", "abc"));
    assert!(!str_eq("abc", "abd"));
    assert!(!str_eq("abc", "ab"));
    assert!(str_eq("", ""));
}

#[test]
fn lexicographic_order_follows_code_points() {
    assert!(str_le("A", "a"));
    assert!(!str_le("a", "A"));
    assert!(str_le("abc", "abd"));
    assert!(str_le("ab", "abc"));
    assert!(str_le("", "x"));
    assert!(str_le("same", "same"));
}

#[test]
fn substring_search_finds_inner_runs() {
    assert!(str_contains("hello world", "lo wo"));
    assert!(str_contains("hello", ""));
    assert!(!str_contains("hello", "world"));
    assert!(!str_contains("hi", "hello"));
}

#[test]
fn name_matching_is_case_insensitive() {
    // would fail if the case folding handed its input back unchanged
    assert!(name_matches(&"README.md".to_string(), &"readme".to_string()));
    assert!(name_matches(&"photo.JPG".to_string(), &"jpg".to_string()));
    assert!(!name_matches(&"notes.txt".to_string(), &"jpg".to_string()));
}

#[test]
fn decimal_rendering_is_exact() {
    assert_eq!(u64_to_string(0), "0");
    assert_eq!(u64_to_string(7), "7");
    assert_eq!(u64_to_string(4096), "4096");
    assert_eq!(u64_to_string(u64::MAX), "18446744073709551615");
}

#[test]
fn join_path_inserts_one_separator() {
    assert_eq!(join_path(&"/dst".to_string(), &"a.txt".to_string()), "/dst/a.txt");
    assert_eq!(join_path(&"/dst/".to_string(), &"a.txt".to_string()), "/dst/a.txt");
    assert_eq!(join_path(&"".to_string(), &"a.txt".to_string()), "a.txt");
    assert_eq!(join_path(&"/".to_string(), &"a.txt".to_string()), "/a.txt");
}

#[test]
fn parent_of_walks_up_one_level() {
    assert_eq!(parent_of(&"/src/sub".to_string()), Some("/src".to_string()));
    assert_eq!(parent_of(&"/src".to_string()), Some("/".to_string()));
    assert_eq!(parent_of(&"/".to_string()), None);
    assert_eq!(parent_of(&"plain".to_string()), None);
}

#[test]
fn parent_of_ignores_trailing_separators() {
    assert_eq!(parent_of(&"/tmp/".to_string()), Some("/".to_string()));
    assert_eq!(parent_of(&"/a/b//".to_string()), Some("/a".to_string()));
    assert_eq!(parent_of(&"//".to_string()), None);
}

#[test]
fn tilde_expansion_against_a_known_home() {
    let home = "/home/someone".to_string();
    assert_eq!(
        expand_tilde_with_home(&"~/music".to_string(), Some(&home)),
        Some("/home/someone/music".to_string())
    );
    assert_eq!(expand_tilde_with_home(&"~".to_string(), Some(&home)), Some(home.clone()));
    assert_eq!(
        expand_tilde_with_home(&"/etc/hosts".to_string(), Some(&home)),
        Some("/etc/hosts".to_string())
    );
    // a tilde mid-name is no tilde component
    assert_eq!(
        expand_tilde_with_home(&"~odd".to_string(), Some(&home)),
        Some("~odd".to_string())
    );
    assert_eq!(expand_tilde_with_home(&"~/x".to_string(), None), None);
    // a root home contributes no extra separator
    assert_eq!(
        expand_tilde_with_home(&"~/x".to_string(), Some(&"/".to_string())),
        Some("/x".to_string())
    );
}

#[test]
fn paths_without_tilde_come_back_unchanged() {
    assert_eq!(
        expand_if_contains_tilde(&"/var/log".to_string()),
        Some("/var/log".to_string())
    );
}

#[test]
fn sort_names_parse_to_directions() {
    assert_eq!(sort_from_str("asc"), SortEnum::ASC);
    assert_eq!(sort_from_str("desc"), SortEnum::DESC);
    assert_eq!(sort_from_str("none"), SortEnum::NONE);
    assert_eq!(sort_from_str("anything"), SortEnum::NONE);
}

#[test]
fn tab_config_default_is_unordered() {
    let cfg = TabConfig::default();
    assert!(!cfg.directory_first);
    assert_eq!(cfg.sort_by_name, SortEnum::NONE);
    assert_eq!(cfg.sort_by_date, SortEnum::NONE);
    assert_eq!(cfg.sort_by_attr, SortEnum::NONE);
}

#[test]
fn hotkey_bindings_resolve_and_shadow() {
    let mut cmds = HotkeyCommandsPrograms::default();
    assert_eq!(cmds.get_path("command_1".to_string()), "");
    cmds.set_binding("command_1".to_string(), "/a".to_string());
    cmds.set_binding("command_2".to_string(), "/b".to_string());
    assert_eq!(cmds.get_path("command_1".to_string()), "/a");
    assert_eq!(cmds.get_path("command_2".to_string()), "/b");
    cmds.set_binding("command_1".to_string(), "/c".to_string());
    assert_eq!(cmds.get_path("command_1".to_string()), "/c");
    assert_eq!(cmds.get_path("unbound".to_string()), "");
}

#[test]
fn key_names_map_to_key_codes() {
    assert_eq!(map_key("backspace"), KeyCode::Backspace);
    assert_eq!(map_key("enter"), KeyCode::Enter);
    assert_eq!(map_key("page_up"), KeyCode::PageUp);
    assert_eq!(map_key("f11"), KeyCode::F(11));
    assert_eq!(map_key("q"), KeyCode::Char('q'));
    assert_eq!(map_key("qq"), KeyCode::Char('q'));
}

#[test]
fn modifier_names_map_to_bits() {
    assert_eq!(map_modifier("c"), MODIFIER_CONTROL);
    assert_eq!(map_modifier("s"), MODIFIER_SHIFT);
    assert_eq!(map_modifier("a"), MODIFIER_ALT);
    assert_eq!(map_modifier("x"), MODIFIER_NONE);
}

#[test]
fn bindings_match_exact_key_and_modifiers() {
    let b = KeyBinding::with_modifiers(KeyCode::Char('q'), MODIFIER_CONTROL);
    assert!(b.is_pressed(KeyEvent { code: KeyCode::Char('q'), modifiers: MODIFIER_CONTROL }));
    assert!(!b.is_pressed(KeyEvent { code: KeyCode::Char('q'), modifiers: MODIFIER_NONE }));
    assert!(!b.is_pressed(KeyEvent { code: KeyCode::Char('x'), modifiers: MODIFIER_CONTROL }));
}

#[test]
fn default_keyboard_config_matches_the_built_ins() {
    let cfg = KeyboardConfig::default();
    assert_eq!(cfg.quit, KeyBinding::with_modifiers(KeyCode::Char('q'), MODIFIER_CONTROL));
    assert_eq!(cfg.close, KeyBinding::new(KeyCode::Esc));
    assert_eq!(cfg.accept, KeyBinding::new(KeyCode::Enter));
    assert_eq!(cfg.navigate_up, KeyBinding::new(KeyCode::Backspace));
    assert_eq!(cfg.sort_by_attr_desc, KeyBinding::with_modifiers(KeyCode::F(3), MODIFIER_CONTROL));
}

#[test]
fn messagebox_props_carry_their_message() {
    let props = MessageboxModalComponentProps::new("hello".to_string(), true, "!".to_string());
    assert_eq!(props.message, Some("hello".to_string()));
    assert!(props.show_icons);
    assert_eq!(props.icon, "!");
    let d = MessageboxModalComponentProps::default();
    assert!(d.message.is_none());
}

#[test]
fn item_getters_reflect_the_snapshot() {
    let item = FileSystemItem::File(FileItem::new(
        "a.txt".to_string(),
        "/src/a.txt".to_string(),
        11,
        String::new(),
        1,
        2,
        3,
        42,
        0o644,
        77,
        2,
        "user".to_string(),
        "group".to_string(),
        4096,
        8,
    ));
    assert_eq!(item.get_name(), "a.txt");
    assert_eq!(item.get_path(), "/src/a.txt");
    assert!(item.is_file());
    assert!(!item.is_dir());
    assert!(!item.is_symlink());
    assert_eq!(item.get_created(), 1);
    assert_eq!(item.get_modified(), 2);
    assert_eq!(item.get_accessed(), 3);
    assert_eq!(item.get_size(), 42);
    assert_eq!(item.get_mode(), 0o644);
    assert_eq!(item.get_inode(), 77);
    assert_eq!(item.get_nlink(), 2);
    assert_eq!(item.get_username(), "user");
    assert_eq!(item.get_groupname(), "group");
    assert_eq!(item.get_blocksize(), 4096);
    assert_eq!(item.get_blocks(), 8);
    let info = DirInfo { name: "src".to_string(), path: "/src".to_string() };
    assert_eq!(info.name, "src");
    assert_eq!(info.path, "/src");
}
