use dualpane::config::{SortEnum, TabConfig};
use dualpane::file_system::{DirItem, FileItem, FileSystemItem};
use dualpane::sort::sort_items;

fn file(name: &str, size: u64, modified: i64) -> FileSystemItem {
    FileSystemItem::File(FileItem::new(
        name.to_string(),
        format!("/data/{}", name),
        modified,
        String::new(),
        modified,
        modified,
        modified,
        size,
        0o644,
        1,
        1,
        "user".to_string(),
        "group".to_string(),
        4096,
        1,
    ))
}

fn dir(name: &str, size: u64, modified: i64) -> FileSystemItem {
    FileSystemItem::Directory(DirItem::new(
        name.to_string(),
        format!("/data/{}", name),
        modified,
        String::new(),
        true,
        modified,
        modified,
        modified,
        size,
        0o755,
        1,
        1,
        "user".to_string(),
        "group".to_string(),
        4096,
        1,
    ))
}

fn names(items: &Vec<FileSystemItem>) -> Vec<String> {
    items.iter().map(|i| i.get_name()).collect()
}

#[test]
fn name_asc_directories_first_orders_dirs_before_files() {
    // listing /data with [b.txt, A/, a.txt], sort by name ascending,
    // directories first
    let mut items = vec![file("b.txt", 10, 5), dir("A", 0, 1), file("a.txt", 20, 9)];
    let cfg = TabConfig {
        directory_first: true,
        sort_by_name: SortEnum::ASC,
        sort_by_date: SortEnum::NONE,
        sort_by_attr: SortEnum::NONE,
    };
    sort_items(&mut items, &cfg);
    assert_eq!(names(&items), vec!["A", "a.txt", "b.txt"]);
}

#[test]
fn name_desc_directories_first_keeps_dirs_before_files() {
    let mut items = vec![file("b.txt", 10, 5), dir("A", 0, 1), file("a.txt", 20, 9)];
    let cfg = TabConfig {
        directory_first: true,
        sort_by_name: SortEnum::DESC,
        sort_by_date: SortEnum::NONE,
        sort_by_attr: SortEnum::NONE,
    };
    sort_items(&mut items, &cfg);
    assert_eq!(names(&items), vec!["A", "b.txt", "a.txt"]);
}

#[test]
fn name_asc_ungrouped_ignores_kind() {
    let mut items = vec![file("b.txt", 10, 5), dir("c", 0, 1), file("a.txt", 20, 9)];
    let cfg = TabConfig {
        directory_first: false,
        sort_by_name: SortEnum::ASC,
        sort_by_date: SortEnum::NONE,
        sort_by_attr: SortEnum::NONE,
    };
    sort_items(&mut items, &cfg);
    assert_eq!(names(&items), vec!["a.txt", "b.txt", "c"]);
}

#[test]
fn ungrouped_last_ordered_axis_wins() {
    // name would give a,b,c; the size axis overwrites it
    let mut items = vec![file("a.txt", 30, 1), file("b.txt", 10, 2), file("c.txt", 20, 3)];
    let cfg = TabConfig {
        directory_first: false,
        sort_by_name: SortEnum::ASC,
        sort_by_date: SortEnum::NONE,
        sort_by_attr: SortEnum::ASC,
    };
    sort_items(&mut items, &cfg);
    assert_eq!(names(&items), vec!["b.txt", "c.txt", "a.txt"]);
}

#[test]
fn date_desc_orders_newest_first() {
    let mut items = vec![file("old.txt", 1, 100), file("new.txt", 1, 300), file("mid.txt", 1, 200)];
    let cfg = TabConfig {
        directory_first: false,
        sort_by_name: SortEnum::NONE,
        sort_by_date: SortEnum::DESC,
        sort_by_attr: SortEnum::NONE,
    };
    sort_items(&mut items, &cfg);
    assert_eq!(names(&items), vec!["new.txt", "mid.txt", "old.txt"]);
}

#[test]
fn unordered_policy_keeps_listing_order() {
    let mut items = vec![file("z.txt", 1, 1), file("a.txt", 2, 2)];
    let cfg = TabConfig::default();
    sort_items(&mut items, &cfg);
    assert_eq!(names(&items), vec!["z.txt", "a.txt"]);
}

#[test]
fn grouped_first_ordered_axis_decides() {
    // directories first with name unordered: the size axis decides,
    // still grouped
    let mut items = vec![file("big", 30, 1), dir("d", 0, 1), file("small", 5, 1)];
    let cfg = TabConfig {
        directory_first: true,
        sort_by_name: SortEnum::NONE,
        sort_by_date: SortEnum::NONE,
        sort_by_attr: SortEnum::ASC,
    };
    sort_items(&mut items, &cfg);
    assert_eq!(names(&items), vec!["d", "small", "big"]);
}
