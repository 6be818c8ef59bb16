use scrap::item::ItemType;
use scrap::scrap::Scrap;
use scrap::scrap_yard::ScrapYard;
use scrap::trash::{TrashEntry, TrashItem};

fn entry(name: &str, ext: &str, is_dir: bool, size: u64) -> TrashEntry {
    TrashEntry {
        name: name.to_string(),
        original_path: format!("/home/u/.Trash/{}", name),
        extension: ext.to_string(),
        is_dir,
        deleted_at: "2024-05-01 10:00".to_string(),
        size,
    }
}

fn item(name: &str, item_type: ItemType, size: u64) -> TrashItem {
    TrashItem {
        name: name.to_string(),
        original_path: format!("/home/u/.Trash/{}", name),
        deleted_at: "2024-05-01 10:00".to_string(),
        item_type,
        size,
    }
}

fn names(items: &[TrashItem]) -> Vec<String> {
    items.iter().map(|i| i.name.clone()).collect()
}

#[test]
fn scrap_starts_empty() {
    assert!(Scrap::new().items.is_empty());
}

#[test]
fn scrap_add_item_appends_new_names() {
    let mut s = Scrap::new();
    s.add_item(item("a.txt", ItemType::Document, 1));
    s.add_item(item("b.txt", ItemType::Document, 2));
    assert_eq!(names(&s.items), vec!["a.txt", "b.txt"]);
}

#[test]
fn scrap_add_item_replaces_the_item_of_the_same_name() {
    let mut s = Scrap::new();
    s.add_item(item("a.txt", ItemType::Document, 1));
    s.add_item(item("b.txt", ItemType::Document, 2));
    s.add_item(item("a.txt", ItemType::Document, 9));
    assert_eq!(names(&s.items), vec!["a.txt", "b.txt"]);
    assert_eq!(s.items[0].size, 9);
}

#[test]
fn scrap_add_item_twice_is_adding_once() {
    let mut once = Scrap::new();
    once.add_item(item("x", ItemType::Other, 3));
    let mut twice = Scrap::new();
    twice.add_item(item("x", ItemType::Other, 3));
    twice.add_item(item("x", ItemType::Other, 3));
    assert_eq!(names(&once.items), names(&twice.items));
    assert_eq!(twice.items.len(), 1);
}

#[test]
fn new_yard_is_empty() {
    let y = ScrapYard::new();
    for t in [ItemType::Document, ItemType::Folder, ItemType::Other] {
        assert_eq!(y.get_type_count(&t), 0);
        assert!(y.get_item_at(&t, 0).is_none());
        assert!(y.iter_items(&t).is_empty());
    }
    assert_eq!(y.size(), 0);
}

#[test]
fn build_sorts_entries_by_kind_and_skips_hidden_ones() {
    let y = ScrapYard::build(vec![
        entry("report.pdf", "pdf", false, 100),
        entry(".DS_Store", "", false, 6),
        entry("photos", "", true, 4096),
        entry("main.rs", "rs", false, 10),
        entry("notes.TXT", "TXT", false, 5),
        entry(".hidden_dir", "", true, 1),
        entry("song.mp3", "mp3", false, 7),
        entry("setup.exe", "exe", false, 3),
    ]);
    assert_eq!(names(y.iter_items(&ItemType::Document)), vec!["report.pdf", "notes.TXT"]);
    assert_eq!(names(y.iter_items(&ItemType::Folder)), vec!["photos"]);
    assert_eq!(names(y.iter_items(&ItemType::Code)), vec!["main.rs"]);
    assert_eq!(names(y.iter_items(&ItemType::Audio)), vec!["song.mp3"]);
    assert_eq!(names(y.iter_items(&ItemType::Other)), vec!["setup.exe"]);
    assert_eq!(y.get_type_count(&ItemType::Image), 0);
    assert_eq!(y.get_type_count(&ItemType::Document), 2);
    assert_eq!(y.get_item_at(&ItemType::Document, 1).unwrap().name, "notes.TXT");
    assert_eq!(y.get_item_at(&ItemType::Document, 1).unwrap().item_type, ItemType::Document);
    assert!(y.get_item_at(&ItemType::Document, 2).is_none());
    assert_eq!(y.size(), 100 + 4096 + 10 + 5 + 7 + 3);
}

#[test]
fn build_keeps_one_item_per_name() {
    let y = ScrapYard::build(vec![
        entry("a.md", "md", false, 1),
        entry("a.md", "md", false, 2),
    ]);
    assert_eq!(y.get_type_count(&ItemType::Document), 1);
    assert_eq!(y.get_item_at(&ItemType::Document, 0).unwrap().size, 2);
}

#[test]
fn add_junk_goes_to_the_kind_of_the_item() {
    let mut y = ScrapYard::new();
    y.add_junk(item("clip.mov", ItemType::Video, 5));
    assert_eq!(y.get_type_count(&ItemType::Video), 1);
    assert_eq!(y.get_type_count(&ItemType::Image), 0);
}

#[test]
fn delete_by_type_empties_that_kind_only() {
    let mut y = ScrapYard::build(vec![
        entry("a.png", "png", false, 1),
        entry("b.png", "png", false, 1),
        entry("c.zip", "zip", false, 1),
    ]);
    let removed = y.delete_by_type(&ItemType::Image);
    assert_eq!(names(&removed), vec!["a.png", "b.png"]);
    assert_eq!(y.get_type_count(&ItemType::Image), 0);
    assert_eq!(y.get_type_count(&ItemType::Archive), 1);
}

#[test]
fn delete_all_empties_every_kind_and_hands_back_everything_kind_after_kind() {
    let mut y = ScrapYard::build(vec![
        entry("dir", "", true, 1),
        entry("a.pdf", "pdf", false, 1),
        entry("b.png", "png", false, 1),
        entry("c.rs", "rs", false, 1),
    ]);
    let removed = y.delete_all();
    assert_eq!(names(&removed), vec!["a.pdf", "b.png", "c.rs", "dir"]);
    for t in [ItemType::Folder, ItemType::Document, ItemType::Image, ItemType::Code] {
        assert_eq!(y.get_type_count(&t), 0);
    }
    assert_eq!(y.size(), 0);
    assert!(y.delete_all().is_empty());
}

#[test]
fn size_saturates() {
    let y = ScrapYard::build(vec![
        entry("big1", "", false, u64::MAX - 1),
        entry("big2", "", false, 5),
    ]);
    assert_eq!(y.size(), u64::MAX);
}

#[test]
fn hidden_names_start_with_a_dot() {
    assert!(scrap::scrap_yard::is_hidden(".DS_Store"));
    assert!(scrap::scrap_yard::is_hidden("."));
    assert!(!scrap::scrap_yard::is_hidden("a.txt"));
    assert!(!scrap::scrap_yard::is_hidden(""));
}

#[test]
fn add_junk_keeps_one_item_per_name() {
    let mut y = ScrapYard::build(vec![entry("a.md", "md", false, 1), entry("b.md", "md", false, 1)]);
    y.add_junk(item("a.md", ItemType::Document, 7));
    assert_eq!(y.get_type_count(&ItemType::Document), 2);
    let same: Vec<&TrashItem> = y.iter_items(&ItemType::Document).iter().filter(|i| i.name == "a.md").collect();
    assert_eq!(same.len(), 1);
    assert_eq!(same[0].size, 7);
}
