use scrap::app::{App, HeaderTab, InputMode, KeyInput, QueryStatus};
use scrap::item::ItemType;
use scrap::query::QueryCommand;
use scrap::scrap_yard::ScrapYard;
use scrap::trash::TrashEntry;

fn entry(name: &str, ext: &str, is_dir: bool) -> TrashEntry {
    TrashEntry {
        name: name.to_string(),
        original_path: format!("/t/{}", name),
        extension: ext.to_string(),
        is_dir,
        deleted_at: "2024-01-01 00:00".to_string(),
        size: 1,
    }
}

/// Two folders, three code files, no documents.
fn sample() -> App {
    App::new(ScrapYard::build(vec![
        entry("d1", "", true),
        entry("d2", "", true),
        entry("a.rs", "rs", false),
        entry("b.py", "py", false),
        entry("c.go", "go", false),
    ]))
}

fn type_text(app: &mut App, s: &str) {
    for c in s.chars() {
        app.query_push(c);
    }
}

#[test]
fn new_app_starts_on_folders_with_first_item_selected() {
    let app = sample();
    assert_eq!(app.selected_tab(), 0);
    assert_eq!(*app.current_item_type(), ItemType::Folder);
    assert_eq!(app.tabs().len(), 8);
    assert_eq!(app.selected(), Some(0));
    assert_eq!(app.scroll_position(), 0);
    assert_eq!(app.current_items_count(), 2);
    assert_eq!(app.get_selected_item().unwrap().name, "d1");
    assert_eq!(app.input_mode(), InputMode::Normal);
    assert_eq!(app.query(), "");
    assert_eq!(app.query_command(), QueryCommand::Empty);
    assert!(!app.should_quit());
}

#[test]
fn new_app_on_empty_trash_selects_nothing() {
    let app = App::new(ScrapYard::new());
    assert_eq!(app.selected(), None);
    assert!(app.get_selected_item().is_none());
}

#[test]
fn tabs_cycle_forward_and_backward() {
    let mut app = sample();
    app.next_tab();
    assert_eq!(*app.current_item_type(), ItemType::Code);
    assert_eq!(app.selected(), Some(0));
    app.next_tab();
    assert_eq!(*app.current_item_type(), ItemType::Document);
    assert_eq!(app.selected(), None);
    app.prev_tab();
    app.prev_tab();
    app.prev_tab();
    assert_eq!(*app.current_item_type(), ItemType::Other);
    assert_eq!(app.selected_tab(), 7);
    app.next_tab();
    assert_eq!(app.selected_tab(), 0);
}

#[test]
fn next_then_prev_tab_returns_to_the_same_tab() {
    let mut app = sample();
    for _ in 0..3 {
        app.next_tab();
    }
    let before = app.selected_tab();
    app.next_tab();
    app.prev_tab();
    assert_eq!(app.selected_tab(), before);
}

#[test]
fn items_wrap_around() {
    let mut app = sample();
    app.next_tab();
    assert_eq!(app.current_items_count(), 3);
    app.next_item();
    app.next_item();
    assert_eq!(app.selected(), Some(2));
    assert_eq!(app.scroll_position(), 2);
    assert_eq!(app.get_selected_item().unwrap().name, "c.go");
    app.next_item();
    assert_eq!(app.selected(), Some(0));
    app.prev_item();
    assert_eq!(app.selected(), Some(2));
    assert_eq!(app.scroll_position(), 2);
}

#[test]
fn next_then_prev_item_returns_to_the_same_item() {
    let mut app = sample();
    app.next_tab();
    app.next_item();
    app.next_item();
    app.prev_item();
    assert_eq!(app.selected(), Some(1));
    app.prev_item();
    app.next_item();
    assert_eq!(app.selected(), Some(1));
}

#[test]
fn moving_in_an_empty_list_does_nothing() {
    let mut app = sample();
    app.next_tab();
    app.next_tab();
    assert_eq!(app.current_items_count(), 0);
    app.next_item();
    app.prev_item();
    assert_eq!(app.selected(), None);
    assert!(app.get_item_at(0).is_none());
}

#[test]
fn typing_a_query_updates_the_command() {
    let mut app = sample();
    app.enter_query_mode();
    assert_eq!(app.input_mode(), InputMode::Query);
    type_text(&mut app, "delete");
    assert_eq!(app.query_command(), QueryCommand::Invalid);
    assert!(!app.is_query_valid());
    type_text(&mut app, " all");
    assert_eq!(app.query_command(), QueryCommand::DeleteAll);
    assert!(app.is_query_valid());
    app.query_pop();
    app.query_pop();
    app.query_pop();
    type_text(&mut app, "Code ");
    assert_eq!(app.query(), "delete Code ");
    assert_eq!(app.query_command(), QueryCommand::DeleteByType(ItemType::Code));
}

#[test]
fn query_with_surrounding_space_and_capitals_is_understood() {
    let mut app = sample();
    type_text(&mut app, "  DELETE ALL  ");
    assert_eq!(app.query_command(), QueryCommand::DeleteAll);
}

#[test]
fn erasing_everything_leaves_no_command() {
    let mut app = sample();
    type_text(&mut app, "x");
    assert_eq!(app.query_command(), QueryCommand::Invalid);
    app.query_pop();
    assert_eq!(app.query(), "");
    assert_eq!(app.query_command(), QueryCommand::Empty);
    app.query_pop();
    assert_eq!(app.query(), "");
    assert_eq!(app.query_command(), QueryCommand::Empty);
}

#[test]
fn push_then_pop_restores_the_query() {
    let mut app = sample();
    type_text(&mut app, "delete all");
    app.query_push('x');
    assert_eq!(app.query_command(), QueryCommand::Invalid);
    app.query_pop();
    assert_eq!(app.query(), "delete all");
    assert_eq!(app.query_command(), QueryCommand::DeleteAll);
}

#[test]
fn exit_query_mode_clears_the_query() {
    let mut app = sample();
    app.enter_query_mode();
    type_text(&mut app, "delete all");
    app.exit_query_mode();
    assert_eq!(app.input_mode(), InputMode::Normal);
    assert_eq!(app.query(), "");
    assert_eq!(app.query_command(), QueryCommand::Empty);
}

#[test]
fn run_query_delete_by_type() {
    let mut app = sample();
    app.next_tab();
    app.enter_query_mode();
    type_text(&mut app, "delete code");
    let removed = app.run_query();
    let names: Vec<&str> = removed.iter().map(|i| i.name.as_str()).collect();
    assert_eq!(names, vec!["a.rs", "b.py", "c.go"]);
    assert_eq!(app.current_items_count(), 0);
    assert_eq!(app.selected(), None);
    assert_eq!(app.scrap_yard().get_type_count(&ItemType::Folder), 2);
    assert_eq!(app.input_mode(), InputMode::Normal);
    assert_eq!(app.query(), "");
}

#[test]
fn run_query_delete_all() {
    let mut app = sample();
    type_text(&mut app, "delete all");
    let removed = app.run_query();
    assert_eq!(removed.len(), 5);
    assert_eq!(app.scrap_yard().get_type_count(&ItemType::Folder), 0);
    assert_eq!(app.scrap_yard().get_type_count(&ItemType::Code), 0);
    assert_eq!(app.selected(), None);
}

#[test]
fn run_query_on_an_invalid_command_removes_nothing() {
    let mut app = sample();
    app.enter_query_mode();
    type_text(&mut app, "delete stuff");
    let removed = app.run_query();
    assert!(removed.is_empty());
    assert_eq!(app.current_items_count(), 2);
    assert_eq!(app.input_mode(), InputMode::Normal);
    assert_eq!(app.query(), "");
}

#[test]
fn keys_in_the_list() {
    let mut app = sample();
    assert!(app.handle_key(KeyInput::Tab).is_empty());
    assert_eq!(app.selected_tab(), 1);
    app.handle_key(KeyInput::Right);
    assert_eq!(app.selected_tab(), 2);
    app.handle_key(KeyInput::Left);
    app.handle_key(KeyInput::BackTab);
    assert_eq!(app.selected_tab(), 0);
    app.handle_key(KeyInput::Down);
    assert_eq!(app.selected(), Some(1));
    app.handle_key(KeyInput::Up);
    assert_eq!(app.selected(), Some(0));
    app.handle_key(KeyInput::Char('x'));
    app.handle_key(KeyInput::Enter);
    assert_eq!(app.selected(), Some(0));
    assert!(!app.should_quit());
    app.handle_key(KeyInput::Char('q'));
    assert!(app.should_quit());
}

#[test]
fn esc_in_the_list_quits() {
    let mut app = sample();
    app.handle_key(KeyInput::Esc);
    assert!(app.should_quit());
}

#[test]
fn keys_in_the_query_box() {
    let mut app = sample();
    app.handle_key(KeyInput::Char('/'));
    assert_eq!(app.input_mode(), InputMode::Query);
    for c in "delete foldersq".chars() {
        app.handle_key(KeyInput::Char(c));
    }
    assert!(!app.should_quit());
    assert_eq!(app.query_command(), QueryCommand::Invalid);
    assert!(app.handle_key(KeyInput::Enter).is_empty());
    assert_eq!(app.input_mode(), InputMode::Query);
    app.handle_key(KeyInput::Backspace);
    app.handle_key(KeyInput::Down);
    assert_eq!(app.query(), "delete folders");
    let removed = app.handle_key(KeyInput::Enter);
    assert_eq!(removed.len(), 2);
    assert_eq!(app.input_mode(), InputMode::Normal);
    assert_eq!(app.current_items_count(), 0);
}

#[test]
fn esc_in_the_query_box_leaves_it() {
    let mut app = sample();
    app.handle_key(KeyInput::Char('/'));
    app.handle_key(KeyInput::Char('d'));
    app.handle_key(KeyInput::Esc);
    assert_eq!(app.input_mode(), InputMode::Normal);
    assert_eq!(app.query(), "");
    assert!(!app.should_quit());
}

#[test]
fn header_shows_only_tabs_with_items() {
    let mut app = sample();
    let tabs = app.header_tabs();
    assert_eq!(tabs.len(), 2);
    assert_eq!(tabs[0], HeaderTab { index: 0, item_type: ItemType::Folder, count: 2, selected: true });
    assert_eq!(tabs[1], HeaderTab { index: 1, item_type: ItemType::Code, count: 3, selected: false });
    app.next_tab();
    app.next_tab();
    let tabs = app.header_tabs();
    assert_eq!(tabs.len(), 2);
    assert!(tabs.iter().all(|t| !t.selected));
}

#[test]
fn query_line_status_and_hint() {
    let mut app = sample();
    assert!(!app.shows_query_hint());
    assert_eq!(app.query_status(), QueryStatus::NoCommand);
    app.enter_query_mode();
    assert!(app.shows_query_hint());
    app.query_push('d');
    assert!(!app.shows_query_hint());
    assert_eq!(app.query_status(), QueryStatus::Invalid);
    for c in "elete all".chars() {
        app.query_push(c);
    }
    assert_eq!(app.query_status(), QueryStatus::Runnable);
}

#[test]
fn query_letter_case_does_not_matter() {
    let mut lower = sample();
    type_text(&mut lower, "delete code");
    let mut upper = sample();
    type_text(&mut upper, "DELETE CODE");
    assert_eq!(lower.query_command(), upper.query_command());
    assert_eq!(upper.query_command(), QueryCommand::DeleteByType(ItemType::Code));
}

#[test]
fn every_tab_label_parses_back_to_its_kind() {
    let app = sample();
    for t in app.tabs() {
        assert_eq!(App::parse_item_type(t.label()), Some(*t));
        assert_eq!(App::parse_item_type(&t.label().to_uppercase()), Some(*t));
    }
}
