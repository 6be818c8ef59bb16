use scrap::app::App;
use scrap::item::ItemType;
use scrap::query::{QueryCommand, classify_query, item_type_from_word};

#[test]
fn words_name_kinds() {
    assert_eq!(item_type_from_word("folders"), Some(ItemType::Folder));
    assert_eq!(item_type_from_word("folder"), Some(ItemType::Folder));
    assert_eq!(item_type_from_word("code"), Some(ItemType::Code));
    assert_eq!(item_type_from_word("docs"), Some(ItemType::Document));
    assert_eq!(item_type_from_word("documents"), Some(ItemType::Document));
    assert_eq!(item_type_from_word("document"), Some(ItemType::Document));
    assert_eq!(item_type_from_word("images"), Some(ItemType::Image));
    assert_eq!(item_type_from_word("image"), Some(ItemType::Image));
    assert_eq!(item_type_from_word("video"), Some(ItemType::Video));
    assert_eq!(item_type_from_word("videos"), Some(ItemType::Video));
    assert_eq!(item_type_from_word("audio"), Some(ItemType::Audio));
    assert_eq!(item_type_from_word("archives"), Some(ItemType::Archive));
    assert_eq!(item_type_from_word("archive"), Some(ItemType::Archive));
    assert_eq!(item_type_from_word("other"), Some(ItemType::Other));
    assert_eq!(item_type_from_word("audios"), None);
    assert_eq!(item_type_from_word("Code"), None);
    assert_eq!(item_type_from_word(""), None);
}

#[test]
fn parse_item_type_ignores_case_and_surrounding_space() {
    assert_eq!(App::parse_item_type("  Images "), Some(ItemType::Image));
    assert_eq!(App::parse_item_type("CODE"), Some(ItemType::Code));
    assert_eq!(App::parse_item_type("\tDocs\n"), Some(ItemType::Document));
    assert_eq!(App::parse_item_type("video s"), None);
    assert_eq!(App::parse_item_type("   "), None);
}

#[test]
fn classify_empty_query() {
    assert_eq!(classify_query(""), QueryCommand::Empty);
}

#[test]
fn classify_delete_all() {
    assert_eq!(classify_query("delete all"), QueryCommand::DeleteAll);
}

#[test]
fn classify_delete_by_type() {
    assert_eq!(classify_query("delete code"), QueryCommand::DeleteByType(ItemType::Code));
    assert_eq!(classify_query("delete folders"), QueryCommand::DeleteByType(ItemType::Folder));
    assert_eq!(classify_query("delete  images"), QueryCommand::DeleteByType(ItemType::Image));
}

#[test]
fn classify_invalid_queries() {
    assert_eq!(classify_query("delete"), QueryCommand::Invalid);
    assert_eq!(classify_query("delete "), QueryCommand::Invalid);
    assert_eq!(classify_query("delete stuff"), QueryCommand::Invalid);
    assert_eq!(classify_query("remove all"), QueryCommand::Invalid);
    assert_eq!(classify_query("delete  all"), QueryCommand::Invalid);
    assert_eq!(classify_query("deletecode"), QueryCommand::Invalid);
}
