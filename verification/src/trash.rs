use vstd::prelude::*;
use crate::item::ItemType;

verus! {

/// A file or directory that sits in the Trash, as the browser shows it.
#[derive(Debug, Clone)]
pub struct TrashItem {
    pub name: String,
    pub original_path: String,
    pub deleted_at: String,
    pub item_type: ItemType,
    pub size: u64,
}

/// What is read from the Trash about one of its entries, before it is sorted
/// into a kind: its file name, its path, its extension (empty when it has
/// none), whether it is a directory, when it was last modified (already
/// written out), and its size in bytes.
#[derive(Debug)]
pub struct TrashEntry {
    pub name: String,
    pub original_path: String,
    pub extension: String,
    pub is_dir: bool,
    pub deleted_at: String,
    pub size: u64,
}

} // verus!
