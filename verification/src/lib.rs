//! The core of a terminal browser for the files sitting in the user's Trash:
//! classification of trashed files by kind, the per-kind collections, the
//! query language ("delete all", "delete <type>") and the state of the browser.

pub mod item;
pub mod text;
pub mod trash;
pub mod scrap;
pub mod scrap_yard;
pub mod query;
pub mod app;
