//! Navigation and text-access engine for a terminal reader of a fixed
//! 66-book anthology: the catalog of books and chapter bounds, the
//! prefix-based book-name resolver, the per-book verse cache over a
//! read-only text source, and the navigation state machine.
pub mod book;
pub mod nav;
pub mod resolver;
pub mod store;

pub use book::BibleBook;
pub use nav::App;
pub use nav::Command;
pub use resolver::minimum_prefix_match;
pub use store::Database;
pub use store::LoadError;
