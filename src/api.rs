//! The data model of citations and its renderers.
pub mod author;
pub mod citation;
pub mod date;
pub mod errors;
pub mod location;
pub mod media;
pub mod page_range;
pub mod title;
