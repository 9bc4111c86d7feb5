//! The kinds of media that can be cited.
pub mod book;
pub mod common;
pub mod conference_paper;
pub mod online_manual;
pub mod online_video;
pub mod version;
