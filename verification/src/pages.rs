//! The data-backed pages: each owns one fetch-state machine instance and
//! drives it with the messages its reducer understands.

pub mod markdown_file;
pub mod post;
pub mod posts;
pub mod projects;
pub mod text;
pub mod txt;
