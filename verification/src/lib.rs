//! Core logic of a small personal-website front end: a fetch-then-render
//! state machine shared by every data-backed page, a session-lifetime
//! content store, and the content transformers (Markdown to HTML, JSON
//! index deserialization) that turn fetched text into renderable form.
//!
//! Network transport and markup construction live outside this crate; the
//! functions here take the transport's outcome as a plain value and decide
//! every state transition, with contracts that pin the decisions down.

pub mod card;
pub mod json;
pub mod pages;
pub mod route;
pub mod store;
pub mod transform;
pub mod utils;
