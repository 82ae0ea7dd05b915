//! Resolution of symbol paths in published Rust documentation, extraction of
//! the resolved page into a structured document, and the session state that
//! lets later interactions re-enter an extracted document.

pub mod text;
pub mod candidate;
pub mod origin;
pub mod document;
pub mod page;
pub mod sections;
pub mod extract;
pub mod resolve;
pub mod session;
pub mod render;
pub mod buttons;
pub mod crates;
