//! Extraction of structured records (pastes, comments, users, archive
//! listings) from the HTML pages of a paste-hosting site.
pub mod dom;
pub mod access;
pub mod text;
pub mod scalar;
pub mod registry;
pub mod user;
pub mod error;
pub mod paste;
pub mod archive;
