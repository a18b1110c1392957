//! Syncs a flat-file ticket store to GitHub Issues and Projects.
//!
//! The library holds every decision of a sync run and none of its input and
//! output: it says which requests are due and what their responses mean,
//! and leaves sending them to its caller. All of it is verified; what the
//! contracts rest on without proof are the lower-case form and the quoted
//! form of a string, both from the standard library, the appending of one
//! character to a string, and the splitting of front matter by
//! `gray_matter`.

pub mod auth;
pub mod cli;
pub mod config;
pub mod decimal;
pub mod document;
pub mod github;
pub mod lines;
pub mod name_map;
pub mod seqs;
pub mod sync;
pub mod text;
pub mod ticket;
