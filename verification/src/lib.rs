//! Discovery, retrieval and local caching of ignore-file templates published by a
//! remote template repository.
//!
//! The crate is the deterministic core of the tool. It decides what has to be
//! fetched, read, written or removed and what the user is shown; the shell around
//! it performs the requests and the file operations and hands the outcomes back
//! as plain values.

pub mod cache;
pub mod catalog;
pub mod commands;
pub mod error;
pub mod name_map;
pub mod names;
pub mod probe;
pub mod service;
pub mod templates;
pub mod text;
