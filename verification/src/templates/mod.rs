//! Retrieval of templates from the remote repository.

pub mod github;
