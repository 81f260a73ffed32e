//! Composes commit messages tagged with an emoji taxonomy: the persisted
//! configuration, the cached catalogue of emojis, and the assembly of a commit
//! title and body from the answers a user gives.
pub mod catalogue;
pub mod commit;
pub mod configuration;
pub mod document;
pub mod error;
pub mod prompts;
