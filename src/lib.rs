//! Core logic of a daemon that watches a directory tree for finished file
//! writes: loading the credentials configuration, and reducing raw
//! filesystem notifications to "closed after write" events.

pub mod configuration;
pub mod error;
pub mod watcher;
