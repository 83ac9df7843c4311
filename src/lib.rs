//! Session authentication, account lifecycle and note storage for a small
//! note-taking service, written against a key/value store that is driven from
//! outside the library.

pub mod account;
pub mod codec;
pub mod error;
pub mod laws;
pub mod notes;
pub mod pages;
pub mod protocol;
pub mod session;
pub mod store;
pub mod web;
