//! Decision core of an installer for a mod loader.
//!
//! The crate decides and never acts: it chooses versions from catalogs,
//! keeps the state of the installer window, orders the stages of an
//! installation, says what to do with each artifact, and says what is to be
//! written. Fetching, file handling and drawing are the caller's. The one
//! thing computed with outside help is the digest of an artifact's bytes.
pub mod catalog;
pub mod cli;
pub mod download;
pub mod error;
pub mod gui;
pub mod install;
pub mod manifest;
pub mod old_gui;
pub mod paths;
pub mod selector;
pub mod writer;
