//! A file organiser for the PARA method: four category directories
//! (Projects, Areas, Resources, Archives) under one root.
//!
//! The library decides; it never touches the disk. Every operation is a
//! function from plain values (paths as `/`-separated strings, what the caller
//! found on disk) to the actions the caller has to perform.

pub mod category;
pub mod cli;
pub mod commands;
pub mod config;
pub mod error;
pub mod paths;
pub mod transfer;

pub use crate::paths::ParaPaths;
