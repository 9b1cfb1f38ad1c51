//! Logic of a `.gitignore` generator: deriving the template catalog from a
//! directory listing, filtering it, and composing the generated file.
//!
//! Everything here works on plain values. Network requests, file writes and
//! terminal output belong to the program that drives this library.

pub mod catalog;
pub mod commands;
pub mod filter;
pub mod pattern;
pub mod render;
pub mod status;
pub mod text;
