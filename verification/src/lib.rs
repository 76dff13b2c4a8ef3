//! Core logic of a project initializer for TOML-backed compile-time
//! configuration: it locates the manifest that governs a nested package
//! tree, derives relative path prefixes, merges a fixed set of generated
//! keys into a build-tool config document without disturbing anything
//! else in it, and plans boilerplate and ignore-file contents.

pub mod artifacts;
pub mod codec;
pub mod config;
pub mod errors;
pub mod manifest;
pub mod paths;
pub mod resolve;
pub mod value;
