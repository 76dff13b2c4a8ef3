//! Errors surfaced by the initializer's core steps.

use vstd::prelude::*;

verus! {

/// Every failure the core can report. Each step aborts on the first
/// error; the caller turns it into a process failure and a log line.
#[derive(Debug)]
pub enum InitError {
    /// Text did not parse as a TOML document; carries the parser's
    /// diagnostic.
    ParseFailed(String),
    /// The manifest has no plain package name under `package.name`.
    MissingPackageName,
    /// The manifest's `package.name` exists but is not a string.
    PackageNameNotString,
    /// The config document's `env` key exists but is not a table, so the
    /// generated entries cannot be merged without clobbering it.
    EnvNotTable,
    /// A boilerplate config file already has content; nothing is
    /// overwritten.
    ConfigFilesExist,
    /// The TOML serializer refused the merged document.
    RenderFailed,
}

} // verus!
