//! Detection of linter-suppression directives in source trees.
//!
//! The crate models suppression *rules* (compiled line patterns), *scouts*
//! (rule bundles bound to a linter and its file types), a *registry* that
//! composes builtin and user-defined scouts, the per-file matching and
//! deterministic aggregation of a scan, and the translation of a scan result
//! into a structured report.  File-system walking, parallel reads and output
//! serialization live with the callers; this library holds the logic.

pub mod builtin;
pub mod config;
pub mod error;
pub mod finding;
pub mod pattern;
pub mod registry;
pub mod report;
pub mod rule;
pub mod scanner;
pub mod scout;
pub mod stats;
pub mod text;
