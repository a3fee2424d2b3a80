//! Checklist linter core: resolves community-health checklist items from
//! ordered chains of evidence sources and assembles the final report.
//!
//! Every checklist item is answered by consulting one or more evidence
//! sources in a fixed priority order with short-circuiting OR semantics
//! (see [`outcome`]). The pure evidence primitives (pattern matching over
//! file content and file names, license classification) live in [`text`]
//! and [`license`]; the per-section resolvers and the report assembler
//! live in [`resolver`]. All I/O (reading files, calling the remote
//! forge API) happens outside this crate: callers gather raw evidence
//! and hand it in as plain values.

pub mod license;
pub mod outcome;
pub mod report;
pub mod resolver;
pub mod text;
