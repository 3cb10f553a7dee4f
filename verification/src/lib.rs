//! A module resolution and loading engine for a JavaScript/TypeScript-style
//! module system embedded inside a host process.
//!
//! The engine owns a module graph behind a copy-on-write cell, serializes all
//! graph growth through build sessions, resolves import specifiers against the
//! current graph snapshot (lazily growing the graph when a resolution surfaces
//! a registry coordinate that is not yet present), and plans the loading of
//! final module bytes with a staged fallback chain.
//!
//! Content fetching, package installation, parsing and transpilation are
//! outside collaborators: the engine decides, the host performs.

pub mod builder;
pub mod cell;
pub mod errors;
pub mod foreign;
pub mod graph;
pub mod load;
pub mod loader;
pub mod manifest;
pub mod media;
pub mod resolve;
pub mod text;
pub mod workspace;
