//! Bundle a directory's text files into one formatted document.
//!
//! The library holds the verified core of a clipboard-bundling tool:
//! deciding which files count as text, rendering each file's relative
//! path and contents into a fragment, and concatenating the fragments
//! into one output string, sequentially or in parallel. Filesystem
//! traversal, reading, logging and the clipboard itself live outside
//! the library and hand it plain values.

pub mod aggregate;
pub mod classify;
pub mod config;
pub mod format;
pub mod ignore;
pub mod strops;
pub mod walk;
