//! Concatenate text sources line by line, optionally numbering lines.
//!
//! The library holds the pure core of a `cat`-style utility: resolving the
//! numbering mode from the command-line flags, choosing the default source
//! list, and rendering the lines of one source into the exact text that is
//! written to standard output. Reading files and standard input is left to
//! the surrounding binary.

pub mod config;
pub mod emit;
pub mod numeral;
