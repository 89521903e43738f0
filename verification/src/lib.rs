//! A small graphics-bootstrap library.
//!
//! It covers the decisions of a minimal shader pipeline: resolving logical
//! resource names to file paths, preparing null-terminated shader source
//! buffers, classifying shader resources by their file-name suffix, and
//! turning the driver's compile and link reports into handles or diagnostic
//! errors. The file system and the GPU driver themselves are outside the
//! library: callers perform those calls and hand the outcomes in as plain
//! values.

pub mod diagnostics;
pub mod errors;
pub mod program;
pub mod resources;
pub mod shader;
pub mod string_utils;
