//! Compiles a Markdown document with an optional structured preamble into
//! HTML. The preamble is split off the document and read into settings; the
//! body is expanded through a template environment, in which it can read the
//! settings and call macros; the expanded text is converted to HTML.
//!
//! The library decides and computes; it reads no file and runs no process.
//! Where a step needs one, the caller hands in what reading or running gave,
//! or a function that does it.

pub mod text;
pub mod lines;
pub mod error;
pub mod yaml;
pub mod frontmatter;
pub mod preamble;
pub mod schema;
pub mod variable;
pub mod context;
pub mod processor;
pub mod functions;
pub mod nesting;
