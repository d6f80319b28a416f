//! Resource configuration resolution and build pipeline for lexer/parser
//! projects: decisions and text generation, free of I/O.

pub mod config;
pub mod pipeline;
pub mod template;
pub mod text;
