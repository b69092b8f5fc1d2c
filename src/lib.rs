//! A small interactive shell front-end: a verified tokenizer for command
//! lines and the decisions of its read-parse-dispatch loop.

pub mod tokenizer;
pub mod token_laws;
mod text;
pub mod diagnostics;
pub mod path;
pub mod session;
