//! The decisions and the text behind a command-line helper that creates a
//! repository from a template: which fields still need an answer, which
//! template a choice stands for, which arguments carry the request, and how the
//! platform's answer is shown.
pub mod args;
pub mod command;
pub mod config;
pub mod filter;
pub mod json;
pub mod number;
pub mod parse;
pub mod path;
pub mod render;
pub mod resolve;
pub mod response;
pub mod syntax;
pub mod text;
pub mod value;
