//! An interactive shell for an asynchronous query service: assembling
//! statements from input lines, waiting for queries, paging through
//! listings and results.

pub mod text;
pub mod meta;
pub mod assembler;
pub mod repl;
pub mod status;
pub mod query;
pub mod pagination;
pub mod results;
pub mod config;
pub mod error;
