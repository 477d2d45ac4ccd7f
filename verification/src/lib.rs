//! Command-line scaffolding for Mononoke tools: the arguments every tool
//! registers, how their values are read back, cachelib sizing, repository
//! selection, and the key/value rendering of errors for structured logs.

pub mod arg_values;
pub mod args;
pub mod cachelib;
pub mod cli;
pub mod hgcli;
pub mod repo;
pub mod scuba;
pub mod slogkv;
pub mod text;
