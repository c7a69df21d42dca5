//! Configuration of the tool.
pub mod config;
pub mod shell;
