//! The command line of the `crossbundle` tool.
pub mod grammar;
pub mod values;
pub mod choices;
pub mod table;
pub mod build_command;
pub mod run_command;
pub mod doctor;
pub mod install;
pub mod update;
pub mod opts;
pub mod log_command;
pub mod plan_steps;
