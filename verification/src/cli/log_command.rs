//! The `log` command: attaching to the log of a running application.
use vstd::prelude::*;

verus! {

/// Attaches the logger to the Rust output of the application running on an
/// Android device.
#[derive(Debug, Clone, Copy, PartialEq, Eq, Structural)]
pub struct AndroidLogCommand;

/// The `log` subcommands.
#[derive(Debug, Clone, Copy, PartialEq, Eq, Structural)]
pub enum LogCommand {
    /// The log of an Android application.
    Android(AndroidLogCommand),
}

} // verus!
