//! Configuration of the tool itself.
use vstd::prelude::*;
use crate::utils::shell::Shell;

verus! {

/// Configuration information for creator. This is not specific to a build,
/// it is information relating to creator itself.
#[derive(Debug)]
pub struct Config {
    /// Information about how to write messages to the shell
    pub shell: Shell,
    /// Current working dir
    pub current_dir: String,
}

impl Config {
    /// Creates a new config instance.
    pub fn new(shell: Shell, current_dir: String) -> (r: Config)
        ensures r.shell == shell, r.current_dir == current_dir,
    {
        Config { shell, current_dir }
    }

    /// Gets a reference to the shell, e.g., for writing error messages.
    pub fn shell(&self) -> (r: &Shell)
        ensures *r == self.shell,
    {
        &self.shell
    }

    /// Gets a reference to the current working dir.
    pub fn current_dir(&self) -> (r: &str)
        ensures r@ == self.current_dir@,
    {
        self.current_dir.as_str()
    }
}

} // verus!
