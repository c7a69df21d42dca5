//! How much the command line tool writes to the terminal.
use vstd::prelude::*;

verus! {

/// The amount of output.
#[derive(Debug, Clone, Copy, PartialEq, Eq, Structural)]
pub enum Verbosity {
    Verbose,
    Normal,
    Quiet,
}

/// The terminal the tool writes its messages to.
#[derive(Debug)]
pub struct Shell {
    pub verbosity: Verbosity,
}

impl Shell {
    /// A shell with normal output.
    pub fn new() -> (r: Shell)
        ensures r.verbosity == Verbosity::Normal,
    {
        Shell { verbosity: Verbosity::Normal }
    }

    /// Sets the amount of output.
    pub fn set_verbosity(&mut self, verbosity: Verbosity)
        ensures final(self).verbosity == verbosity,
    {
        self.verbosity = verbosity;
    }

    /// The amount of output.
    pub fn verbosity(&self) -> (r: Verbosity)
        ensures r == self.verbosity,
    {
        self.verbosity
    }
}

} // verus!
