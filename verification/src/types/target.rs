//! Cargo targets of a package.
use vstd::prelude::*;

verus! {

/// A Cargo target: a binary, an example or the library.
#[derive(Debug, Clone)]
pub enum Target {
    Bin(String),
    Example(String),
    Lib,
}

} // verus!
