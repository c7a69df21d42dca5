//! Errors of the tool wrappers and of the target and profile types.
use vstd::prelude::*;

verus! {

/// Errors about Android tools and targets.
#[derive(Debug, Clone, PartialEq, Eq)]
pub enum AndroidError {
    /// The ABI names no supported Android target.
    UnsupportedTarget,
    /// The text names no supported Android build target.
    InvalidBuildTarget(String),
    /// The `BUNDLETOOL_PATH` environment variable is not set.
    BundletoolNotFound,
}

/// Errors of this library.
#[derive(Debug, Clone, PartialEq, Eq)]
pub enum Error {
    /// An Android tool or target error.
    Android(AndroidError),
    /// The text names no build profile.
    InvalidProfile(String),
}

} // verus!
