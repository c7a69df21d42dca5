//! Wrappers of the Android and Java command line tools.
pub mod aapt2;
pub mod bundletool;

use vstd::prelude::*;

verus! {

/// The outcome of one check of an installed dependency.
#[derive(Clone, PartialEq, Eq, Hash)]
pub struct CheckInfo {
    pub dependency_name: String,
    pub check_name: String,
    pub passed: bool,
}

impl CheckInfo {
    /// The same check with the opposite outcome.
    pub fn invert_passed(self) -> (r: CheckInfo)
        ensures r == (CheckInfo { passed: !self.passed, ..self }),
    {
        let mut s = self;
        s.passed = !s.passed;
        s
    }
}

/// Turns a checked item into the outcome of its check.
pub trait IntoCheckInfo: Sized {
    /// The outcome when the check passed.
    fn check_passed(self) -> CheckInfo;

    /// The outcome when the check failed: that of `check_passed`, inverted.
    fn check_failed(self) -> (r: CheckInfo)
        ensures
            exists|p: CheckInfo| call_ensures(Self::check_passed, (self,), p) && r == (CheckInfo { passed: !p.passed, ..p }),
    {
        self.check_passed().invert_passed()
    }
}

} // verus!
