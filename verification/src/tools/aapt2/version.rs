//! `aapt2 version`.
use vstd::prelude::*;
use crate::argv::{ToolCommand, flag_arg, push_arg, push_flag};

verus! {

/// `aapt2 version`: prints the version of aapt.
pub struct Aapt2Version {
    /// The version argument.
    pub version: String,
    /// Displays this help menu.
    pub help: bool,
}

/// The arguments of `aapt2 version` for `v`.
pub open spec fn version_args(v: Aapt2Version) -> Seq<Seq<char>> {
    seq!["version"@] +
        seq![v.version@] +
        flag_arg(v.help, "-h"@)
}

impl Aapt2Version {
    /// Asks for `version`.
    pub fn new(version: String) -> (r: Self)
        ensures
            r.version == version,
            !r.help,
    {
        Aapt2Version {
            version: version,
            help: false,
        }
    }

    pub fn help(&mut self, help: bool) -> (ret: &mut Self)
        ensures
            *ret == (Aapt2Version { help: help, ..*old(self) }),
            *final(self) == *final(ret),
    {
        self.help = help;
        self
    }

    /// The `aapt2 version` command line.
    pub fn command(&self) -> (c: ToolCommand)
        ensures
            c.program@ == "aapt2"@,
            c.args.deep_view() == version_args(*self),
    {
        let mut c = ToolCommand::new("aapt2");
        push_arg(&mut c.args, "version");
        push_arg(&mut c.args, self.version.as_str());
        push_flag(&mut c.args, self.help, "-h");
        c
    }
}


} // verus!
