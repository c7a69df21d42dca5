//! `aapt2 diff`.
use vstd::prelude::*;
use crate::argv::{ToolCommand, clone_strings, flag_arg, push_all, push_arg, push_flag};

verus! {

/// `aapt2 diff`: prints the differences in resources of two apks.
pub struct Aapt2Diff {
    /// The apks to compare.
    pub input_apks: Vec<String>,
    /// Displays this help menu.
    pub help: bool,
}

/// The arguments of `aapt2 diff` for `d`.
pub open spec fn diff_args(d: Aapt2Diff) -> Seq<Seq<char>> {
    seq!["diff"@] +
        d.input_apks.deep_view() +
        flag_arg(d.help, "-h"@)
}

impl Aapt2Diff {
    /// Compares `input_apks`.
    pub fn new(input_apks: &[String]) -> (r: Self)
        ensures
            r.input_apks@ == input_apks@,
            !r.help,
    {
        Aapt2Diff {
            input_apks: clone_strings(input_apks),
            help: false,
        }
    }

    pub fn help(&mut self, help: bool) -> (ret: &mut Self)
        ensures
            *ret == (Aapt2Diff { help: help, ..*old(self) }),
            *final(self) == *final(ret),
    {
        self.help = help;
        self
    }

    /// The `aapt2 diff` command line.
    pub fn command(&self) -> (c: ToolCommand)
        ensures
            c.program@ == "aapt2"@,
            c.args.deep_view() == diff_args(*self),
    {
        let mut c = ToolCommand::new("aapt2");
        push_arg(&mut c.args, "diff");
        push_all(&mut c.args, &self.input_apks);
        push_flag(&mut c.args, self.help, "-h");
        c
    }
}


} // verus!
