//! `aapt2 dump`.
use vstd::prelude::*;
use crate::argv::{ToolCommand, flag_arg, opt_arg, opt_view, push_arg, push_flag, push_opt, push_string, group_args_passed, has_option};

verus! {

/// # Dump
/// Dump is used for printing information about the APK you generated using the link
/// command. The general syntax is `aapt2 dump sub-command filename.apk [options]`.
pub struct Aapt2Dump {
    pub subcommand: SubCommand,
    /// The apk to inspect.
    pub filename_apk: String,
    /// Suppresses the output of values when displaying resource.
    pub no_values: bool,
    /// A compiled xml file to print.
    pub file: Option<String>,
    /// Increases verbosity of the output.
    pub v: bool,
    /// Displays this help menu.
    pub h: bool,
}

/// The arguments of `aapt2 dump` for `d`.
pub open spec fn dump_args(d: Aapt2Dump) -> Seq<Seq<char>> {
    seq!["dump"@] +
        seq![subcommand_text(d.subcommand)] +
        seq![d.filename_apk@] +
        flag_arg(d.no_values, "--no-values"@) +
        opt_arg("--file"@, opt_view(d.file)) +
        flag_arg(d.v, "-v"@) +
        flag_arg(d.h, "-h"@)
}

impl Aapt2Dump {
    /// Runs `subcommand` on `filename_apk`.
    pub fn new(subcommand: SubCommand, filename_apk: &str) -> (r: Self)
        ensures
            r.subcommand == subcommand,
            r.filename_apk@ == filename_apk@,
            !r.no_values,
            r.file is None,
            !r.v,
            !r.h,
    {
        Aapt2Dump {
            subcommand: subcommand,
            filename_apk: filename_apk.to_owned(),
            no_values: false,
            file: None,
            v: false,
            h: false,
        }
    }

    pub fn no_values(&mut self, no_values: bool) -> (ret: &mut Self)
        ensures
            *ret == (Aapt2Dump { no_values: no_values, ..*old(self) }),
            *final(self) == *final(ret),
    {
        self.no_values = no_values;
        self
    }

    pub fn file(&mut self, file: &str) -> (ret: &mut Self)
        ensures
            ret.file matches Some(v) && v@ == file@,
            *ret == (Aapt2Dump { file: ret.file, ..*old(self) }),
            *final(self) == *final(ret),
    {
        self.file = Some(file.to_owned());
        self
    }

    pub fn v(&mut self, v: bool) -> (ret: &mut Self)
        ensures
            *ret == (Aapt2Dump { v: v, ..*old(self) }),
            *final(self) == *final(ret),
    {
        self.v = v;
        self
    }

    pub fn h(&mut self, h: bool) -> (ret: &mut Self)
        ensures
            *ret == (Aapt2Dump { h: h, ..*old(self) }),
            *final(self) == *final(ret),
    {
        self.h = h;
        self
    }

    /// The `aapt2 dump` command line.
    pub fn command(&self) -> (c: ToolCommand)
        ensures
            c.program@ == "aapt2"@,
            c.args.deep_view() == dump_args(*self),
    {
        let mut c = ToolCommand::new("aapt2");
        push_arg(&mut c.args, "dump");
        push_string(&mut c.args, self.subcommand.to_string());
        push_arg(&mut c.args, self.filename_apk.as_str());
        push_flag(&mut c.args, self.no_values, "--no-values");
        push_opt(&mut c.args, "--file", &self.file);
        push_flag(&mut c.args, self.v, "-v");
        push_flag(&mut c.args, self.h, "-h");
        c
    }
}

/// What `aapt2 dump` prints.
#[derive(Debug, Clone, Copy, PartialEq, Eq, Structural)]
pub enum SubCommand {
    /// Print the contents of the AAPT2 Container (APC) generated during compilation.
    Apc,
    /// Print information extracted from the APK's manifest.
    Badging,
    /// Print every configuration used by a resource in the APK.
    Configurations,
    /// Print the APK's package name.
    Packagename,
    /// Print the permissions extracted from the APK's manifest.
    Permissions,
    /// Print the contents of the APK's resource table string pool.
    Strings,
    /// Print the parents of styles used in the APK.
    Styleparents,
    /// Print the contents of the APK's resource table.
    Resources,
    /// Print strings from the APK's compiled xml.
    Xmlstrings,
    /// Print a tree of the APK's compiled xml.
    Xmltree,
}

/// How a dump sub-command is written on the command line.
pub open spec fn subcommand_text(s: SubCommand) -> Seq<char> {
    match s {
        SubCommand::Apc => "apc"@,
        SubCommand::Badging => "badging"@,
        SubCommand::Configurations => "configurations"@,
        SubCommand::Packagename => "packagename"@,
        SubCommand::Permissions => "permissions"@,
        SubCommand::Strings => "strings"@,
        SubCommand::Styleparents => "styleparents"@,
        SubCommand::Resources => "resources"@,
        SubCommand::Xmlstrings => "xmlstrings"@,
        SubCommand::Xmltree => "xmltree"@,
    }
}

impl SubCommand {
    /// The sub-command as written on the command line.
    pub fn to_string(&self) -> (r: String)
        ensures r@ == subcommand_text(*self),
    {
        match self {
            SubCommand::Apc => "apc".to_owned(),
            SubCommand::Badging => "badging".to_owned(),
            SubCommand::Configurations => "configurations".to_owned(),
            SubCommand::Packagename => "packagename".to_owned(),
            SubCommand::Permissions => "permissions".to_owned(),
            SubCommand::Strings => "strings".to_owned(),
            SubCommand::Styleparents => "styleparents".to_owned(),
            SubCommand::Resources => "resources".to_owned(),
            SubCommand::Xmlstrings => "xmlstrings".to_owned(),
            SubCommand::Xmltree => "xmltree".to_owned(),
        }
    }
}

/// Every switch of `aapt2 dump` that is set is passed, and every option that has
/// a value is passed with it.
pub proof fn lemma_dump_passes_every_option(d: Aapt2Dump)
    ensures
        d.no_values ==> dump_args(d).contains("--no-values"@),
        d.v ==> dump_args(d).contains("-v"@),
        d.h ==> dump_args(d).contains("-h"@),
        d.file is Some ==> has_option(dump_args(d), "--file"@, d.file->0@),
{
    broadcast use group_args_passed;
}

} // verus!
