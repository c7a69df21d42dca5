//! `aapt2 convert`.
use vstd::prelude::*;
use crate::argv::{ToolCommand, flag_arg, opt_arg, opt_view, push_arg, push_flag, push_opt, group_args_passed};

verus! {

/// `aapt2 convert`: converts an apk between binary and proto formats.
pub struct Aapt2Convert {
    /// Output path.
    pub output_path: String,
    /// Format of the output. Accepted values are 'proto' and 'binary'. When not set,
    /// defaults to 'binary'.
    pub output_format: Option<OutputFormat>,
    /// Enables encoding sparse entries using a binary search tree.
    pub enable_sparse_encoding: bool,
    /// Preserve raw attribute values in xml files when using the 'binary' output format.
    pub keep_raw_values: bool,
    /// Enables verbose logging.
    pub verbose: bool,
    /// Displays this help menu.
    pub help: bool,
}

/// The arguments of `aapt2 convert` for `c`.
pub open spec fn convert_args(c: Aapt2Convert) -> Seq<Seq<char>> {
    seq!["convert"@] +
        seq!["-o"@, c.output_path@] +
        opt_arg("--output-format"@, output_format_text_opt(c.output_format)) +
        flag_arg(c.enable_sparse_encoding, "--enable-sparse-encoding"@) +
        flag_arg(c.keep_raw_values, "--keep-raw-values"@) +
        flag_arg(c.verbose, "-v"@) +
        flag_arg(c.help, "-h"@)
}

impl Aapt2Convert {
    /// Converts into `output_path`, in the default format.
    pub fn new(output_path: &str) -> (r: Self)
        ensures
            r.output_path@ == output_path@,
            r.output_format is None,
            !r.enable_sparse_encoding,
            !r.keep_raw_values,
            !r.verbose,
            !r.help,
    {
        Aapt2Convert {
            output_path: output_path.to_owned(),
            output_format: None,
            enable_sparse_encoding: false,
            keep_raw_values: false,
            verbose: false,
            help: false,
        }
    }

    pub fn enable_sparse_encoding(&mut self, enable_sparse_encoding: bool) -> (ret: &mut Self)
        ensures
            *ret == (Aapt2Convert { enable_sparse_encoding: enable_sparse_encoding, ..*old(self) }),
            *final(self) == *final(ret),
    {
        self.enable_sparse_encoding = enable_sparse_encoding;
        self
    }

    pub fn keep_raw_values(&mut self, keep_raw_values: bool) -> (ret: &mut Self)
        ensures
            *ret == (Aapt2Convert { keep_raw_values: keep_raw_values, ..*old(self) }),
            *final(self) == *final(ret),
    {
        self.keep_raw_values = keep_raw_values;
        self
    }

    pub fn verbose(&mut self, verbose: bool) -> (ret: &mut Self)
        ensures
            *ret == (Aapt2Convert { verbose: verbose, ..*old(self) }),
            *final(self) == *final(ret),
    {
        self.verbose = verbose;
        self
    }

    pub fn help(&mut self, help: bool) -> (ret: &mut Self)
        ensures
            *ret == (Aapt2Convert { help: help, ..*old(self) }),
            *final(self) == *final(ret),
    {
        self.help = help;
        self
    }

    /// The `aapt2 convert` command line.
    pub fn command(&self) -> (c: ToolCommand)
        ensures
            c.program@ == "aapt2"@,
            c.args.deep_view() == convert_args(*self),
    {
        let mut c = ToolCommand::new("aapt2");
        push_arg(&mut c.args, "convert");
        push_arg(&mut c.args, "-o");
        push_arg(&mut c.args, self.output_path.as_str());
        push_opt(&mut c.args, "--output-format", &output_format_text_string(self.output_format));
        push_flag(&mut c.args, self.enable_sparse_encoding, "--enable-sparse-encoding");
        push_flag(&mut c.args, self.keep_raw_values, "--keep-raw-values");
        push_flag(&mut c.args, self.verbose, "-v");
        push_flag(&mut c.args, self.help, "-h");
        c
    }
}

/// Format that `aapt2 convert` writes.
#[derive(Debug, Clone, Copy, PartialEq, Eq, Structural)]
pub enum OutputFormat {
    Proto,
    Binary,
}

/// How an output format is written on the command line.
pub open spec fn output_format_text(f: OutputFormat) -> Seq<char> {
    match f {
        OutputFormat::Proto => "proto"@,
        OutputFormat::Binary => "binary"@,
    }
}

/// The text of an optional output format.
pub open spec fn output_format_text_opt(f: Option<OutputFormat>) -> Option<Seq<char>> {
    match f {
        Some(f) => Some(output_format_text(f)),
        None => None,
    }
}

fn output_format_text_string(f: Option<OutputFormat>) -> (r: Option<String>)
    ensures opt_view(r) == output_format_text_opt(f),
{
    match f {
        Some(f) => Some(f.to_string()),
        None => None,
    }
}

impl OutputFormat {
    /// The format as written on the command line (`proto` or `binary`).
    pub fn to_string(&self) -> (r: String)
        ensures r@ == output_format_text(*self),
    {
        match self {
            OutputFormat::Proto => "proto".to_owned(),
            OutputFormat::Binary => "binary".to_owned(),
        }
    }
}

/// Every switch of `aapt2 convert` that is set is passed, and every option that has
/// a value is passed with it.
pub proof fn lemma_convert_passes_every_option(c: Aapt2Convert)
    ensures
        c.enable_sparse_encoding ==> convert_args(c).contains("--enable-sparse-encoding"@),
        c.keep_raw_values ==> convert_args(c).contains("--keep-raw-values"@),
        c.verbose ==> convert_args(c).contains("-v"@),
        c.help ==> convert_args(c).contains("-h"@),
{
    broadcast use group_args_passed;
}

} // verus!
