//! `aapt2 compile`: compiles resources into intermediate `.flat` files.
use vstd::prelude::*;
use crate::argv::{all_if, flag_arg, opt_arg, opt_view, push_all_if, push_arg, push_flag, push_opt, ToolCommand, group_args_passed, has_option};

verus! {

/// # Compile
/// AAPT2 supports compilation of all Android resource types, such as drawables and XML
/// files. When you invoke AAPT2 for compilation, you should pass a single resource file
/// as an input per invocation. AAPT2 then parses the file and generates an intermediate
/// binary file with a .flat extension.
///
/// The general syntax is `aapt2 compile path-to-input-files [options] -o output-directory/`.
pub struct Aapt2Compile {
    /// Directory whose files are compiled one by one.
    pub res_path: Option<String>,
    /// Specifies the output path for the compiled resource(s).
    pub compiled_res: String,
    /// Specifies the directory to scan for resources.
    pub res_dir: Option<String>,
    /// Zip file containing the res directory to scan for resources.
    pub res_zip: Option<String>,
    /// Generates a text file containing the resource symbols in the specified file.
    pub output_text_symbols: Option<String>,
    /// Generates pseudo-localized versions of default strings, such as en-XA and en-XB.
    pub pseudo_localize: bool,
    /// Disables PNG processing.
    pub no_crunch: bool,
    /// Treats errors that are permissible when using earlier versions of AAPT as warnings.
    pub legacy: bool,
    /// Applies the same visibility rules for styleables as for all other resources.
    pub preserve_visibility_of_styleables: bool,
    /// Sets the visibility of the compiled resources to the specified level.
    pub visibility: Option<Visibility>,
    /// Enable verbose logging.
    pub verbose: bool,
    /// Generate systrace json trace fragment to specified folder.
    pub trace_folder: Option<String>,
    /// Displays this help menu.
    pub help: bool,
}

/// The arguments of `aapt2 compile` for `c`, where `res_files` are the files found under `c.res_path`.
pub open spec fn compile_args(c: Aapt2Compile, res_files: Seq<Seq<char>>) -> Seq<Seq<char>> {
    seq!["compile"@] +
        all_if(c.res_path is Some, res_files) +
        seq!["-o"@, c.compiled_res@] +
        opt_arg("--dir"@, opt_view(c.res_dir)) +
        opt_arg("--visibility"@, visibility_text_opt(c.visibility)) +
        opt_arg("--zip"@, opt_view(c.res_zip)) +
        opt_arg("--output-text-symbols"@, opt_view(c.output_text_symbols)) +
        flag_arg(c.pseudo_localize, "--pseudo-localize"@) +
        flag_arg(c.no_crunch, "--no-crunch"@) +
        flag_arg(c.legacy, "--legacy"@) +
        flag_arg(c.preserve_visibility_of_styleables, "--preserve-visibility-of-styleables"@) +
        opt_arg("--trace-folder"@, opt_view(c.trace_folder)) +
        flag_arg(c.verbose, "-v"@) +
        flag_arg(c.help, "-h"@)
}

/// Exactly one source of resources is named: a path, a directory or a zip file.
pub open spec fn has_one_source(c: Aapt2Compile) -> bool {
    ||| c.res_path is Some && c.res_dir is None && c.res_zip is None
    ||| c.res_path is None && c.res_dir is Some && c.res_zip is None
    ||| c.res_path is None && c.res_dir is None && c.res_zip is Some
}

/// The setters change options only, never the source, so a builder made by
/// one of the constructors and any setters names exactly one source.
pub proof fn lemma_options_keep_one_source(before: Aapt2Compile, after: Aapt2Compile)
    requires
        has_one_source(before),
        after.res_path == before.res_path,
        after.res_dir == before.res_dir,
        after.res_zip == before.res_zip,
    ensures has_one_source(after),
{
}

impl Aapt2Compile {
    /// Compiles every file found under `res_path` into `compiled_res`.
    pub fn new(res_path: &str, compiled_res: &str) -> (r: Self)
        ensures
            has_one_source(r),
            r.res_path matches Some(v) && v@ == res_path@,
            r.compiled_res@ == compiled_res@,
            r.res_dir is None,
            r.res_zip is None,
            r.output_text_symbols is None,
            !r.pseudo_localize,
            !r.no_crunch,
            !r.legacy,
            !r.preserve_visibility_of_styleables,
            r.visibility is None,
            !r.verbose,
            r.trace_folder is None,
            !r.help,
    {
        Aapt2Compile {
            res_path: Some(res_path.to_owned()),
            compiled_res: compiled_res.to_owned(),
            res_dir: None,
            res_zip: None,
            output_text_symbols: None,
            pseudo_localize: false,
            no_crunch: false,
            legacy: false,
            preserve_visibility_of_styleables: false,
            visibility: None,
            verbose: false,
            trace_folder: None,
            help: false,
        }
    }

    /// Compiles the resource directory `res_dir` (`--dir`) into `compiled_res`.
    pub fn new_from_res_dir(res_dir: &str, compiled_res: &str) -> (r: Self)
        ensures
            has_one_source(r),
            r.res_path is None,
            r.compiled_res@ == compiled_res@,
            r.res_dir matches Some(v) && v@ == res_dir@,
            r.res_zip is None,
            r.output_text_symbols is None,
            !r.pseudo_localize,
            !r.no_crunch,
            !r.legacy,
            !r.preserve_visibility_of_styleables,
            r.visibility is None,
            !r.verbose,
            r.trace_folder is None,
            !r.help,
    {
        Aapt2Compile {
            res_path: None,
            compiled_res: compiled_res.to_owned(),
            res_dir: Some(res_dir.to_owned()),
            res_zip: None,
            output_text_symbols: None,
            pseudo_localize: false,
            no_crunch: false,
            legacy: false,
            preserve_visibility_of_styleables: false,
            visibility: None,
            verbose: false,
            trace_folder: None,
            help: false,
        }
    }

    /// Compiles the zipped resource directory `res_zip` (`--zip`) into `compiled_res`.
    pub fn new_from_res_zip(res_zip: &str, compiled_res: &str) -> (r: Self)
        ensures
            has_one_source(r),
            r.res_path is None,
            r.compiled_res@ == compiled_res@,
            r.res_dir is None,
            r.res_zip matches Some(v) && v@ == res_zip@,
            r.output_text_symbols is None,
            !r.pseudo_localize,
            !r.no_crunch,
            !r.legacy,
            !r.preserve_visibility_of_styleables,
            r.visibility is None,
            !r.verbose,
            r.trace_folder is None,
            !r.help,
    {
        Aapt2Compile {
            res_path: None,
            compiled_res: compiled_res.to_owned(),
            res_dir: None,
            res_zip: Some(res_zip.to_owned()),
            output_text_symbols: None,
            pseudo_localize: false,
            no_crunch: false,
            legacy: false,
            preserve_visibility_of_styleables: false,
            visibility: None,
            verbose: false,
            trace_folder: None,
            help: false,
        }
    }

    pub fn output_text_symbols(&mut self, output_text_symbols: String) -> (ret: &mut Self)
        ensures
            *ret == (Aapt2Compile { output_text_symbols: Some(output_text_symbols), ..*old(self) }),
            *final(self) == *final(ret),
    {
        self.output_text_symbols = Some(output_text_symbols);
        self
    }

    pub fn pseudo_localize(&mut self, pseudo_localize: bool) -> (ret: &mut Self)
        ensures
            *ret == (Aapt2Compile { pseudo_localize: pseudo_localize, ..*old(self) }),
            *final(self) == *final(ret),
    {
        self.pseudo_localize = pseudo_localize;
        self
    }

    pub fn no_crunch(&mut self, no_crunch: bool) -> (ret: &mut Self)
        ensures
            *ret == (Aapt2Compile { no_crunch: no_crunch, ..*old(self) }),
            *final(self) == *final(ret),
    {
        self.no_crunch = no_crunch;
        self
    }

    pub fn legacy(&mut self, legacy: bool) -> (ret: &mut Self)
        ensures
            *ret == (Aapt2Compile { legacy: legacy, ..*old(self) }),
            *final(self) == *final(ret),
    {
        self.legacy = legacy;
        self
    }

    pub fn preserve_visibility_of_styleables(&mut self, preserve_visibility_of_styleables: bool) -> (ret: &mut Self)
        ensures
            *ret == (Aapt2Compile { preserve_visibility_of_styleables: preserve_visibility_of_styleables, ..*old(self) }),
            *final(self) == *final(ret),
    {
        self.preserve_visibility_of_styleables = preserve_visibility_of_styleables;
        self
    }

    pub fn verbose(&mut self, verbose: bool) -> (ret: &mut Self)
        ensures
            *ret == (Aapt2Compile { verbose: verbose, ..*old(self) }),
            *final(self) == *final(ret),
    {
        self.verbose = verbose;
        self
    }

    pub fn trace_folder(&mut self, trace_folder: &str) -> (ret: &mut Self)
        ensures
            ret.trace_folder matches Some(v) && v@ == trace_folder@,
            *ret == (Aapt2Compile { trace_folder: ret.trace_folder, ..*old(self) }),
            *final(self) == *final(ret),
    {
        self.trace_folder = Some(trace_folder.to_owned());
        self
    }

    pub fn help(&mut self, help: bool) -> (ret: &mut Self)
        ensures
            *ret == (Aapt2Compile { help: help, ..*old(self) }),
            *final(self) == *final(ret),
    {
        self.help = help;
        self
    }

    pub fn visibility(&mut self, visibility: Visibility) -> (ret: &mut Self)
        ensures
            *ret == (Aapt2Compile { visibility: Some(visibility), ..*old(self) }),
            *final(self) == *final(ret),
    {
        self.visibility = Some(visibility);
        self
    }

    /// The `aapt2 compile` command line; `res_files` are the files found under `res_path`, in the order in which they were found.
    pub fn command(&self, res_files: &Vec<String>) -> (c: ToolCommand)
        ensures
            c.program@ == "aapt2"@,
            c.args.deep_view() == compile_args(*self, res_files.deep_view()),
    {
        let mut c = ToolCommand::new("aapt2");
        push_arg(&mut c.args, "compile");
        push_all_if(&mut c.args, self.res_path.is_some(), res_files);
        push_arg(&mut c.args, "-o");
        push_arg(&mut c.args, self.compiled_res.as_str());
        push_opt(&mut c.args, "--dir", &self.res_dir);
        push_opt(&mut c.args, "--visibility", &visibility_text_string(self.visibility));
        push_opt(&mut c.args, "--zip", &self.res_zip);
        push_opt(&mut c.args, "--output-text-symbols", &self.output_text_symbols);
        push_flag(&mut c.args, self.pseudo_localize, "--pseudo-localize");
        push_flag(&mut c.args, self.no_crunch, "--no-crunch");
        push_flag(&mut c.args, self.legacy, "--legacy");
        push_flag(&mut c.args, self.preserve_visibility_of_styleables, "--preserve-visibility-of-styleables");
        push_opt(&mut c.args, "--trace-folder", &self.trace_folder);
        push_flag(&mut c.args, self.verbose, "-v");
        push_flag(&mut c.args, self.help, "-h");
        c
    }
}

/// Visibility level of compiled resources.
#[derive(Debug, Clone, Copy, PartialEq, Eq, Structural)]
pub enum Visibility {
    Public,
    Private,
    Default,
}

/// How a visibility level is written on the command line.
pub open spec fn visibility_text(v: Visibility) -> Seq<char> {
    match v {
        Visibility::Public => "public"@,
        Visibility::Private => "private"@,
        Visibility::Default => "default"@,
    }
}

/// The text of an optional visibility level.
pub open spec fn visibility_text_opt(v: Option<Visibility>) -> Option<Seq<char>> {
    match v {
        Some(v) => Some(visibility_text(v)),
        None => None,
    }
}

fn visibility_text_string(v: Option<Visibility>) -> (r: Option<String>)
    ensures opt_view(r) == visibility_text_opt(v),
{
    match v {
        Some(v) => Some(v.to_string()),
        None => None,
    }
}

impl Visibility {
    /// The level as written on the command line (`public`, `private` or `default`).
    pub fn to_string(&self) -> (r: String)
        ensures r@ == visibility_text(*self),
    {
        match self {
            Visibility::Public => "public".to_owned(),
            Visibility::Private => "private".to_owned(),
            Visibility::Default => "default".to_owned(),
        }
    }
}

/// Every switch of `aapt2 compile` that is set is passed, and every option that has
/// a value is passed with it.
pub proof fn lemma_compile_passes_every_option(c: Aapt2Compile, res_files: Seq<Seq<char>>)
    ensures
        c.pseudo_localize ==> compile_args(c, res_files).contains("--pseudo-localize"@),
        c.no_crunch ==> compile_args(c, res_files).contains("--no-crunch"@),
        c.legacy ==> compile_args(c, res_files).contains("--legacy"@),
        c.preserve_visibility_of_styleables ==> compile_args(c, res_files).contains("--preserve-visibility-of-styleables"@),
        c.verbose ==> compile_args(c, res_files).contains("-v"@),
        c.help ==> compile_args(c, res_files).contains("-h"@),
        c.res_dir is Some ==> has_option(compile_args(c, res_files), "--dir"@, c.res_dir->0@),
        c.res_zip is Some ==> has_option(compile_args(c, res_files), "--zip"@, c.res_zip->0@),
        c.output_text_symbols is Some ==> has_option(compile_args(c, res_files), "--output-text-symbols"@, c.output_text_symbols->0@),
        c.trace_folder is Some ==> has_option(compile_args(c, res_files), "--trace-folder"@, c.trace_folder->0@),
{
    broadcast use group_args_passed;
}

} // verus!

